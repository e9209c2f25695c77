//! The administrative capability token.
//!
//! Every privileged operation of the collection registry demands possession
//! of a token belonging to the authority's resource class. The genuine token
//! is created exactly once, at bootstrap; nothing here can duplicate it or
//! fabricate another of its class.

use vstd::prelude::*;

verus! {

/// The resource class the bootstrap routine assigns to the administrative
/// capability. The host allocates each resource class exactly once, so no
/// later class creation ever reuses this identity.
pub const AUTHORITY_CLASS: u64 = 1;

/// A capability badge, identified by the resource class it belongs to.
///
/// The type is deliberately neither `Clone` nor `Copy` and its fields are
/// private: the only genuine instance — the one of the authority's class —
/// is the one `Bootstrap::bootstrap` returns, and [`issue_foreign_badge`]
/// refuses the authority class outright.
pub struct AuthorityToken {
    class: u64,
    name: String,
}

impl AuthorityToken {
    /// The identity of the resource class this token belongs to.
    pub closed spec fn class_id(&self) -> u64 {
        self.class
    }

    /// The display name carried by the token.
    pub closed spec fn spec_name(&self) -> Seq<char> {
        self.name@
    }

    /// A token is genuine exactly when it belongs to the authority's class.
    pub open spec fn is_genuine(&self) -> bool {
        self.class_id() == AUTHORITY_CLASS
    }

    /// The resource class the token belongs to.
    pub fn class(&self) -> (c: u64)
        ensures
            c == self.class_id(),
    {
        self.class
    }

    /// The display name carried by the token.
    pub fn name(&self) -> (n: &String)
        ensures
            n@ == self.spec_name(),
    {
        &self.name
    }

    /// Creates the one genuine capability. Reached only from
    /// `Bootstrap::bootstrap`, which the host calls exactly once.
    pub(crate) fn bootstrap_token() -> (t: AuthorityToken)
        ensures
            t.is_genuine(),
            t.spec_name() == "Power of the Rippy"@,
    {
        AuthorityToken { class: AUTHORITY_CLASS, name: "Power of the Rippy".to_owned() }
    }
}

/// Single authority: genuineness is a single resource class, so any two
/// genuine tokens agree on their class — and since `AuthorityToken` is
/// neither `Clone` nor `Copy`, `AuthorityToken::bootstrap_token` is reached
/// only from the one bootstrap call, and [`issue_foreign_badge`] never
/// yields a genuine token, at most one genuine instance can ever exist.
pub proof fn lemma_single_authority_class(t1: &AuthorityToken, t2: &AuthorityToken)
    requires
        t1.is_genuine(),
        t2.is_genuine(),
    ensures
        t1.class_id() == t2.class_id(),
{
}

/// Models the host handing in a badge of some other resource class, for
/// example to exercise how the registry rejects unauthorized callers.
///
/// Resource classes are allocated exactly once, and the authority's class
/// was taken at bootstrap: asking for it yields nothing, so this can never
/// produce a genuine token.
pub fn issue_foreign_badge(class: u64, name: String) -> (r: Option<AuthorityToken>)
    ensures
        class == AUTHORITY_CLASS ==> r is None,
        class != AUTHORITY_CLASS ==> (r matches Some(t) && t.class_id() == class
            && !t.is_genuine() && t.spec_name() == name@),
{
    if class == AUTHORITY_CLASS {
        None
    } else {
        Some(AuthorityToken { class, name })
    }
}

} // verus!
