//! The registry's laws: what holds of every operation and every sequence of
//! operations, proved once and for all over the abstract state.

use vstd::prelude::*;

use crate::errors::MintError;
use crate::item::ItemView;
use crate::registry::{
    has_item, id_of, lock_outcome, lock_step, mint_outcome, mint_step, registry_inv, update_outcome,
    update_step, RegistryView, METADATA_FIELDS,
};

verus! {

/// One privileged call, abstracted to its inputs.
#[verifier::ext_equal]
pub ghost enum RegistryOp {
    Mint { metadata: Seq<Seq<char>>, badge_class: u64 },
    UpdateField { id: Seq<char>, new_url: Seq<char>, badge_class: u64 },
    LockMint { badge_class: u64 },
}

/// The resource class of the badge an operation presents.
pub open spec fn badge_of(op: RegistryOp) -> u64 {
    match op {
        RegistryOp::Mint { badge_class, .. } => badge_class,
        RegistryOp::UpdateField { badge_class, .. } => badge_class,
        RegistryOp::LockMint { badge_class } => badge_class,
    }
}

/// How one operation moves the registry. The executable operations each
/// ensure that they move their registry exactly as this function says.
pub open spec fn step(s: RegistryView, op: RegistryOp) -> RegistryView {
    match op {
        RegistryOp::Mint { metadata, badge_class } => mint_step(s, metadata, badge_class),
        RegistryOp::UpdateField { id, new_url, badge_class } => update_step(
            s,
            id,
            new_url,
            badge_class,
        ),
        RegistryOp::LockMint { badge_class } => lock_step(s, badge_class),
    }
}

/// How a whole sequence of operations moves the registry, first to last.
pub open spec fn run(s: RegistryView, ops: Seq<RegistryOp>) -> RegistryView
    decreases ops.len(),
{
    if ops.len() == 0 {
        s
    } else {
        run(step(s, ops[0]), ops.drop_first())
    }
}

/// No single operation ever changes the authority requirement, and none
/// ever sets the mintable flag back to true.
pub proof fn lemma_step_frame(s: RegistryView, op: RegistryOp)
    ensures
        step(s, op).authority_class == s.authority_class,
        !s.mintable ==> !step(s, op).mintable,
        step(s, op).mintable ==> s.mintable,
{
}

/// No sequence of operations ever changes the authority requirement, and
/// once the registry is locked it stays locked.
pub proof fn lemma_run_frame(s: RegistryView, ops: Seq<RegistryOp>)
    ensures
        run(s, ops).authority_class == s.authority_class,
        !s.mintable ==> !run(s, ops).mintable,
    decreases ops.len(),
{
    if ops.len() > 0 {
        lemma_step_frame(s, ops[0]);
        lemma_run_frame(step(s, ops[0]), ops.drop_first());
    }
}

/// One operation keeps identities unique.
pub proof fn lemma_step_preserves_inv(s: RegistryView, op: RegistryOp)
    requires
        registry_inv(s),
    ensures
        registry_inv(step(s, op)),
{
    let post = step(s, op);
    match op {
        RegistryOp::Mint { metadata, badge_class } => {
            if mint_outcome(s, metadata, badge_class) is Ok {
                let n = s.items.len() as int;
                assert forall|i: int, j: int|
                    0 <= i < post.items.len() && 0 <= j < post.items.len() && i != j
                        implies post.items[i].id != post.items[j].id by {
                    if i == n || j == n {
                        let k = if i == n { j } else { i };
                        if post.items[k].id == id_of(metadata[10]) {
                            assert(s.items[k].id == id_of(metadata[10]));
                            assert(has_item(s.items, id_of(metadata[10])));
                        }
                    }
                }
            }
        },
        RegistryOp::UpdateField { .. } => {
            assert forall|i: int, j: int|
                0 <= i < post.items.len() && 0 <= j < post.items.len() && i != j
                    implies post.items[i].id != post.items[j].id by {
                assert(post.items[i].id == s.items[i].id);
                assert(post.items[j].id == s.items[j].id);
            }
        },
        RegistryOp::LockMint { .. } => {},
    }
}

/// Identities stay unique across every sequence of operations.
pub proof fn lemma_run_preserves_inv(s: RegistryView, ops: Seq<RegistryOp>)
    requires
        registry_inv(s),
    ensures
        registry_inv(run(s, ops)),
    decreases ops.len(),
{
    if ops.len() > 0 {
        lemma_step_preserves_inv(s, ops[0]);
        lemma_run_preserves_inv(step(s, ops[0]), ops.drop_first());
    }
}

/// Locking with a badge of the authority's class succeeds and clears the
/// mintable flag.
pub proof fn lemma_lock_clears_mintable(s: RegistryView, badge_class: u64)
    requires
        badge_class == s.authority_class,
    ensures
        lock_outcome(s, badge_class) == Ok::<(), MintError>(()),
        !lock_step(s, badge_class).mintable,
{
}

/// Monotonic lock: once minting is locked, it stays locked across every
/// later sequence of operations; every later mint fails — with
/// `MintingLocked` when the badge is of the authority's class, and with
/// `Unauthorized` on any other badge — and leaves the registry unchanged.
pub proof fn lemma_monotonic_lock(
    s: RegistryView,
    ops: Seq<RegistryOp>,
    md: Seq<Seq<char>>,
    badge_class: u64,
)
    requires
        !s.mintable,
    ensures
        !run(s, ops).mintable,
        badge_class == s.authority_class ==> mint_outcome(run(s, ops), md, badge_class) == Err::<
            ItemView,
            MintError,
        >(MintError::MintingLocked),
        badge_class != s.authority_class ==> mint_outcome(run(s, ops), md, badge_class) == Err::<
            ItemView,
            MintError,
        >(MintError::Unauthorized),
        mint_step(run(s, ops), md, badge_class) == run(s, ops),
{
    lemma_run_frame(s, ops);
}

/// Distinct sequence numbers always derive distinct identities.
pub proof fn lemma_distinct_ids(s1: Seq<char>, s2: Seq<char>)
    requires
        s1 != s2,
    ensures
        id_of(s1) != id_of(s2),
{
    if id_of(s1) == id_of(s2) {
        let p = "Rippy_"@;
        assert((p + s1).len() == p.len() + s1.len());
        assert((p + s2).len() == p.len() + s2.len());
        assert(s1.len() == s2.len());
        assert forall|i: int| 0 <= i < s1.len() implies s1[i] == s2[i] by {
            assert((p + s1)[p.len() + i] == s1[i]);
            assert((p + s2)[p.len() + i] == s2[i]);
        }
        assert(s1 =~= s2);
    }
}

/// A mint with an already used sequence number fails with
/// `DuplicateIdentity`, and the failed call changes nothing.
pub proof fn lemma_duplicate_sequence_rejected(
    s: RegistryView,
    md1: Seq<Seq<char>>,
    md2: Seq<Seq<char>>,
    c1: u64,
    c2: u64,
)
    requires
        mint_outcome(s, md1, c1) is Ok,
        md2.len() == METADATA_FIELDS,
        md2[10] == md1[10],
        c2 == s.authority_class,
    ensures
        mint_outcome(mint_step(s, md1, c1), md2, c2) == Err::<ItemView, MintError>(
            MintError::DuplicateIdentity,
        ),
        mint_step(mint_step(s, md1, c1), md2, c2) == mint_step(s, md1, c1),
{
    let s1 = mint_step(s, md1, c1);
    let n = s.items.len() as int;
    assert(s1.items[n].id == id_of(md2[10]));
    assert(has_item(s1.items, id_of(md2[10])));
}

/// Field immutability: no operation ever changes any already minted field
/// other than the key image URL, and the key image URL changes only when an
/// authorized field update addresses exactly that record.
pub proof fn lemma_fields_immutable(s: RegistryView, op: RegistryOp, i: int)
    requires
        0 <= i < s.items.len(),
    ensures
        s.items.len() <= step(s, op).items.len(),
        step(s, op).items[i].id == s.items[i].id,
        step(s, op).items[i].name == s.items[i].name,
        step(s, op).items[i].description == s.items[i].description,
        step(s, op).items[i].attributes == s.items[i].attributes,
        step(s, op).items[i].background == s.items[i].background,
        step(s, op).items[i].body == s.items[i].body,
        step(s, op).items[i].brow == s.items[i].brow,
        step(s, op).items[i].ear == s.items[i].ear,
        step(s, op).items[i].eyes == s.items[i].eyes,
        step(s, op).items[i].ground == s.items[i].ground,
        step(s, op).items[i].tail == s.items[i].tail,
        step(s, op).items[i].rank == s.items[i].rank,
        step(s, op).items[i].ipfs == s.items[i].ipfs,
        (match op {
            RegistryOp::UpdateField { id, new_url, badge_class } => step(s, op).items[i].key_image_url
                == (if badge_class == s.authority_class && has_item(s.items, id) && s.items[i].id
                    == id {
                    new_url
                } else {
                    s.items[i].key_image_url
                }),
            _ => step(s, op).items[i].key_image_url == s.items[i].key_image_url,
        }),
{
}

/// Unauthorized rejection: a badge of any class other than the authority's
/// makes every operation fail with `Unauthorized` and leaves the registry
/// exactly as it was.
pub proof fn lemma_unauthorized_rejected(s: RegistryView, op: RegistryOp)
    requires
        badge_of(op) != s.authority_class,
    ensures
        step(s, op) == s,
        (match op {
            RegistryOp::Mint { metadata, badge_class } => mint_outcome(s, metadata, badge_class)
                == Err::<ItemView, MintError>(MintError::Unauthorized),
            RegistryOp::UpdateField { id, new_url, badge_class } => update_outcome(
                s,
                id,
                new_url,
                badge_class,
            ) == Err::<(), MintError>(MintError::Unauthorized),
            RegistryOp::LockMint { badge_class } => lock_outcome(s, badge_class) == Err::<
                (),
                MintError,
            >(MintError::Unauthorized),
        }),
{
}

} // verus!
