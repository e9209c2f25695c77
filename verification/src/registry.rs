//! The collection registry: the owner of the minting configuration and of
//! every issued collectible record.
//!
//! The registry's behaviour is stated against an abstract state,
//! [`RegistryView`], and pure transition functions over it (`mint_step`,
//! `update_step`, `lock_step`). Each privileged operation's contract says
//! that the registry moves exactly as the corresponding transition function
//! does and returns exactly the corresponding outcome.

use vstd::prelude::*;
use vstd::string::StringExecFns;

use crate::errors::MintError;
use crate::item::{pairs_view, CollectibleItem, ItemView};
use crate::token::{AuthorityToken, AUTHORITY_CLASS};

verus! {

/// The number of positional metadata fields a mint call must supply:
/// the eight traits, the key image URL, the external storage reference,
/// and the sequence number, in that order.
pub const METADATA_FIELDS: usize = 11;

/// The abstract state of one collection registry.
#[verifier::ext_equal]
pub ghost struct RegistryView {
    /// The resource class a presented badge must belong to. Fixed at
    /// bootstrap; no transition ever changes it.
    pub authority_class: u64,
    /// Whether new records may currently be minted. Moves to `false` at
    /// most once and never back.
    pub mintable: bool,
    /// Every record issued so far, in mint order.
    pub items: Seq<ItemView>,
}

/// The registry state bootstrap establishes: mintable, empty, gated on the
/// authority's resource class.
pub open spec fn initial_registry() -> RegistryView {
    RegistryView { authority_class: AUTHORITY_CLASS, mintable: true, items: Seq::empty() }
}

/// The identity key derived from a sequence number.
pub open spec fn id_of(seq_num: Seq<char>) -> Seq<char> {
    "Rippy_"@ + seq_num
}

/// The display name derived from a sequence number.
pub open spec fn display_name_of(seq_num: Seq<char>) -> Seq<char> {
    "#"@ + seq_num
}

/// The fixed description shared by every record of the collection.
pub open spec fn fixed_description() -> Seq<char> {
    "The Unofficial Radix Assistant"@
}

/// The eight-entry attribute mapping derived from the first eight
/// positional metadata fields, keys in fixed order.
pub open spec fn attributes_of(md: Seq<Seq<char>>) -> Seq<(Seq<char>, Seq<char>)> {
    seq![
        ("Background"@, md[0]),
        ("Body"@, md[1]),
        ("Brow"@, md[2]),
        ("Ear"@, md[3]),
        ("Eyes"@, md[4]),
        ("Ground"@, md[5]),
        ("Tail"@, md[6]),
        ("Rank"@, md[7]),
    ]
}

/// The record an eleven-field metadata sequence mints.
pub open spec fn item_of(md: Seq<Seq<char>>) -> ItemView {
    ItemView {
        id: id_of(md[10]),
        name: display_name_of(md[10]),
        description: fixed_description(),
        key_image_url: md[8],
        attributes: attributes_of(md),
        background: md[0],
        body: md[1],
        brow: md[2],
        ear: md[3],
        eyes: md[4],
        ground: md[5],
        tail: md[6],
        rank: md[7],
        ipfs: md[9],
    }
}

/// Whether some issued record carries the given identity.
pub open spec fn has_item(items: Seq<ItemView>, id: Seq<char>) -> bool {
    exists|i: int| 0 <= i < items.len() && items[i].id == id
}

/// Identities never collide across the registry.
pub open spec fn registry_inv(s: RegistryView) -> bool {
    forall|i: int, j: int|
        0 <= i < s.items.len() && 0 <= j < s.items.len() && i != j
            ==> s.items[i].id != s.items[j].id
}

/// What a mint call returns, in the order the checks are made:
/// the badge's class, then the lock, then the metadata shape, then the
/// derived identity.
pub open spec fn mint_outcome(pre: RegistryView, md: Seq<Seq<char>>, badge_class: u64) -> Result<
    ItemView,
    MintError,
> {
    if badge_class != pre.authority_class {
        Err(MintError::Unauthorized)
    } else if !pre.mintable {
        Err(MintError::MintingLocked)
    } else if md.len() != METADATA_FIELDS {
        Err(MintError::InvalidInput)
    } else if has_item(pre.items, id_of(md[10])) {
        Err(MintError::DuplicateIdentity)
    } else {
        Ok(item_of(md))
    }
}

/// How a mint call moves the registry: exactly one record is appended on
/// success, and nothing changes on any failure.
pub open spec fn mint_step(pre: RegistryView, md: Seq<Seq<char>>, badge_class: u64) -> RegistryView {
    match mint_outcome(pre, md, badge_class) {
        Ok(item) => RegistryView { items: pre.items.push(item), ..pre },
        Err(_) => pre,
    }
}

/// What an update call returns: the badge's class is checked first, then
/// the identity must already exist.
pub open spec fn update_outcome(
    pre: RegistryView,
    id: Seq<char>,
    new_url: Seq<char>,
    badge_class: u64,
) -> Result<(), MintError> {
    if badge_class != pre.authority_class {
        Err(MintError::Unauthorized)
    } else if !has_item(pre.items, id) {
        Err(MintError::NotFound)
    } else {
        Ok(())
    }
}

/// The item sequence with the key image URL of the addressed record
/// replaced; every other field of every record is untouched.
pub open spec fn updated_items(items: Seq<ItemView>, id: Seq<char>, new_url: Seq<char>) -> Seq<
    ItemView,
> {
    Seq::new(
        items.len(),
        |i: int|
            if items[i].id == id {
                ItemView { key_image_url: new_url, ..items[i] }
            } else {
                items[i]
            },
    )
}

/// How an update call moves the registry.
pub open spec fn update_step(
    pre: RegistryView,
    id: Seq<char>,
    new_url: Seq<char>,
    badge_class: u64,
) -> RegistryView {
    match update_outcome(pre, id, new_url, badge_class) {
        Ok(_) => RegistryView { items: updated_items(pre.items, id, new_url), ..pre },
        Err(_) => pre,
    }
}

/// What a lock call returns: it fails only on a foreign badge, and is
/// idempotent once the registry is already locked.
pub open spec fn lock_outcome(pre: RegistryView, badge_class: u64) -> Result<(), MintError> {
    if badge_class != pre.authority_class {
        Err(MintError::Unauthorized)
    } else {
        Ok(())
    }
}

/// How a lock call moves the registry: the mintable flag is cleared and
/// nothing else changes.
pub open spec fn lock_step(pre: RegistryView, badge_class: u64) -> RegistryView {
    match lock_outcome(pre, badge_class) {
        Ok(_) => RegistryView { mintable: false, ..pre },
        Err(_) => pre,
    }
}

/// The collection registry component.
///
/// Holds the write-once authority requirement, the one-way mintable flag,
/// and every issued record, and exposes the three privileged operations
/// plus the field update.
pub struct Bootstrap {
    authority_class: u64,
    mintable: bool,
    items: Vec<CollectibleItem>,
}

impl View for Bootstrap {
    type V = RegistryView;

    closed spec fn view(&self) -> RegistryView {
        RegistryView {
            authority_class: self.authority_class,
            mintable: self.mintable,
            items: self.items@.map_values(|it: CollectibleItem| it@),
        }
    }
}

impl Bootstrap {
    /// The registry is well formed when its issued identities are unique.
    pub open spec fn wf(&self) -> bool {
        registry_inv(self@)
    }

    /// Creates the registry and the one administrative capability and hands
    /// both to the caller. Called exactly once, before any other operation;
    /// the authority requirement it fixes can never be changed afterwards.
    pub fn bootstrap() -> (r: (Bootstrap, AuthorityToken))
        ensures
            r.0@ == initial_registry(),
            r.0.wf(),
            r.1.is_genuine(),
            r.1.spec_name() == "Power of the Rippy"@,
    {
        let registry = Bootstrap {
            authority_class: AUTHORITY_CLASS,
            mintable: true,
            items: Vec::new(),
        };
        proof {
            assert(registry@ =~~= initial_registry());
        }
        (registry, AuthorityToken::bootstrap_token())
    }

    /// The resource class a presented badge must belong to.
    pub fn required_class(&self) -> (c: u64)
        ensures
            c == self@.authority_class,
    {
        self.authority_class
    }

    /// Whether new records may currently be minted.
    pub fn is_mintable(&self) -> (b: bool)
        ensures
            b == self@.mintable,
    {
        self.mintable
    }

    /// How many records have been issued.
    pub fn item_count(&self) -> (n: usize)
        ensures
            n == self@.items.len(),
    {
        self.items.len()
    }

    /// Looks a record up by its identity key.
    pub fn get(&self, id: &String) -> (r: Option<&CollectibleItem>)
        ensures
            (r is Some) == has_item(self@.items, id@),
            (match r {
                Some(item) => item@.id == id@ && exists|i: int|
                    0 <= i < self@.items.len() && self@.items[i] == item@,
                None => true,
            }),
    {
        match self.find_item(id) {
            Some(i) => {
                let item = &self.items[i];
                proof {
                    assert(self@.items[i as int] == item@);
                }
                Some(item)
            },
            None => None,
        }
    }

    /// The index of the record carrying the given identity, if any.
    fn find_item(&self, id: &String) -> (r: Option<usize>)
        ensures
            (match r {
                Some(i) => i < self@.items.len() && self@.items[i as int].id == id@,
                None => !has_item(self@.items, id@),
            }),
    {
        let mut i: usize = 0;
        while i < self.items.len()
            invariant
                i <= self.items@.len(),
                forall|j: int| 0 <= j < i ==> self.items@[j].id@ != id@,
            decreases self.items@.len() - i,
        {
            if self.items[i].id == *id {
                return Some(i);
            }
            i = i + 1;
        }
        proof {
            assert(forall|j: int|
                0 <= j < self@.items.len() ==> self@.items[j].id != id@);
        }
        None
    }

    /// Mints one new record from the eleven positional metadata fields.
    ///
    /// On success exactly one record — the one derived by [`item_of`] — is
    /// appended and a copy of it is returned; the badge is only presented,
    /// never consumed. Every failure leaves the registry unchanged.
    pub fn minty(&mut self, metadata: Vec<String>, badge: &AuthorityToken) -> (r: Result<
        CollectibleItem,
        MintError,
    >)
        requires
            old(self).wf(),
        ensures
            final(self).wf(),
            final(self)@ == mint_step(old(self)@, metadata.deep_view(), badge.class_id()),
            (match mint_outcome(old(self)@, metadata.deep_view(), badge.class_id()) {
                Ok(item) => r matches Ok(it) && it@ == item,
                Err(e) => r matches Err(e2) && e2 == e,
            }),
    {
        let ghost pre = self@;
        let ghost mdv = metadata.deep_view();
        if badge.class() != self.authority_class {
            return Err(MintError::Unauthorized);
        }
        if !self.mintable {
            return Err(MintError::MintingLocked);
        }
        let item = match derive_item(&metadata) {
            Err(e) => {
                return Err(e);
            },
            Ok(item) => item,
        };
        proof {
            assert(item@.id == id_of(mdv[10]));
        }
        if let Some(_hit) = self.find_item(&item.id) {
            return Err(MintError::DuplicateIdentity);
        }
        let out = item.clone();
        self.items.push(item);
        proof {
            assert(self@.items =~= pre.items.push(item_of(mdv)));
            assert(self@ =~~= mint_step(pre, mdv, badge.class_id()));
            assert forall|i: int, j: int|
                0 <= i < self@.items.len() && 0 <= j < self@.items.len() && i != j
                    implies self@.items[i].id != self@.items[j].id by {
                if i == pre.items.len() || j == pre.items.len() {
                    assert(!has_item(pre.items, id_of(mdv[10])));
                }
            }
        }
        Ok(out)
    }

    /// Replaces the key image URL of the addressed record. No other field
    /// of any record is touched, whether the call succeeds or fails.
    pub fn update_field(
        &mut self,
        id: &String,
        new_key_image_url: String,
        badge: &AuthorityToken,
    ) -> (r: Result<(), MintError>)
        requires
            old(self).wf(),
        ensures
            final(self).wf(),
            final(self)@ == update_step(old(self)@, id@, new_key_image_url@, badge.class_id()),
            r == update_outcome(old(self)@, id@, new_key_image_url@, badge.class_id()),
    {
        let ghost pre = self@;
        if badge.class() != self.authority_class {
            return Err(MintError::Unauthorized);
        }
        match self.find_item(id) {
            None => Err(MintError::NotFound),
            Some(i) => {
                let mut updated = self.items[i].clone();
                updated.key_image_url = new_key_image_url;
                let ghost uv = updated@;
                self.items[i] = updated;
                proof {
                    assert(has_item(pre.items, id@));
                    assert forall|j: int| 0 <= j < self@.items.len()
                        implies self@.items[j] == updated_items(pre.items, id@, uv.key_image_url)[j] by {
                        if j != i {
                            assert(pre.items[i as int].id == id@);
                            assert(self@.items[j] == pre.items[j]);
                        } else {
                            assert(uv =~~= ItemView { key_image_url: uv.key_image_url, ..pre.items[i as int] });
                        }
                    }
                    assert(self@.items =~= updated_items(pre.items, id@, uv.key_image_url));
                    assert(self@ =~~= update_step(pre, id@, uv.key_image_url, badge.class_id()));
                }
                Ok(())
            },
        }
    }

    /// Permanently revokes minting: a one-way transition after which every
    /// mint call fails, however valid the presented badge. Locking an
    /// already locked registry succeeds and changes nothing.
    pub fn lock_mint(&mut self, badge: &AuthorityToken) -> (r: Result<(), MintError>)
        requires
            old(self).wf(),
        ensures
            final(self).wf(),
            final(self)@ == lock_step(old(self)@, badge.class_id()),
            r == lock_outcome(old(self)@, badge.class_id()),
    {
        if badge.class() != self.authority_class {
            return Err(MintError::Unauthorized);
        }
        self.mintable = false;
        proof {
            assert(self@ =~~= lock_step(old(self)@, badge.class_id()));
        }
        Ok(())
    }
}

/// Derives the record an eleven-field metadata sequence describes, without
/// touching any registry: the identity key, the display name, the fixed
/// description, the attribute mapping and its flat trait copies. Any other
/// number of fields is rejected as malformed.
pub fn derive_item(metadata: &Vec<String>) -> (r: Result<CollectibleItem, MintError>)
    ensures
        metadata.deep_view().len() == METADATA_FIELDS ==> (r matches Ok(item) && item@ == item_of(
            metadata.deep_view(),
        )),
        metadata.deep_view().len() != METADATA_FIELDS ==> r == Err::<CollectibleItem, MintError>(
            MintError::InvalidInput,
        ),
{
    let ghost mdv = metadata.deep_view();
    if metadata.len() != METADATA_FIELDS {
        return Err(MintError::InvalidInput);
    }
    let seq_num = &metadata[10];
    let mut id = String::from_str("Rippy_");
    id.append(seq_num.as_str());
    let mut name = String::from_str("#");
    name.append(seq_num.as_str());
    let attributes = build_attributes(metadata);
    let item = CollectibleItem {
        id,
        name,
        description: String::from_str("The Unofficial Radix Assistant"),
        key_image_url: metadata[8].clone(),
        attributes,
        background: metadata[0].clone(),
        body: metadata[1].clone(),
        brow: metadata[2].clone(),
        ear: metadata[3].clone(),
        eyes: metadata[4].clone(),
        ground: metadata[5].clone(),
        tail: metadata[6].clone(),
        rank: metadata[7].clone(),
        ipfs: metadata[9].clone(),
    };
    proof {
        assert(item@ =~~= item_of(mdv));
    }
    Ok(item)
}

/// Builds the eight-entry attribute mapping from the first eight positional
/// metadata fields.
fn build_attributes(metadata: &Vec<String>) -> (r: Vec<(String, String)>)
    requires
        metadata@.len() >= 8,
    ensures
        pairs_view(r@) == attributes_of(metadata.deep_view()),
{
    let mut r: Vec<(String, String)> = Vec::new();
    r.push((String::from_str("Background"), metadata[0].clone()));
    r.push((String::from_str("Body"), metadata[1].clone()));
    r.push((String::from_str("Brow"), metadata[2].clone()));
    r.push((String::from_str("Ear"), metadata[3].clone()));
    r.push((String::from_str("Eyes"), metadata[4].clone()));
    r.push((String::from_str("Ground"), metadata[5].clone()));
    r.push((String::from_str("Tail"), metadata[6].clone()));
    r.push((String::from_str("Rank"), metadata[7].clone()));
    proof {
        assert(pairs_view(r@) =~= attributes_of(metadata.deep_view()));
    }
    r
}

} // verus!
