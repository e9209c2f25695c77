//! Collectible records and their mathematical value.

use vstd::prelude::*;

verus! {

/// The mathematical value of one collectible record: every string field as
/// a sequence of characters, and the attribute mapping as a sequence of
/// key/value pairs in its fixed order.
#[verifier::ext_equal]
pub ghost struct ItemView {
    pub id: Seq<char>,
    pub name: Seq<char>,
    pub description: Seq<char>,
    pub key_image_url: Seq<char>,
    pub attributes: Seq<(Seq<char>, Seq<char>)>,
    pub background: Seq<char>,
    pub body: Seq<char>,
    pub brow: Seq<char>,
    pub ear: Seq<char>,
    pub eyes: Seq<char>,
    pub ground: Seq<char>,
    pub tail: Seq<char>,
    pub rank: Seq<char>,
    pub ipfs: Seq<char>,
}

/// The value of a sequence of string pairs.
pub open spec fn pairs_view(pairs: Seq<(String, String)>) -> Seq<(Seq<char>, Seq<char>)> {
    pairs.map_values(|p: (String, String)| (p.0@, p.1@))
}

/// One collectible record.
///
/// Every field but `key_image_url` is immutable once the record is minted.
/// The individual trait fields deliberately duplicate the entries of the
/// attribute mapping: both forms are filled from the same input at creation
/// time so that external viewers can read either, and neither is ever
/// recomputed from the other.
pub struct CollectibleItem {
    /// The unique identity key, derived from the caller-supplied sequence
    /// number.
    pub id: String,
    /// The display name, `"#"` followed by the sequence number.
    pub name: String,
    /// The fixed description shared by the whole collection.
    pub description: String,
    /// The one mutable field: where the key image is currently served from.
    pub key_image_url: String,
    /// The eight fixed traits as a key/value mapping, in fixed order.
    pub attributes: Vec<(String, String)>,
    pub background: String,
    pub body: String,
    pub brow: String,
    pub ear: String,
    pub eyes: String,
    pub ground: String,
    pub tail: String,
    pub rank: String,
    /// An opaque reference into external storage.
    pub ipfs: String,
}

impl View for CollectibleItem {
    type V = ItemView;

    open spec fn view(&self) -> ItemView {
        ItemView {
            id: self.id@,
            name: self.name@,
            description: self.description@,
            key_image_url: self.key_image_url@,
            attributes: pairs_view(self.attributes@),
            background: self.background@,
            body: self.body@,
            brow: self.brow@,
            ear: self.ear@,
            eyes: self.eyes@,
            ground: self.ground@,
            tail: self.tail@,
            rank: self.rank@,
            ipfs: self.ipfs@,
        }
    }
}

impl Clone for CollectibleItem {
    /// A clone carries the same mathematical value as the original record.
    fn clone(&self) -> (r: Self)
        ensures
            r@ == self@,
    {
        let r = CollectibleItem {
            id: self.id.clone(),
            name: self.name.clone(),
            description: self.description.clone(),
            key_image_url: self.key_image_url.clone(),
            attributes: clone_pairs(&self.attributes),
            background: self.background.clone(),
            body: self.body.clone(),
            brow: self.brow.clone(),
            ear: self.ear.clone(),
            eyes: self.eyes.clone(),
            ground: self.ground.clone(),
            tail: self.tail.clone(),
            rank: self.rank.clone(),
            ipfs: self.ipfs.clone(),
        };
        proof {
            assert(r@ =~~= self@);
        }
        r
    }
}

/// Copies a vector of string pairs pair by pair.
fn clone_pairs(pairs: &Vec<(String, String)>) -> (r: Vec<(String, String)>)
    ensures
        r@ == pairs@,
{
    let mut r: Vec<(String, String)> = Vec::new();
    let mut i: usize = 0;
    while i < pairs.len()
        invariant
            i <= pairs@.len(),
            r@ =~= pairs@.subrange(0, i as int),
        decreases pairs@.len() - i,
    {
        let p = &pairs[i];
        r.push((p.0.clone(), p.1.clone()));
        i = i + 1;
    }
    proof {
        assert(r@ =~= pairs@);
    }
    r
}

} // verus!
