//! The render cache: rendered markup, remembered by key.
//!
//! The cache decides nothing. Whether a rendering may be remembered at all
//! is for the read path to say; the cache keeps what it is given and hands
//! it back.

use crate::highlight::Html;
use crate::key::{Key, KeyView};
use vstd::prelude::*;

verus! {

struct Slot {
    key: Key,
    html: Html,
}

/// A map from keys to rendered markup.
pub struct RenderCache {
    slots: Vec<Slot>,
}

/// Whether slot `i` of `slots` is kept under `key`.
spec fn holds_at(slots: Seq<Slot>, key: KeyView, i: int) -> bool {
    0 <= i < slots.len() && slots[i].key@ == key
}

/// No key has two slots.
spec fn distinct(slots: Seq<Slot>) -> bool {
    forall|i: int, j: int|
        0 <= i < j < slots.len() ==> (#[trigger] slots[i]).key@ != (#[trigger] slots[j]).key@
}

/// The map that a sequence of slots stands for.
spec fn as_map(slots: Seq<Slot>) -> Map<KeyView, Seq<char>> {
    Map::new(
        |key: KeyView| exists|i: int| holds_at(slots, key, i),
        |key: KeyView| slots[choose|i: int| holds_at(slots, key, i)].html@,
    )
}

/// A key is in the map exactly when some slot holds it, and its markup is
/// that slot's.
proof fn lemma_slot_found(slots: Seq<Slot>, i: int)
    requires
        distinct(slots),
        0 <= i < slots.len(),
    ensures
        as_map(slots).contains_key(slots[i].key@),
        as_map(slots)[slots[i].key@] == slots[i].html@,
{
    assert(holds_at(slots, slots[i].key@, i));
}

/// A key that no slot holds is not in the map.
proof fn lemma_slot_missing(slots: Seq<Slot>, key: KeyView)
    requires
        forall|i: int| 0 <= i < slots.len() ==> (#[trigger] slots[i]).key@ != key,
    ensures
        !as_map(slots).contains_key(key),
{
}

/// A new slot under a key that no slot holds adds one entry to the map.
proof fn lemma_slot_added(slots: Seq<Slot>, slot: Slot)
    requires
        distinct(slots),
        forall|i: int| 0 <= i < slots.len() ==> (#[trigger] slots[i]).key@ != slot.key@,
    ensures
        distinct(slots.push(slot)),
        as_map(slots.push(slot)) == as_map(slots).insert(slot.key@, slot.html@),
{
    let grown = slots.push(slot);
    assert forall|key: KeyView| as_map(grown).contains_key(key) == as_map(slots).insert(
        slot.key@,
        slot.html@,
    ).contains_key(key) by {
        if key == slot.key@ {
            assert(holds_at(grown, key, slots.len() as int));
        } else if as_map(slots).contains_key(key) {
            let i = choose|i: int| holds_at(slots, key, i);
            assert(holds_at(grown, key, i));
        } else if as_map(grown).contains_key(key) {
            let i = choose|i: int| holds_at(grown, key, i);
            assert(holds_at(slots, key, i));
        }
    }
    assert forall|key: KeyView| as_map(grown).contains_key(key) implies as_map(grown)[key]
        == as_map(slots).insert(slot.key@, slot.html@)[key] by {
        let i = choose|i: int| holds_at(grown, key, i);
        lemma_slot_found(grown, i);
        if i < slots.len() {
            lemma_slot_found(slots, i);
        }
    }
}

/// New markup in the slot of a key overwrites that key's entry in the map.
proof fn lemma_slot_replaced(slots: Seq<Slot>, at: int, slot: Slot)
    requires
        distinct(slots),
        0 <= at < slots.len(),
        slots[at].key@ == slot.key@,
    ensures
        distinct(slots.update(at, slot)),
        as_map(slots.update(at, slot)) == as_map(slots).insert(slot.key@, slot.html@),
{
    let changed = slots.update(at, slot);
    assert forall|key: KeyView| as_map(changed).contains_key(key) == as_map(slots).insert(
        slot.key@,
        slot.html@,
    ).contains_key(key) by {
        if key == slot.key@ {
            assert(holds_at(changed, key, at));
        } else if as_map(slots).contains_key(key) {
            let i = choose|i: int| holds_at(slots, key, i);
            assert(holds_at(changed, key, i));
        } else if as_map(changed).contains_key(key) {
            let i = choose|i: int| holds_at(changed, key, i);
            assert(holds_at(slots, key, i));
        }
    }
    assert forall|key: KeyView| as_map(changed).contains_key(key) implies as_map(changed)[key]
        == as_map(slots).insert(slot.key@, slot.html@)[key] by {
        let i = choose|i: int| holds_at(changed, key, i);
        lemma_slot_found(changed, i);
        if i != at {
            lemma_slot_found(slots, i);
        }
    }
}

impl View for RenderCache {
    type V = Map<KeyView, Seq<char>>;

    closed spec fn view(&self) -> Map<KeyView, Seq<char>> {
        as_map(self.slots@)
    }
}

impl RenderCache {
    #[verifier::type_invariant]
    spec fn well_formed(&self) -> bool {
        distinct(self.slots@)
    }

    /// An empty cache.
    pub fn new() -> (cache: RenderCache)
        ensures
            cache@ == Map::<KeyView, Seq<char>>::empty(),
    {
        RenderCache { slots: Vec::new() }
    }

    /// The slot that holds `key`, if one does.
    fn find(&self, key: &Key) -> (at: Option<usize>)
        ensures
            match at {
                Some(i) => holds_at(self.slots@, key@, i as int),
                None => forall|i: int|
                    0 <= i < self.slots@.len() ==> (#[trigger] self.slots@[i]).key@ != key@,
            },
    {
        let mut i: usize = 0;
        while i < self.slots.len()
            invariant
                i <= self.slots@.len(),
                forall|j: int| 0 <= j < i ==> (#[trigger] self.slots@[j]).key@ != key@,
            decreases self.slots@.len() - i,
        {
            if self.slots[i].key.same(key) {
                return Some(i);
            }
            i += 1;
        }
        None
    }

    /// The markup remembered for `key`. That none is remembered is no error.
    pub fn get(&self, key: &Key) -> (found: Option<Html>)
        ensures
            match found {
                Some(html) => self@.contains_key(key@) && self@[key@] == html@,
                None => !self@.contains_key(key@),
            },
    {
        proof {
            use_type_invariant(self);
        }
        match self.find(key) {
            Some(i) => {
                proof {
                    lemma_slot_found(self.slots@, i as int);
                }
                Some(self.slots[i].html.clone())
            },
            None => {
                proof {
                    lemma_slot_missing(self.slots@, key@);
                }
                None
            },
        }
    }

    /// Remembers `html` for `key`, in place of what was remembered before.
    pub fn put(&mut self, key: Key, html: Html)
        ensures
            final(self)@ == old(self)@.insert(key@, html@),
    {
        proof {
            use_type_invariant(&*self);
        }
        let at = self.find(&key);
        let slot = Slot { key, html };
        let mut slots = Vec::new();
        std::mem::swap(&mut slots, &mut self.slots);
        match at {
            Some(i) => {
                proof {
                    lemma_slot_replaced(slots@, i as int, slot);
                }
                slots.set(i, slot);
            },
            None => {
                proof {
                    lemma_slot_added(slots@, slot);
                }
                slots.push(slot);
            },
        }
        self.slots = slots;
    }
}

} // verus!
