use vstd::prelude::*;
use slotmap::{DefaultKey, SlotMap};
use crate::consts::MAX_DT;
use crate::entity::Entity;

verus! {

#[verifier::external_type_specification]
#[verifier::external_body]
pub struct ExDefaultKey(DefaultKey);

/// The slot map that holds the entities; Verus sees only its contents,
/// through `entities_of`.
#[verifier::external_body]
pub struct Slots {
    map: SlotMap<DefaultKey, Entity>,
}

/// The live entities of a slot map, by key.
pub uninterp spec fn entities_of(m: Slots) -> Map<DefaultKey, Entity>;

/// Relies on slotmap's `SlotMap::new`: a map with no entries.
#[verifier::external_body]
fn slots_new() -> (r: Slots)
    ensures
        entities_of(r) =~= (Map::<DefaultKey, Entity>::empty()),
{
    Slots { map: SlotMap::new() }
}

/// Relies on slotmap's `SlotMap::insert`: the value is stored under a key
/// that no live entry has. It panics only when the map holds `u32::MAX - 1`
/// entries with no free slot.
#[verifier::external_body]
fn slots_insert(m: &mut Slots, e: Entity) -> (k: DefaultKey)
    requires
        entities_of(*old(m)).dom().finite(),
        entities_of(*old(m)).len() < 0xffff_fffe,
    ensures
        !entities_of(*old(m)).contains_key(k),
        entities_of(*final(m)) == entities_of(*old(m)).insert(k, e),
{
    m.map.insert(e)
}

/// Relies on slotmap's `SlotMap::get`: the entry of a live key, and
/// nothing for any other key.
#[verifier::external_body]
fn slots_get(m: &Slots, k: DefaultKey) -> (r: Option<Entity>)
    ensures
        r == (if entities_of(*m).contains_key(k) {
            Some(entities_of(*m)[k])
        } else {
            None::<Entity>
        }),
{
    m.map.get(k).copied()
}

/// Relies on slotmap's `SlotMap::get_mut`: a reference to the entry of a
/// live key, and nothing for any other key.
#[verifier::external_body]
fn slots_set(m: &mut Slots, k: DefaultKey, e: Entity) -> (r: bool)
    ensures
        r == entities_of(*old(m)).contains_key(k),
        entities_of(*final(m)) == (if r {
            entities_of(*old(m)).insert(k, e)
        } else {
            entities_of(*old(m))
        }),
{
    match m.map.get_mut(k) {
        Some(v) => {
            *v = e;
            true
        },
        None => false,
    }
}

/// Relies on slotmap's `SlotMap::retain`: each live entry is handed once
/// to the closure, which here calls `Entity::tick`, and is removed when the
/// closure returns false.
#[verifier::external_body]
fn slots_retain_ticked(m: &mut Slots, dt: u64)
    requires
        forall|k: DefaultKey| #[trigger]
            entities_of(*old(m)).contains_key(k) ==> entities_of(*old(m))[k].wf(),
        dt <= MAX_DT,
    ensures
        entities_of(*final(m)) == Map::new(
            |k: DefaultKey|
                entities_of(*old(m)).contains_key(k) && entities_of(*old(m))[k].ticked(
                    dt as int,
                ).survives(),
            |k: DefaultKey| entities_of(*old(m))[k].ticked(dt as int),
        ),
{
    m.map.retain(|_, e| e.tick(dt))
}

/// Relies on slotmap's `SlotMap::len`: the number of live entries.
#[verifier::external_body]
fn slots_len(m: &Slots) -> (r: usize)
    ensures
        r == entities_of(*m).len(),
{
    m.map.len()
}

/// Relies on slotmap's `SlotMap::keys`: every live key, once each.
#[verifier::external_body]
fn slots_keys(m: &Slots) -> (r: Vec<DefaultKey>)
    ensures
        r@.no_duplicates(),
        forall|i: int| 0 <= i < r@.len() ==> entities_of(*m).contains_key(#[trigger] r@[i]),
        forall|k: DefaultKey| entities_of(*m).contains_key(k) ==> #[trigger] r@.contains(k),
{
    m.map.keys().collect()
}

/// An identity-stable collection of entities: each is reached through the
/// key that `insert` handed out, until it is removed.
pub struct EntityStore {
    slots: Slots,
}

impl EntityStore {
    pub closed spec fn view(&self) -> Map<DefaultKey, Entity> {
        entities_of(self.slots)
    }

    /// Finitely many entries, each within the bounds of `Entity::wf`.
    pub open spec fn wf(&self) -> bool {
        &&& self@.dom().finite()
        &&& forall|k: DefaultKey| #[trigger] self@.contains_key(k) ==> self@[k].wf()
    }

    pub fn new() -> (r: EntityStore)
        ensures
            r@ == Map::<DefaultKey, Entity>::empty(),
            r.wf(),
    {
        EntityStore { slots: slots_new() }
    }

    /// Stores `e` under a fresh key and returns that key.
    pub fn insert(&mut self, e: Entity) -> (k: DefaultKey)
        requires
            old(self).wf(),
            old(self)@.len() < 0xffff_fffe,
            e.wf(),
        ensures
            !old(self)@.contains_key(k),
            final(self)@ == old(self)@.insert(k, e),
            final(self).wf(),
    {
        slots_insert(&mut self.slots, e)
    }

    /// The entity under `k`, if `k` is live.
    pub fn get(&self, k: DefaultKey) -> (r: Option<Entity>)
        ensures
            r == (if self@.contains_key(k) {
                Some(self@[k])
            } else {
                None::<Entity>
            }),
    {
        slots_get(&self.slots, k)
    }

    /// Replaces the entity under `k`, if `k` is live; tells whether it was.
    pub fn set(&mut self, k: DefaultKey, e: Entity) -> (r: bool)
        requires
            old(self).wf(),
            e.wf(),
        ensures
            r == old(self)@.contains_key(k),
            final(self)@ == (if r {
                old(self)@.insert(k, e)
            } else {
                old(self)@
            }),
            final(self).wf(),
    {
        slots_set(&mut self.slots, k, e)
    }

    pub fn len(&self) -> (r: usize)
        ensures
            r == self@.len(),
    {
        slots_len(&self.slots)
    }

    /// Every live key, once each, in no particular order.
    pub fn keys(&self) -> (r: Vec<DefaultKey>)
        ensures
            r@.no_duplicates(),
            r@.to_set() == self@.dom(),
    {
        let r = slots_keys(&self.slots);
        assert(r@.to_set() =~= self@.dom());
        r
    }

    /// One pass over every live entity: each is ticked by `dt` milli-steps,
    /// then kept only if it survives.
    pub fn tick_all(&mut self, dt: u64)
        requires
            old(self).wf(),
            dt <= MAX_DT,
        ensures
            final(self)@ == retained(old(self)@, dt as int),
            final(self).wf(),
    {
        slots_retain_ticked(&mut self.slots, dt);
        proof {
            let m = retained(old(self)@, dt as int);
            assert(self@ =~= m);
            assert(m.dom().subset_of(old(self)@.dom()));
            vstd::set_lib::lemma_len_subset(m.dom(), old(self)@.dom());
            assert forall|k: DefaultKey| #[trigger] self@.contains_key(k) implies self@[k].wf() by {
                let e = old(self)@[k];
                assert(e.wf());
            }
        }
    }
}

/// What a store holding `m` holds after one tick pass of `dt` milli-steps.
pub open spec fn retained(m: Map<DefaultKey, Entity>, dt: int) -> Map<DefaultKey, Entity> {
    Map::new(
        |k: DefaultKey| m.contains_key(k) && m[k].ticked(dt).survives(),
        |k: DefaultKey| m[k].ticked(dt),
    )
}

/// A tick pass removes exactly the entities that do not survive their tick
/// and keeps all the others: the keys left and the keys removed split the
/// keys held before. The store is a map, so the order in which its entities
/// were inserted plays no part.
pub proof fn lemma_tick_pass_complement(m: Map<DefaultKey, Entity>, dt: int)
    ensures
        retained(m, dt).dom() == m.dom().filter(|k: DefaultKey| m[k].ticked(dt).survives()),
        retained(m, dt).dom().disjoint(
            m.dom().filter(|k: DefaultKey| !m[k].ticked(dt).survives()),
        ),
        retained(m, dt).dom() + m.dom().filter(|k: DefaultKey| !m[k].ticked(dt).survives())
            == m.dom(),
        forall|k: DefaultKey| #[trigger]
            retained(m, dt).contains_key(k) ==> retained(m, dt)[k] == m[k].ticked(dt),
{
    let kept = m.dom().filter(|k: DefaultKey| m[k].ticked(dt).survives());
    let gone = m.dom().filter(|k: DefaultKey| !m[k].ticked(dt).survives());
    assert(retained(m, dt).dom() =~= kept);
    assert(kept + gone =~= m.dom());
}

} // verus!
