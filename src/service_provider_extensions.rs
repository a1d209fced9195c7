use vstd::prelude::*;
use std::any::Any;
use std::any::TypeId;
use ahash::AHashMap;

verus! {

#[verifier::external_type_specification]
#[verifier::external_body]
pub struct ExTypeId(std::any::TypeId);

#[verifier::external_type_specification]
#[verifier::external_body]
pub struct ExRandomState(ahash::RandomState);

#[verifier::external_type_specification]
#[verifier::external_body]
#[verifier::reject_recursive_types(K)]
#[verifier::reject_recursive_types(V)]
#[verifier::reject_recursive_types(S)]
pub struct ExAHashMap<K, V, S>(ahash::AHashMap<K, V, S>);

/// The runtime identity of a type. Nothing is stated of it: its value is
/// fixed by the compiler, and one type's identity is never compared across
/// processes.
pub assume_specification<T: ?Sized + 'static>[ std::any::TypeId::of::<T> ]() -> std::any::TypeId;

/// One owned, thread-safe value whose type has been erased.
///
/// The value keeps its runtime type information, so it can only be recovered
/// as the exact type it was stored as: any other type is refused rather than
/// reinterpreted.
#[verifier::external_body]
pub struct Slot {
    value: Box<dyn Any + Send + Sync>,
}

/// The type identities that hold a slot in the map.
pub uninterp spec fn registered_types(m: AHashMap<TypeId, Slot>) -> Set<TypeId>;

/// Relies on `AHashMap::new`: a new map holds no entry.
#[verifier::external_body]
fn empty_slots() -> (r: AHashMap<TypeId, Slot>)
    ensures
        registered_types(r) == Set::<TypeId>::empty(),
{
    AHashMap::new()
}

/// Relies on `AHashMap::insert`: the key is present afterwards, no other key
/// changes, and the previous value is handed back exactly when the key was
/// already present.
#[verifier::external_body]
fn slots_insert(m: &mut AHashMap<TypeId, Slot>, k: TypeId, v: Slot) -> (r: Option<Slot>)
    ensures
        registered_types(*final(m)) == registered_types(*old(m)).insert(k),
        r.is_some() == registered_types(*old(m)).contains(k),
{
    m.insert(k, v)
}

/// Relies on `AHashMap::get`: a value is found exactly when the key is present.
#[verifier::external_body]
fn slots_get<'a>(m: &'a AHashMap<TypeId, Slot>, k: &TypeId) -> (r: Option<&'a Slot>)
    ensures
        r.is_some() == registered_types(*m).contains(*k),
{
    m.get(k)
}

/// A finite set with `n` elements.
pub open spec fn finite_with_len(s: Set<TypeId>, n: nat) -> bool {
    s.finite() && s.len() == n
}

/// A finite set, which is empty exactly when `empty` holds.
pub open spec fn finite_with_emptiness(s: Set<TypeId>, empty: bool) -> bool {
    s.finite() && empty == (s == Set::<TypeId>::empty())
}

/// Relies on `HashMap::len`, which `AHashMap` derefs to: the number of keys,
/// of which a map holds finitely many.
#[verifier::external_body]
fn slots_len(m: &AHashMap<TypeId, Slot>) -> (r: usize)
    ensures
        finite_with_len(registered_types(*m), r as nat),
{
    m.len()
}

/// Relies on `HashMap::is_empty`, which `AHashMap` derefs to: whether no key
/// is present, of which a map holds finitely many.
#[verifier::external_body]
fn slots_is_empty(m: &AHashMap<TypeId, Slot>) -> (r: bool)
    ensures
        finite_with_emptiness(registered_types(*m), r),
{
    m.is_empty()
}

/// Relies on the unsizing coercion of `Box<T>` into `Box<dyn Any + Send + Sync>`,
/// which keeps `T`'s runtime type information with the value.
#[verifier::external_body]
fn erase<T: 'static + Send + Sync>(val: T) -> (r: Slot) {
    Slot { value: Box::new(val) }
}

/// Relies on `Box::<dyn Any + Send + Sync>::downcast`: the value comes back
/// only when it was stored as exactly `T`.
#[verifier::external_body]
fn downcast_box<T: 'static>(slot: Slot) -> (r: Option<Box<T>>) {
    slot.value.downcast::<T>().ok()
}

/// Relies on `<dyn Any>::downcast_ref`: a reference comes back only when the
/// value was stored as exactly `T`.
#[verifier::external_body]
fn downcast_slot_ref<'a, T: 'static>(slot: &'a Slot) -> (r: Option<&'a T>) {
    slot.value.downcast_ref::<T>()
}

/// Recovers the owned value of a slot as `T`, or `None` when the slot holds a
/// value of another type.
pub fn downcast_owned<T: 'static + Sync>(boxed: Slot) -> (r: Option<T>) {
    match downcast_box::<T>(boxed) {
        Some(b) => Some(*b),
        None => None,
    }
}

/// A type map: at most one owned, thread-safe value for each type, found by
/// the type alone.
pub struct ServiceProviderExtensions {
    map: AHashMap<TypeId, Slot>,
}

impl View for ServiceProviderExtensions {
    type V = Set<TypeId>;

    /// The identities of the types that currently hold a value.
    closed spec fn view(&self) -> Set<TypeId> {
        registered_types(self.map)
    }
}

impl ServiceProviderExtensions {
    /// An empty type map.
    pub fn new() -> (r: Self)
        ensures
            r@ == Set::<TypeId>::empty(),
    {
        ServiceProviderExtensions { map: empty_slots() }
    }

    /// Stores `val` as the value of type `T`, and returns the value that `T`
    /// held before, if any.
    ///
    /// Exactly one type identity, `T`'s, is added to the map (a type that
    /// already held a value keeps one slot), and a previous value can only
    /// come back when that identity was already present.
    ///
    /// The slot under `T`'s identity only ever holds a `T`, so the previous
    /// value always downcasts back to `T`. That invariant cannot be stated
    /// here, and a failed downcast yields `None` rather than a panic.
    pub fn insert<T: 'static + Sync + Send>(&mut self, val: T) -> (r: Option<T>)
        ensures
            exists|k: TypeId|
                #[trigger] old(self)@.insert(k) == final(self)@ && (r.is_some() ==> old(
                    self,
                )@.contains(k)),
            old(self)@.finite() ==> final(self)@.finite() && final(self)@.len() >= old(self)@.len(),
    {
        let type_id = TypeId::of::<T>();
        self.insert_type_id(type_id, val)
    }

    fn insert_type_id<T: 'static + Sync + Send>(&mut self, type_id: TypeId, val: T) -> (r: Option<
        T,
    >)
        ensures
            final(self)@ == old(self)@.insert(type_id),
            r.is_some() ==> old(self)@.contains(type_id),
    {
        let slot = erase(val);
        let previous = slots_insert(&mut self.map, type_id, slot);
        match previous {
            Some(prev) => downcast_owned(prev),
            None => None,
        }
    }

    /// A reference to the value of type `T`, or `None` when `T` holds none.
    ///
    /// A value can only be found in a map that holds at least one type.
    pub fn get<T: 'static>(&self) -> (r: Option<&T>)
        ensures
            r.is_some() ==> exists|k: TypeId| #[trigger] self@.contains(k),
    {
        let type_id = TypeId::of::<T>();
        match slots_get(&self.map, &type_id) {
            Some(slot) => {
                assert(self@.contains(type_id));
                downcast_slot_ref::<T>(slot)
            },
            None => None,
        }
    }

    /// The number of types that hold a value.
    pub fn len(&self) -> (r: usize)
        ensures
            r == self@.len(),
            self@.finite(),
    {
        slots_len(&self.map)
    }

    /// Whether no type holds a value.
    pub fn is_empty(&self) -> (r: bool)
        ensures
            r == (self@ == Set::<TypeId>::empty()),
            r == (self@.len() == 0),
            self@.finite(),
    {
        let r = slots_is_empty(&self.map);
        proof {
            vstd::set_lib::lemma_set_empty_equivalency_len(self@);
        }
        r
    }
}

/// The types that hold a value once values have been inserted under the
/// identities `keys`, in order, into a map whose types were `start`.
pub open spec fn registered_after(start: Set<TypeId>, keys: Seq<TypeId>) -> Set<TypeId>
    decreases keys.len(),
{
    if keys.len() == 0 {
        start
    } else {
        registered_after(start, keys.drop_last()).insert(keys.last())
    }
}

/// Inserting values under the identities `keys`, in order, into an empty map
/// leaves exactly the distinct identities of `keys`: the count is the number
/// of distinct types inserted, however often each of them was inserted.
pub proof fn lemma_count_is_distinct_types(keys: Seq<TypeId>)
    ensures
        registered_after(Set::empty(), keys) == keys.to_set(),
        registered_after(Set::empty(), keys).finite(),
        registered_after(Set::empty(), keys).len() == keys.to_set().len(),
    decreases keys.len(),
{
    broadcast use vstd::seq_lib::seq_to_set_is_finite;

    if keys.len() == 0 {
        assert(keys.to_set() =~= Set::<TypeId>::empty());
    } else {
        let front = keys.drop_last();
        lemma_count_is_distinct_types(front);
        assert(keys == front + seq![keys.last()]);
        Seq::lemma_to_set_insert_commutes(front, keys.last());
    }
}

/// Inserting again under an identity that already holds a value changes
/// neither the set of types nor the count.
pub proof fn lemma_reinsert_keeps_count(types: Set<TypeId>, k: TypeId)
    requires
        types.contains(k),
    ensures
        types.insert(k) == types,
        types.insert(k).len() == types.len(),
{
    assert(types.insert(k) =~= types);
}

impl Default for ServiceProviderExtensions {
    fn default() -> (r: Self)
        ensures
            r@ == Set::<TypeId>::empty(),
    {
        Self::new()
    }
}

} // verus!
