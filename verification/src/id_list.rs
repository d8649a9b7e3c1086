//! Lists of listing ids, kept in the host's own vectors.
//!
//! The marketplace stores its id lists as `soroban_sdk::Vec<u64>`. A host vector
//! is a handle to an immutable object of the host: an operation that changes it
//! makes a new object. Its items carry no static type, so an item of a
//! `Vec<u64>` that came from outside need not be a `u64`. [`IdList`] is such a
//! vector in which every item is one.
//!
//! The host meters what it does and aborts a call that uses up its budget, as it
//! aborts one that runs out of memory; the contracts below are about calls that
//! stay within it.
use vstd::prelude::*;

verus! {

/// The execution environment of a contract, which host vectors are made in.
#[verifier::external_type_specification]
#[verifier::external_body]
pub struct ExEnv(soroban_sdk::Env);

/// The host's vectors.
#[verifier::external_type_specification]
#[verifier::external_body]
#[verifier::reject_recursive_types(T)]
pub struct ExVec<T>(soroban_sdk::Vec<T>);

/// What a host vector holds, position by position: the number where the item is
/// a `u64`, `None` where it is something else.
pub uninterp spec fn vec_items(v: soroban_sdk::Vec<u64>) -> Seq<Option<u64>>;

/// Calls `soroban_sdk::Vec::new`, which makes a vector without items.
#[verifier::external_body]
fn vec_new(env: &soroban_sdk::Env) -> (v: soroban_sdk::Vec<u64>)
    ensures
        vec_items(v) == Seq::<Option<u64>>::empty(),
{
    soroban_sdk::Vec::new(env)
}

/// Calls `soroban_sdk::Vec::clone`, which gives a second handle to the same host
/// object: it holds the same items.
#[verifier::external_body]
fn vec_clone(v: &soroban_sdk::Vec<u64>) -> (copy: soroban_sdk::Vec<u64>)
    ensures
        vec_items(copy) == vec_items(*v),
{
    v.clone()
}

/// Calls `soroban_sdk::Vec::len`, which gives the number of items. The host
/// keeps no vector whose length exceeds a `u32`.
#[verifier::external_body]
fn vec_len(v: &soroban_sdk::Vec<u64>) -> (n: u32)
    ensures
        n == vec_items(*v).len(),
{
    v.len()
}

/// Calls `soroban_sdk::Vec::try_get`, which reads the item at a position: it
/// fails exactly where the item is not a `u64`.
#[verifier::external_body]
fn vec_get(v: &soroban_sdk::Vec<u64>, i: u32) -> (item: Option<u64>)
    requires
        i < vec_items(*v).len(),
    ensures
        item == vec_items(*v)[i as int],
{
    v.try_get(i).ok().flatten()
}

/// Calls `soroban_sdk::Vec::push_back`, which adds a number behind the last item
/// and leaves the items before it as they were. The host refuses to make a
/// vector whose length exceeds a `u32`.
#[verifier::external_body]
fn vec_push_back(v: &mut soroban_sdk::Vec<u64>, x: u64)
    requires
        vec_items(*old(v)).len() < u32::MAX,
    ensures
        vec_items(*final(v)) == vec_items(*old(v)).push(Some(x)),
{
    v.push_back(x)
}

/// A list of listing ids in a host vector.
pub struct IdList {
    items: soroban_sdk::Vec<u64>,
}

impl IdList {
    /// The ids in the list.
    pub closed spec fn view(&self) -> Seq<u64> {
        Seq::new(vec_items(self.items).len(), |i: int| vec_items(self.items)[i]->0)
    }

    #[verifier::type_invariant]
    spec fn all_ids(self) -> bool {
        forall|i: int|
            0 <= i < vec_items(self.items).len() ==> (#[trigger] vec_items(self.items)[i]) is Some
    }

    /// The empty list.
    pub fn new(env: &soroban_sdk::Env) -> (list: IdList)
        ensures
            list@ == Seq::<u64>::empty(),
    {
        let list = IdList { items: vec_new(env) };
        assert(list@ =~= Seq::<u64>::empty());
        list
    }

    /// The list that a host vector holds, or `None` if not every item of the
    /// vector is a `u64`.
    pub fn from_vec(items: soroban_sdk::Vec<u64>) -> (list: Option<IdList>)
        ensures
            list is Some <==> (forall|i: int|
                0 <= i < vec_items(items).len() ==> (#[trigger] vec_items(items)[i]) is Some),
            list matches Some(l) ==> vec_items(items) == l@.map_values(|id: u64| Some(id)),
    {
        let n: u32 = vec_len(&items);
        let mut i: u32 = 0;
        while i < n
            invariant
                i <= n,
                n == vec_items(items).len(),
                forall|j: int| 0 <= j < i ==> (#[trigger] vec_items(items)[j]) is Some,
            decreases n - i,
        {
            if vec_get(&items, i).is_none() {
                return None;
            }
            i = i + 1;
        }
        let list = IdList { items };
        assert(vec_items(items) =~= list@.map_values(|id: u64| Some(id)));
        Some(list)
    }

    /// The host vector that holds the list.
    pub fn as_vec(&self) -> (items: &soroban_sdk::Vec<u64>)
        ensures
            vec_items(*items) == self@.map_values(|id: u64| Some(id)),
    {
        proof {
            use_type_invariant(self);
        }
        assert(vec_items(self.items) =~= self@.map_values(|id: u64| Some(id)));
        &self.items
    }

    /// The number of ids.
    pub fn len(&self) -> (n: u32)
        ensures
            n == self@.len(),
    {
        vec_len(&self.items)
    }

    /// The id at a position.
    pub fn get(&self, i: u32) -> (id: u64)
        requires
            i < self@.len(),
        ensures
            id == self@[i as int],
    {
        proof {
            use_type_invariant(self);
        }
        vec_get(&self.items, i).unwrap()
    }

    /// The list with one more id at its end.
    pub fn with(&self, id: u64) -> (longer: IdList)
        requires
            self@.len() < u32::MAX,
        ensures
            longer@ == self@.push(id),
    {
        proof {
            use_type_invariant(self);
        }
        let mut items = vec_clone(&self.items);
        vec_push_back(&mut items, id);
        let longer = IdList { items };
        assert(longer@ =~= self@.push(id));
        longer
    }
}

impl Clone for IdList {
    fn clone(&self) -> (copy: IdList)
        ensures
            copy@ == self@,
    {
        proof {
            use_type_invariant(self);
        }
        let copy = IdList { items: vec_clone(&self.items) };
        assert(copy@ =~= self@);
        copy
    }
}

} // verus!
