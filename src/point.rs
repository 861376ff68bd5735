use vstd::prelude::*;

use crate::error::SpError;

verus! {

/// A reclaimed handle stays dead: whatever objects are stored afterwards, it
/// is refused.
pub proof fn lemma_reclaimed_stays_dead<T>(slots: Seq<Option<T>>, p: Point, later: Seq<Option<T>>)
    requires
        is_live(slots, p),
    ensures
        !is_live(slots.update(p - 1, None) + later, p),
{
}

/// An integer handle to a native object, as handed to the host runtime; 0 is null.
pub type Point = usize;

/// Conversion of a handle to the host runtime's 64-bit integer.
pub trait ToJavaPoint {
    fn to_point(self) -> i64;
}

impl ToJavaPoint for Point {
    fn to_point(self) -> (r: i64)
        ensures
            r == self as i64,
    {
        self as i64
    }
}

/// Whether `p` is a live handle among `slots`: not null, and its object not yet reclaimed.
pub open spec fn is_live<T>(slots: Seq<Option<T>>, p: Point) -> bool {
    1 <= p <= slots.len() && slots[p - 1] is Some
}

/// The object behind a live handle.
pub open spec fn object_at<T>(slots: Seq<Option<T>>, p: Point) -> T
    recommends
        is_live(slots, p),
{
    slots[p - 1]->Some_0
}

/// The owner of the native objects handed out as integer handles.
///
/// A handle is one more than the index of its object's slot. Slots are never
/// reused, so a handle whose object was reclaimed stays dead and is refused,
/// instead of reaching an object that a later `to_ptr` stored. The price is one
/// empty slot for each object reclaimed.
pub struct PointStore<T> {
    slots: Vec<Option<T>>,
}

impl<T> View for PointStore<T> {
    type V = Seq<Option<T>>;

    closed spec fn view(&self) -> Seq<Option<T>> {
        self.slots@
    }
}

impl<T> PointStore<T> {
    /// A store that owns no object yet.
    pub fn new() -> (r: PointStore<T>)
        ensures
            r@ == Seq::<Option<T>>::empty(),
    {
        PointStore { slots: Vec::new() }
    }

    /// How many handles were handed out so far, live or not.
    pub fn len(&self) -> (r: usize)
        ensures
            r == self@.len(),
    {
        self.slots.len()
    }
}

/// Fails on a handle that is null or no longer live.
fn check_ptr<T>(store: &PointStore<T>, p: Point) -> (r: Result<(), SpError>)
    ensures
        r is Ok <==> is_live(store@, p),
        r is Err ==> r == Err::<(), SpError>(SpError::NullHandle),
{
    if p == 0 || p > store.slots.len() {
        return Err(SpError::NullHandle);
    }
    match &store.slots[p - 1] {
        Some(_) => Ok(()),
        None => Err(SpError::NullHandle),
    }
}

/// Moves `s` into the store and hands out the new handle, which owns it.
pub fn to_ptr<T>(store: &mut PointStore<T>, s: T) -> (r: Point)
    requires
        old(store)@.len() < usize::MAX,
    ensures
        r == old(store)@.len() + 1,
        final(store)@ == old(store)@.push(Some(s)),
        is_live(final(store)@, r),
        object_at(final(store)@, r) == s,
{
    store.slots.push(Some(s));
    store.slots.len()
}

/// The object behind `p`, to be used and changed for a while; the handle stays live.
pub fn to_status_use<T>(store: &mut PointStore<T>, p: Point) -> (r: Result<&mut T, SpError>)
    ensures
        is_live(old(store)@, p) ==> r is Ok,
        !is_live(old(store)@, p) ==> r is Err && final(store)@ == old(store)@,
        r matches Err(e) ==> e == SpError::NullHandle,
        r matches Ok(v) ==> *v == object_at(old(store)@, p) && final(store)@ == old(store)@.update(
            p - 1,
            Some(*final(v)),
        ),
{
    if p == 0 || p > store.slots.len() {
        return Err(SpError::NullHandle);
    }
    match &mut store.slots[p - 1] {
        Some(v) => Ok(v),
        None => Err(SpError::NullHandle),
    }
}

/// Relies on replace_with::replace_with_or_abort: moves the value out, stores
/// what `f` returns in its place, and aborts the process if `f` panics.
#[verifier::external_body]
fn replace_or_abort<T, F: FnOnce(T) -> T>(dest: &mut T, f: F)
    requires
        f.requires((*old(dest),)),
    ensures
        f.ensures((*old(dest),), *final(dest)),
{
    replace_with::replace_with_or_abort(dest, f)
}

/// Replaces the object behind `p` by what `action` makes of it. Should
/// `action` panic, the process aborts: the object is then half-moved and no
/// value is left to put back.
pub fn to_status_replace<T, F: FnOnce(T) -> T>(store: &mut PointStore<T>, p: Point, action: F) -> (r:
    Result<(), SpError>)
    requires
        is_live(old(store)@, p) ==> action.requires((object_at(old(store)@, p),)),
    ensures
        is_live(old(store)@, p) <==> r is Ok,
        !is_live(old(store)@, p) ==> final(store)@ == old(store)@,
        r matches Err(e) ==> e == SpError::NullHandle,
        is_live(old(store)@, p) ==> is_live(final(store)@, p) && final(store)@ == old(store)@.update(
            p - 1,
            final(store)@[p - 1],
        ),
        is_live(old(store)@, p) ==> action.ensures(
            (object_at(old(store)@, p),),
            object_at(final(store)@, p),
        ),
{
    let v = to_status_use(store, p)?;
    replace_or_abort(v, action);
    Ok(())
}

/// Reclaims the object behind `p`; the handle is dead from then on.
pub fn to_status<T>(store: &mut PointStore<T>, p: Point) -> (r: Result<Box<T>, SpError>)
    ensures
        is_live(old(store)@, p) ==> r is Ok && final(store)@ == old(store)@.update(p - 1, None),
        r matches Ok(b) ==> *b == object_at(old(store)@, p),
        !is_live(old(store)@, p) ==> r is Err && final(store)@ == old(store)@,
        r matches Err(e) ==> e == SpError::NullHandle,
{
    check_ptr(store, p)?;
    match store.slots[p - 1].take() {
        Some(v) => Ok(Box::new(v)),
        None => Err(SpError::NullHandle),
    }
}

} // verus!
