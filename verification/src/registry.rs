//! Wrapping native resources as host-visible handles.
//!
//! A wrapped resource lives beyond any one call's scope: it stays valid
//! until the host's garbage collector runs its finalizer. The registry
//! models that lifetime as an arena of slots indexed by handle. Wrapping
//! fills a fresh slot; operating on a resource takes it out of its slot for
//! exclusive use and restores it afterwards; the finalizer's destroy empties
//! the slot for good, after which the handle can never reach a resource
//! again. A class shape is registered once per process, lazily, and then
//! memoized for the lifetime of the process.

use vstd::prelude::*;

use crate::combine::Combine;
use crate::errors::ApiError;
use crate::extract::Extract;
use crate::probe::Probe;

verus! {

/// The arena of wrapped resources of one kind. A handle is the index of the
/// slot a resource was wrapped into; an empty slot is a destroyed (or
/// temporarily taken) resource.
pub struct Registry<R> {
    slots: Vec<Option<R>>,
}

impl<R> View for Registry<R> {
    type V = Seq<Option<R>>;

    closed spec fn view(&self) -> Seq<Option<R>> {
        self.slots@
    }
}

impl<R> Registry<R> {
    /// A handle is live while its slot still holds the resource.
    pub open spec fn live(&self, h: int) -> bool {
        0 <= h < self@.len() && self@[h] is Some
    }

    pub fn new() -> (r: Self)
        ensures
            r@.len() == 0,
    {
        Registry { slots: Vec::new() }
    }

    /// Wrap a resource: ownership transfers into a fresh slot and the slot's
    /// index becomes the host-visible handle.
    pub fn wrap(&mut self, resource: R) -> (h: usize)
        ensures
            h == old(self)@.len(),
            final(self)@ == old(self)@.push(Some(resource)),
            final(self).live(h as int),
    {
        let h = self.slots.len();
        self.slots.push(Some(resource));
        h
    }

    /// How many handles have ever been issued.
    pub fn len(&self) -> (r: usize)
        ensures
            r == self@.len(),
    {
        self.slots.len()
    }

    /// Whether a handle still reaches a resource.
    pub fn is_live(&self, h: usize) -> (r: bool)
        ensures
            r == self.live(h as int),
    {
        h < self.slots.len() && self.slots[h].is_some()
    }

    /// Take the resource out of its slot for exclusive use. A dead handle —
    /// never wrapped, destroyed, or already taken — yields nothing and
    /// changes nothing.
    pub fn take(&mut self, h: usize) -> (r: Option<R>)
        ensures
            final(self)@.len() == old(self)@.len(),
            old(self).live(h as int) ==> (r == old(self)@[h as int] && final(self)@ == old(
                self,
            )@.update(h as int, None)),
            !old(self).live(h as int) ==> (r is None && final(self)@ == old(self)@),
    {
        if h < self.slots.len() {
            let slot = self.slots.remove(h);
            self.slots.insert(h, None);
            proof {
                if old(self).live(h as int) {
                    assert(self@ =~= old(self)@.update(h as int, None));
                } else {
                    assert(self@ =~= old(self)@);
                }
            }
            slot
        } else {
            None
        }
    }

    /// Put a taken resource back into its slot.
    pub fn restore(&mut self, h: usize, resource: R)
        requires
            h < old(self)@.len(),
            old(self)@[h as int] is None,
        ensures
            final(self)@ == old(self)@.update(h as int, Some(resource)),
            final(self).live(h as int),
    {
        let _ = self.slots.remove(h);
        self.slots.insert(h, Some(resource));
        proof {
            assert(self@ =~= old(self)@.update(h as int, Some(resource)));
        }
    }

    /// The finalizer's entry point: destroy the resource behind a handle.
    /// The slot is emptied for good; a handle out of range changes nothing.
    /// Either way the handle is dead afterwards.
    pub fn destroy(&mut self, h: usize)
        ensures
            final(self)@ == destroyed(old(self)@, h as int),
            !final(self).live(h as int),
    {
        if h < self.slots.len() {
            let _ = self.slots.remove(h);
            self.slots.insert(h, None);
            proof {
                assert(self@ =~= destroyed(old(self)@, h as int));
            }
        }
    }
}

/// The arena a destroy leaves behind: the handle's slot emptied, every
/// other slot untouched.
pub open spec fn destroyed<R>(slots: Seq<Option<R>>, h: int) -> Seq<Option<R>> {
    if 0 <= h < slots.len() {
        slots.update(h, None)
    } else {
        slots
    }
}

/// A destroyed handle can never reach a resource again: after a destroy the
/// slot is empty, so no later take or use can observe the resource, and
/// destroying it a second time changes nothing further.
pub proof fn lemma_destroyed_unreachable<R>(slots: Seq<Option<R>>, h: int)
    ensures
        0 <= h < slots.len() ==> destroyed(slots, h)[h] is None,
        destroyed(destroyed(slots, h), h) == destroyed(slots, h),
{
    if 0 <= h < slots.len() {
        assert(destroyed(destroyed(slots, h), h) =~= destroyed(slots, h));
    }
}

/// A resource as stored behind a host handle: one of the three kinds.
pub enum Resource {
    Probe(Probe),
    Extract(Extract),
    Combine(Combine),
}

/// Recover the probe behind a handle's resource; a resource of another kind
/// is a type mismatch, reported distinctly.
pub fn expect_probe(r: Resource) -> (out: Result<Probe, ApiError>)
    ensures
        r matches Resource::Probe(p) ==> out == Ok::<Probe, ApiError>(p),
        !(r is Probe) ==> out == Err::<Probe, ApiError>(ApiError::WrongResourceKind),
{
    match r {
        Resource::Probe(p) => Ok(p),
        _ => Err(ApiError::WrongResourceKind),
    }
}

/// Recover the frame sequence behind a handle's resource.
pub fn expect_extract(r: Resource) -> (out: Result<Extract, ApiError>)
    ensures
        r matches Resource::Extract(e) ==> out == Ok::<Extract, ApiError>(e),
        !(r is Extract) ==> out == Err::<Extract, ApiError>(ApiError::WrongResourceKind),
{
    match r {
        Resource::Extract(e) => Ok(e),
        _ => Err(ApiError::WrongResourceKind),
    }
}

/// Recover the combine sink behind a handle's resource.
pub fn expect_combine(r: Resource) -> (out: Result<Combine, ApiError>)
    ensures
        r matches Resource::Combine(c) ==> out == Ok::<Combine, ApiError>(c),
        !(r is Combine) ==> out == Err::<Combine, ApiError>(ApiError::WrongResourceKind),
{
    match r {
        Resource::Combine(c) => Ok(c),
        _ => Err(ApiError::WrongResourceKind),
    }
}

/// The memoized registration of one resource kind's class shape:
/// process-wide state created on first access and valid until process exit.
pub struct ShapeCell {
    id: Option<u32>,
}

impl ShapeCell {
    pub closed spec fn spec_id(&self) -> Option<u32> {
        self.id
    }

    pub fn new() -> (r: Self)
        ensures
            r.spec_id() is None,
    {
        ShapeCell { id: None }
    }

    /// The registered shape, if registration has happened.
    pub fn get(&self) -> (r: Option<u32>)
        ensures
            r == self.spec_id(),
    {
        self.id
    }

    /// Register a freshly created shape — unless one is already registered,
    /// in which case the first registration wins and the cell is untouched.
    /// Initialization is thereby idempotent: however often it runs, every
    /// call observes the one shape registered first.
    pub fn get_or_init(&mut self, fresh: u32) -> (r: u32)
        ensures
            old(self).spec_id() matches Some(v) ==> (r == v && final(self).spec_id() == old(
                self,
            ).spec_id()),
            old(self).spec_id() is None ==> (r == fresh && final(self).spec_id() == Some(fresh)),
            final(self).spec_id() == Some(r),
    {
        match self.id {
            Some(v) => v,
            None => {
                self.id = Some(fresh);
                fresh
            },
        }
    }
}

/// The registration transition, for stating its law.
pub closed spec fn shape_after_init(c: ShapeCell, fresh: u32) -> ShapeCell {
    if c.spec_id() is Some {
        c
    } else {
        ShapeCell { id: Some(fresh) }
    }
}

/// What a registration attempt yields.
pub open spec fn shape_init_result(c: ShapeCell, fresh: u32) -> u32 {
    match c.spec_id() {
        Some(v) => v,
        None => fresh,
    }
}

/// Registering twice observes one shape: the second attempt, whatever fresh
/// shape it brings, yields exactly what the first one did and changes
/// nothing.
pub proof fn lemma_shape_registered_once(c: ShapeCell, f1: u32, f2: u32)
    ensures
        shape_init_result(shape_after_init(c, f1), f2) == shape_init_result(c, f1),
        shape_after_init(shape_after_init(c, f1), f2) == shape_after_init(c, f1),
{
}

} // verus!
