use vstd::prelude::*;
use crate::handles::{after_release, after_retain, HandleTable};
use crate::info::Error;

verus! {

/// A font resource. Its handle is shared: every copy is one owner in the
/// handle table, and the font is freed when the last copy lets go.
pub struct Typeface {
    handle: u64,
}

/// The drawing style: color, anti-aliasing and text metrics. Each value owns
/// its own handle; a copy is a new native object.
pub struct Paint {
    handle: u64,
}

/// Vector path geometry. Each value owns its own handle; a copy is a new
/// native object.
pub struct Path {
    handle: u64,
}

impl Typeface {
    #[verifier::type_invariant]
    spec fn non_null(self) -> bool {
        self.handle != 0
    }

    pub closed spec fn spec_handle(&self) -> u64 {
        self.handle
    }

    /// Takes the first ownership of a handle that a font factory returned;
    /// `None` when the factory returned null.
    pub fn adopt(table: &mut HandleTable, h: u64) -> (r: Option<Typeface>)
        requires
            old(table).wf(),
            !old(table)@.contains_key(h),
        ensures
            final(table).wf(),
            h == 0 ==> r.is_none() && final(table)@ == old(table)@,
            h != 0 ==> final(table)@ == old(table)@.insert(h, 1) && (r matches Some(t) && t.spec_handle() == h),
    {
        match table.adopt(h) {
            Ok(()) => Some(Typeface { handle: h }),
            Err(_) => None,
        }
    }

    /// Takes ownership of one reference that a font factory handed out. A
    /// factory may hand out a font that is already live (the default font,
    /// or the family asked for) with one more reference: that adds an owner.
    /// A new font gets its first owner. `None` when the factory returned null.
    pub fn acquire(table: &mut HandleTable, h: u64) -> (r: Option<Typeface>)
        requires
            old(table).wf(),
            old(table)@.contains_key(h) ==> old(table)@[h] < u32::MAX,
        ensures
            final(table).wf(),
            h == 0 ==> r.is_none() && final(table)@ == old(table)@,
            h != 0 && old(table)@.contains_key(h) ==> final(table)@ == after_retain(old(table)@, h),
            h != 0 && !old(table)@.contains_key(h) ==> final(table)@ == old(table)@.insert(h, 1),
            h != 0 ==> (r matches Some(t) && t.spec_handle() == h),
    {
        if h == 0 {
            None
        } else if table.is_live(h) {
            table.retain(h);
            Some(Typeface { handle: h })
        } else {
            Typeface::adopt(table, h)
        }
    }

    /// The native handle, never null.
    pub fn handle(&self) -> (h: u64)
        ensures
            h == self.spec_handle(),
            h != 0,
    {
        proof { use_type_invariant(self); }
        self.handle
    }

    /// Another owner of the same font: one more reference in the table.
    pub fn share(&self, table: &mut HandleTable) -> (t: Typeface)
        requires
            old(table).wf(),
            old(table)@.contains_key(self.spec_handle()),
            old(table)@[self.spec_handle()] < u32::MAX,
        ensures
            final(table).wf(),
            final(table)@ == after_retain(old(table)@, self.spec_handle()),
            t.spec_handle() == self.spec_handle(),
    {
        table.retain(self.handle);
        Typeface { handle: self.handle }
    }

    /// This owner lets go. Returns whether it was the last one, in which case
    /// the font is to be freed.
    pub fn release(self, table: &mut HandleTable) -> (freed: bool)
        requires
            old(table).wf(),
            old(table)@.contains_key(self.spec_handle()),
        ensures
            final(table).wf(),
            final(table)@ == after_release(old(table)@, self.spec_handle()),
            freed == (old(table)@[self.spec_handle()] == 1),
            freed == !final(table)@.contains_key(self.spec_handle()),
    {
        table.release(self.handle)
    }
}

impl Paint {
    #[verifier::type_invariant]
    spec fn non_null(self) -> bool {
        self.handle != 0
    }

    pub closed spec fn spec_handle(&self) -> u64 {
        self.handle
    }

    /// Takes ownership of a handle that the paint factory, or a copy,
    /// returned; `Unknown` when it returned null.
    pub fn adopt(table: &mut HandleTable, h: u64) -> (r: Result<Paint, Error>)
        requires
            old(table).wf(),
            !old(table)@.contains_key(h),
        ensures
            final(table).wf(),
            h == 0 ==> r == Err::<Paint, Error>(Error::Unknown) && final(table)@ == old(table)@,
            h != 0 ==> final(table)@ == old(table)@.insert(h, 1) && (r matches Ok(p) && p.spec_handle() == h),
    {
        match table.adopt(h) {
            Ok(()) => Ok(Paint { handle: h }),
            Err(e) => Err(e),
        }
    }

    /// The native handle, never null.
    pub fn handle(&self) -> (h: u64)
        ensures
            h == self.spec_handle(),
            h != 0,
    {
        proof { use_type_invariant(self); }
        self.handle
    }

    /// The paint's font, given the handle the paint reports for it (null
    /// when it has none), with an owner of its own: the paint keeps its
    /// reference, and the caller takes one more native reference for the
    /// value returned.
    pub fn get_typeface(&self, table: &mut HandleTable, h: u64) -> (r: Option<Typeface>)
        requires
            old(table).wf(),
            old(table)@.contains_key(h) ==> old(table)@[h] < u32::MAX,
        ensures
            final(table).wf(),
            h == 0 ==> r.is_none() && final(table)@ == old(table)@,
            h != 0 && old(table)@.contains_key(h) ==> final(table)@ == after_retain(old(table)@, h),
            h != 0 && !old(table)@.contains_key(h) ==> final(table)@ == old(table)@.insert(h, 1),
            h != 0 ==> (r matches Some(t) && t.spec_handle() == h),
    {
        Typeface::acquire(table, h)
    }

    /// Lets go of the paint; being its only owner, this frees it.
    pub fn release(self, table: &mut HandleTable) -> (freed: bool)
        requires
            old(table).wf(),
            old(table)@.contains_key(self.spec_handle()),
            old(table)@[self.spec_handle()] == 1,
        ensures
            final(table).wf(),
            final(table)@ == old(table)@.remove(self.spec_handle()),
            freed,
    {
        table.release(self.handle)
    }
}

impl Path {
    #[verifier::type_invariant]
    spec fn non_null(self) -> bool {
        self.handle != 0
    }

    pub closed spec fn spec_handle(&self) -> u64 {
        self.handle
    }

    /// Takes ownership of a handle that the path factory, or a copy,
    /// returned; `Unknown` when it returned null.
    pub fn adopt(table: &mut HandleTable, h: u64) -> (r: Result<Path, Error>)
        requires
            old(table).wf(),
            !old(table)@.contains_key(h),
        ensures
            final(table).wf(),
            h == 0 ==> r == Err::<Path, Error>(Error::Unknown) && final(table)@ == old(table)@,
            h != 0 ==> final(table)@ == old(table)@.insert(h, 1) && (r matches Ok(p) && p.spec_handle() == h),
    {
        match table.adopt(h) {
            Ok(()) => Ok(Path { handle: h }),
            Err(e) => Err(e),
        }
    }

    /// The native handle, never null.
    pub fn handle(&self) -> (h: u64)
        ensures
            h == self.spec_handle(),
            h != 0,
    {
        proof { use_type_invariant(self); }
        self.handle
    }

    /// Lets go of the path; being its only owner, this frees it.
    pub fn release(self, table: &mut HandleTable) -> (freed: bool)
        requires
            old(table).wf(),
            old(table)@.contains_key(self.spec_handle()),
            old(table)@[self.spec_handle()] == 1,
        ensures
            final(table).wf(),
            final(table)@ == old(table)@.remove(self.spec_handle()),
            freed,
    {
        table.release(self.handle)
    }
}

} // verus!
