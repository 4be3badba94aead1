use vstd::prelude::*;
use crate::info::ImageInfo;
use crate::surface::{BasicSurface, SurfaceCall};

verus! {

/// How a GPU context submits its pending work.
#[derive(Clone, Copy, PartialEq, Eq, Structural, Debug)]
pub enum FlushFlags {
    /// Submit everything pending.
    Plain,
    /// Drop pending reads first, as when the whole surface is overwritten.
    Discard,
}

/// A call that the layer asks the GPU backend to make.
#[derive(Clone, Copy, PartialEq, Eq, Structural, Debug)]
pub enum GrCall {
    ReleaseInterface { iface: u64 },
    ReleaseContext { context: u64 },
    /// Make a GPU surface described by `info`, tracked under the context's
    /// memory budget.
    NewBudgetedSurface { context: u64, info: ImageInfo },
    Flush { context: u64, flags: FlushFlags },
}

/// The table binding the backend to the current GL context's functions.
pub struct GlInterface {
    handle: u64,
}

impl GlInterface {
    #[verifier::type_invariant]
    spec fn non_null(self) -> bool {
        self.handle != 0
    }

    pub closed spec fn spec_handle(&self) -> u64 {
        self.handle
    }

    /// Wraps the result of resolving the native GL functions, which the caller
    /// makes after making its GL context current. A null result means that
    /// resolution failed: there is then no interface, so nothing further can
    /// be asked of the backend through it.
    pub fn new_native(resolved: u64) -> (r: Option<GlInterface>)
        ensures
            resolved == 0 <==> r.is_none(),
            r matches Some(i) ==> i.spec_handle() == resolved,
    {
        if resolved == 0 {
            None
        } else {
            Some(GlInterface { handle: resolved })
        }
    }

    /// The native handle, never null.
    pub fn handle(&self) -> (h: u64)
        ensures
            h == self.spec_handle(),
            h != 0,
    {
        proof { use_type_invariant(self); }
        self.handle
    }

    /// Gives up the interface: the one call that releases its handle.
    pub fn release(self) -> (c: GrCall)
        ensures
            c == (GrCall::ReleaseInterface { iface: self.spec_handle() }),
    {
        GrCall::ReleaseInterface { iface: self.handle }
    }
}

/// A GPU backend context. It counts the surfaces it made that are still
/// live, and can only be released once they all are.
pub struct Context {
    handle: u64,
    surfaces: u64,
}

impl Context {
    #[verifier::type_invariant]
    spec fn non_null(self) -> bool {
        self.handle != 0
    }

    pub closed spec fn spec_handle(&self) -> u64 {
        self.handle
    }

    /// How many surfaces this context made that are not released yet.
    pub closed spec fn spec_live_surfaces(&self) -> nat {
        self.surfaces as nat
    }

    /// Consumes an interface once the backend has tried to make a context
    /// from it; `created` is what the backend returned, null on failure.
    /// Whatever happened, the interface's own reference is released.
    pub fn new_gl(iface: GlInterface, created: u64) -> (r: (Option<Context>, GrCall))
        ensures
            created == 0 <==> r.0.is_none(),
            r.0 matches Some(c) ==> c.spec_handle() == created && c.spec_live_surfaces() == 0,
            r.1 == (GrCall::ReleaseInterface { iface: iface.spec_handle() }),
    {
        let release = iface.release();
        if created == 0 {
            (None, release)
        } else {
            (Some(Context { handle: created, surfaces: 0 }), release)
        }
    }

    /// The native handle, never null.
    pub fn handle(&self) -> (h: u64)
        ensures
            h == self.spec_handle(),
            h != 0,
    {
        proof { use_type_invariant(self); }
        self.handle
    }

    /// The request for a GPU surface described by `info`, made by this
    /// context under its memory budget.
    pub fn create_budgeted_offscreen_surface(&self, info: ImageInfo) -> (c: GrCall)
        ensures
            c == (GrCall::NewBudgetedSurface { context: self.spec_handle(), info }),
    {
        GrCall::NewBudgetedSurface { context: self.handle, info }
    }

    /// Wraps the GPU surface that the backend made for a budgeted-surface
    /// request of this context; `created` is null when it could not, and
    /// then nothing is owned.
    pub fn offscreen_surface_from_native(&mut self, created: u64) -> (r: Option<BasicSurface>)
        requires
            old(self).spec_live_surfaces() < u64::MAX,
        ensures
            created == 0 <==> r.is_none(),
            r matches Some(s) ==> s.spec_handle() == created && s.spec_context() == old(self).spec_handle(),
            final(self).spec_handle() == old(self).spec_handle(),
            final(self).spec_live_surfaces() == old(self).spec_live_surfaces() + if created == 0 { 0nat } else { 1nat },
    {
        proof { use_type_invariant(&*self); }
        match BasicSurface::from_context(created, self.handle) {
            Some(s) => {
                self.surfaces = self.surfaces + 1;
                Some(s)
            },
            None => None,
        }
    }

    /// Gives up a surface that this context made: the one call that
    /// releases its handle.
    pub fn release_surface(&mut self, surface: BasicSurface) -> (c: SurfaceCall)
        requires
            surface.spec_context() == old(self).spec_handle(),
            old(self).spec_live_surfaces() > 0,
        ensures
            c == (SurfaceCall::Unref { surface: surface.spec_handle() }),
            final(self).spec_handle() == old(self).spec_handle(),
            final(self).spec_live_surfaces() == old(self).spec_live_surfaces() - 1,
    {
        proof { use_type_invariant(&*self); }
        self.surfaces = self.surfaces - 1;
        surface.release()
    }

    /// How many surfaces this context made that are not released yet.
    pub fn live_surfaces(&self) -> (n: u64)
        ensures
            n == self.spec_live_surfaces(),
    {
        self.surfaces
    }

    /// The call that submits pending GPU work, dropping pending reads first
    /// when `discard`.
    pub fn flush(&self, discard: bool) -> (c: GrCall)
        ensures
            c == (GrCall::Flush {
                context: self.spec_handle(),
                flags: if discard { FlushFlags::Discard } else { FlushFlags::Plain },
            }),
    {
        let flags = if discard { FlushFlags::Discard } else { FlushFlags::Plain };
        GrCall::Flush { context: self.handle, flags }
    }

    /// Gives up the context, after every surface it made: the one call that
    /// releases its handle.
    pub fn release(self) -> (c: GrCall)
        requires
            self.spec_live_surfaces() == 0,
        ensures
            c == (GrCall::ReleaseContext { context: self.spec_handle() }),
    {
        GrCall::ReleaseContext { context: self.handle }
    }
}

} // verus!
