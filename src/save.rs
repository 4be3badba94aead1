use vstd::prelude::*;
use crate::surface::{BasicSurface, SurfaceCall};

verus! {

/// The alpha a layer gets when none is asked for: fully opaque.
pub const OPAQUE: u8 = 255;

/// One pushed level of a canvas's drawing state.
#[derive(Clone, Copy, PartialEq, Eq, Structural, Debug)]
pub enum SaveLevel {
    /// A plain save of the transform and clip.
    Plain,
    /// A save with an offscreen compositing layer tinted by `alpha`; `bounded`
    /// when it is clipped to given bounds rather than the whole surface.
    Layer { alpha: u8, bounded: bool },
}

/// The call that pushes a level onto the canvas of `surface`.
pub open spec fn push_call(surface: u64, l: SaveLevel) -> SurfaceCall {
    match l {
        SaveLevel::Plain => SurfaceCall::Save { surface },
        SaveLevel::Layer { alpha, bounded } => SurfaceCall::SaveLayerAlpha { surface, alpha, bounded },
    }
}

/// The levels left and the levels popped, in the order popped, when a stack
/// of `levels` is unwound down to `depth`.
pub open spec fn unwind(levels: Seq<SaveLevel>, depth: int) -> (Seq<SaveLevel>, Seq<SaveLevel>) {
    (levels.subrange(0, depth), levels.subrange(depth, levels.len() as int).reverse())
}

/// The save/restore stack of one canvas. Each level pushed is popped by
/// exactly one restore, the latest first.
pub struct SaveStack {
    surface: u64,
    levels: Vec<SaveLevel>,
}

impl View for SaveStack {
    type V = Seq<SaveLevel>;

    closed spec fn view(&self) -> Seq<SaveLevel> {
        self.levels@
    }
}

impl SaveStack {
    pub closed spec fn spec_surface(&self) -> u64 {
        self.surface
    }

    /// An empty stack over the canvas of `surface`.
    pub fn new(surface: &BasicSurface) -> (s: SaveStack)
        ensures
            s@ == Seq::<SaveLevel>::empty(),
            s.spec_surface() == surface.spec_handle(),
    {
        SaveStack { surface: surface.handle(), levels: Vec::new() }
    }

    /// How many levels are pushed.
    pub fn depth(&self) -> (n: usize)
        ensures
            n == self@.len(),
    {
        self.levels.len()
    }

    /// Pushes a plain level; returns the call that does so.
    pub fn save(&mut self) -> (c: SurfaceCall)
        ensures
            final(self)@ == old(self)@.push(SaveLevel::Plain),
            final(self).spec_surface() == old(self).spec_surface(),
            c == push_call(old(self).spec_surface(), SaveLevel::Plain),
    {
        self.levels.push(SaveLevel::Plain);
        SurfaceCall::Save { surface: self.surface }
    }

    /// Pushes a level with a layer tinted by `alpha` (opaque when `None`),
    /// clipped to bounds when `bounded`; returns the call that does so.
    pub fn save_layer_alpha(&mut self, bounded: bool, alpha: Option<u8>) -> (c: SurfaceCall)
        ensures
            ({
                let l = SaveLevel::Layer {
                    alpha: match alpha { Some(a) => a, None => OPAQUE },
                    bounded,
                };
                &&& final(self)@ == old(self)@.push(l)
                &&& c == push_call(old(self).spec_surface(), l)
            }),
            final(self).spec_surface() == old(self).spec_surface(),
    {
        let a: u8 = match alpha {
            Some(a) => a,
            None => OPAQUE,
        };
        self.levels.push(SaveLevel::Layer { alpha: a, bounded });
        SurfaceCall::SaveLayerAlpha { surface: self.surface, alpha: a, bounded }
    }

    /// Pops the latest level, or `None` when nothing is pushed.
    pub fn restore(&mut self) -> (r: Option<(SaveLevel, SurfaceCall)>)
        ensures
            final(self).spec_surface() == old(self).spec_surface(),
            old(self)@.len() == 0 ==> r.is_none() && final(self)@ == old(self)@,
            old(self)@.len() > 0 ==> r == Some((
                old(self)@.last(),
                SurfaceCall::Restore { surface: old(self).spec_surface() },
            )) && final(self)@ == old(self)@.drop_last(),
    {
        match self.levels.pop() {
            Some(l) => Some((l, SurfaceCall::Restore { surface: self.surface })),
            None => None,
        }
    }

    /// Pops levels until `depth` are left, as when a scope is left early:
    /// returns the levels in the order they were popped, one restore each.
    pub fn restore_to(&mut self, depth: usize) -> (popped: Vec<SaveLevel>)
        requires
            depth <= old(self)@.len(),
        ensures
            final(self).spec_surface() == old(self).spec_surface(),
            (final(self)@, popped@) == unwind(old(self)@, depth as int),
    {
        let ghost start = self.levels@;
        let ghost surface = self.surface;
        let mut popped: Vec<SaveLevel> = Vec::new();
        while self.levels.len() > depth
            invariant
                depth <= self.levels@.len() <= start.len(),
                self.surface == surface,
                self.levels@ == start.subrange(0, self.levels@.len() as int),
                popped@ == start.subrange(self.levels@.len() as int, start.len() as int).reverse(),
            decreases self.levels@.len(),
        {
            let ghost n = self.levels@.len() as int;
            let l = self.levels.pop().unwrap();
            popped.push(l);
            proof {
                assert(popped@ =~= start.subrange(n - 1, start.len() as int).reverse());
                assert(self.levels@ =~= start.subrange(0, n - 1));
            }
        }
        popped
    }
}

/// However many levels a scope pushes on top of a stack, unwinding back to
/// where the scope began pops exactly those levels, latest first, and leaves
/// the stack as it was.
pub proof fn lemma_restores_mirror_saves(before: Seq<SaveLevel>, pushed: Seq<SaveLevel>)
    ensures
        unwind(before + pushed, before.len() as int).0 == before,
        unwind(before + pushed, before.len() as int).1 == pushed.reverse(),
        unwind(before + pushed, before.len() as int).1.len() == pushed.len(),
{
    let all = before + pushed;
    assert(all.subrange(0, before.len() as int) =~= before);
    assert(all.subrange(before.len() as int, all.len() as int) =~= pushed);
}

} // verus!
