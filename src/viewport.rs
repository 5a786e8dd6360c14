use vstd::prelude::*;

verus! {

/// A size in pixels.
#[derive(Clone, Copy, Debug, PartialEq, Eq, Structural)]
pub struct Extent {
    pub width: u32,
    pub height: u32,
}

/// An aspect ratio kept as the exact fraction `num / den`.
#[derive(Clone, Copy, Debug, PartialEq, Eq, Structural)]
pub struct AspectRatio {
    pub num: u32,
    pub den: u32,
}

/// The size-dependent render state: the presentation surface's configured size,
/// the size of the depth buffer, and the camera's aspect ratio.
pub struct Viewport {
    surface: Extent,
    depth: Extent,
    aspect: AspectRatio,
}

/// The abstract contents of a `Viewport`.
pub struct ViewportState {
    pub surface: Extent,
    pub depth: Extent,
    pub aspect: AspectRatio,
}

/// The height actually used for a requested height: a zero height is clamped to one.
pub open spec fn clamped_height(height: u32) -> u32 {
    if height == 0 {
        1
    } else {
        height
    }
}

/// The state for a window of `width` by `height`: surface and depth buffer take
/// the size, with the height clamped, and the aspect ratio is width over that height.
pub open spec fn sized(width: u32, height: u32) -> ViewportState {
    let e = Extent { width, height: clamped_height(height) };
    ViewportState { surface: e, depth: e, aspect: AspectRatio { num: e.width, den: e.height } }
}

/// The state after a resize to `width` by `height`: it does not depend on the
/// state before.
pub open spec fn after_resize(v: ViewportState, width: u32, height: u32) -> ViewportState {
    sized(width, height)
}

/// The depth buffer matches the surface, the height is never zero, and the
/// aspect ratio is the surface's width over its height.
pub open spec fn state_wf(v: ViewportState) -> bool {
    &&& v.surface.height >= 1
    &&& v.depth == v.surface
    &&& v.aspect == (AspectRatio { num: v.surface.width, den: v.surface.height })
}

impl View for Viewport {
    type V = ViewportState;

    closed spec fn view(&self) -> ViewportState {
        ViewportState { surface: self.surface, depth: self.depth, aspect: self.aspect }
    }
}

impl Viewport {
    /// The state for a window of `width` by `height` pixels.
    pub fn new(width: u32, height: u32) -> (v: Viewport)
        ensures
            v@ == sized(width, height),
            state_wf(v@),
    {
        let surface = Extent { width, height: if height == 0 { 1 } else { height } };
        Viewport { surface, depth: surface, aspect: AspectRatio { num: surface.width, den: surface.height } }
    }

    /// Applies a resize: the surface takes the new size, the depth buffer is
    /// reallocated at that size and the aspect ratio is recomputed from it, in
    /// one step.
    pub fn resize(&mut self, width: u32, height: u32)
        ensures
            final(self)@ == after_resize(old(self)@, width, height),
            state_wf(final(self)@),
    {
        let surface = Extent { width, height: if height == 0 { 1 } else { height } };
        self.surface = surface;
        self.depth = surface;
        self.aspect = AspectRatio { num: surface.width, den: surface.height };
    }

    /// The size the surface is configured with.
    pub fn surface(&self) -> (r: Extent)
        ensures
            r == self@.surface,
    {
        self.surface
    }

    /// The size of the depth buffer.
    pub fn depth(&self) -> (r: Extent)
        ensures
            r == self@.depth,
    {
        self.depth
    }

    /// The camera's aspect ratio.
    pub fn aspect_ratio(&self) -> (r: AspectRatio)
        ensures
            r == self@.aspect,
    {
        self.aspect
    }
}

/// Resizing twice to the same size leaves the same state as resizing once, and
/// resizing a state to its current size changes nothing.
pub proof fn lemma_resize_idempotent(v: ViewportState, width: u32, height: u32)
    ensures
        after_resize(after_resize(v, width, height), width, height) == after_resize(v, width, height),
        state_wf(v) && width == v.surface.width && height == v.surface.height ==> after_resize(
            v,
            width,
            height,
        ) == v,
{
}

/// After a resize to a nonzero height the aspect ratio is exactly width over height.
pub proof fn lemma_resize_aspect(v: ViewportState, width: u32, height: u32)
    requires
        height > 0,
    ensures
        after_resize(v, width, height).aspect == (AspectRatio { num: width, den: height }),
        after_resize(v, width, height).depth == (Extent { width, height }),
{
}

} // verus!
