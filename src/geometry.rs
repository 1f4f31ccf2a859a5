use vstd::prelude::*;

verus! {

/// Fixed-point unit used for logical lengths and scale factors: one point,
/// or a scale factor of 1.0, is `MILLI` units.
pub const MILLI: u64 = 1000;

/// The size of the drawing surface in device pixels, together with the
/// scale factor (in thousandths) that converts logical points to pixels.
#[derive(Debug, Clone, Copy, PartialEq, Eq, Structural)]
pub struct ViewportDimensions {
    pub width: u32,
    pub height: u32,
    pub scale_milli: u32,
}

/// The number of whole device pixels covered by `points_milli` thousandths of
/// a point at a scale factor of `scale_milli` thousandths, saturating at the
/// largest `u32`.
pub open spec fn device_pixels(points_milli: u32, scale_milli: u32) -> u32 {
    let px = (points_milli as int * scale_milli as int) / (MILLI * MILLI) as int;
    if px > u32::MAX as int {
        u32::MAX
    } else {
        px as u32
    }
}

/// The dimensions of a surface of the given logical size and scale factor.
pub open spec fn dimensions_of(width_milli: u32, height_milli: u32, scale_milli: u32) -> ViewportDimensions {
    ViewportDimensions {
        width: device_pixels(width_milli, scale_milli),
        height: device_pixels(height_milli, scale_milli),
        scale_milli,
    }
}

/// Converts a logical length to whole device pixels.
pub fn to_device_pixels(points_milli: u32, scale_milli: u32) -> (r: u32)
    ensures
        r == device_pixels(points_milli, scale_milli),
{
    let p: u64 = points_milli as u64;
    let s: u64 = scale_milli as u64;
    assert(p * s <= 0xffff_ffffu64 * 0xffff_ffffu64) by (nonlinear_arith)
        requires p <= 0xffff_ffffu64, s <= 0xffff_ffffu64;
    let product: u64 = p * s;
    let px: u64 = product / (MILLI * MILLI);
    if px > u32::MAX as u64 {
        u32::MAX
    } else {
        px as u32
    }
}

/// Computes the viewport dimensions of a surface whose logical size is
/// `width_milli` by `height_milli` thousandths of a point, drawn at a scale
/// factor of `scale_milli` thousandths.
pub fn viewport_dimensions(width_milli: u32, height_milli: u32, scale_milli: u32) -> (r: ViewportDimensions)
    ensures
        r == dimensions_of(width_milli, height_milli, scale_milli),
{
    ViewportDimensions {
        width: to_device_pixels(width_milli, scale_milli),
        height: to_device_pixels(height_milli, scale_milli),
        scale_milli,
    }
}

/// Whether the engine has to be resized: any of width, height or scale
/// factor differ.
pub open spec fn needs_resize(old: ViewportDimensions, new: ViewportDimensions) -> bool {
    old.width != new.width || old.height != new.height || old.scale_milli != new.scale_milli
}

/// The resize the engine needs when its dimensions are `old` and the surface
/// now measures `new`: none when they agree.
pub open spec fn resize_for(old: ViewportDimensions, new: ViewportDimensions) -> Option<ViewportDimensions> {
    if needs_resize(old, new) {
        Some(new)
    } else {
        None
    }
}

/// The engine's dimensions after it has been handed the resize, if any.
pub open spec fn after_resize(old: ViewportDimensions, new: ViewportDimensions) -> ViewportDimensions {
    match resize_for(old, new) {
        Some(d) => d,
        None => old,
    }
}

/// Feeds a run of layout notifications to an engine whose dimensions start
/// at `engine`: returns the dimensions it ends with and how many resizes it
/// was handed.
pub open spec fn run_layouts(engine: ViewportDimensions, notes: Seq<ViewportDimensions>) -> (ViewportDimensions, nat)
    decreases notes.len(),
{
    if notes.len() == 0 {
        (engine, 0)
    } else {
        let (end, count) = run_layouts(engine, notes.drop_last());
        let last = notes.last();
        (after_resize(end, last), count + if needs_resize(end, last) { 1nat } else { 0nat })
    }
}

/// Decides which resize, if any, the engine needs: `Some(new)` when any of
/// width, height or scale factor differ from the engine's `old` dimensions,
/// `None` when they all agree.
pub fn reconcile(old: ViewportDimensions, new: ViewportDimensions) -> (r: Option<ViewportDimensions>)
    ensures
        r == resize_for(old, new),
{
    if new.height != old.height || new.width != old.width || new.scale_milli != old.scale_milli {
        Some(new)
    } else {
        None
    }
}

/// Redundant layout notifications do no work: however many notifications
/// report the same dimensions, the engine is resized at most once, and after
/// the run it has those dimensions.
pub proof fn lemma_redundant_layouts(engine: ViewportDimensions, notes: Seq<ViewportDimensions>, d: ViewportDimensions)
    requires
        forall|i: int| 0 <= i < notes.len() ==> notes[i] == d,
    ensures
        run_layouts(engine, notes).1 <= 1,
        notes.len() > 0 ==> run_layouts(engine, notes).0 == d,
        run_layouts(engine, notes).1 == (if notes.len() > 0 && needs_resize(engine, d) { 1nat } else { 0nat }),
    decreases notes.len(),
{
    if notes.len() > 0 {
        let prefix = notes.drop_last();
        lemma_redundant_layouts(engine, prefix, d);
    }
}

} // verus!
