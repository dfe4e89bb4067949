//! What the render world learns of a compute pipeline, and the plain values in
//! which the scenes describe the work they hand to it.
use vstd::prelude::*;

verus! {

/// The state of a compute pipeline in the pipeline cache.
#[derive(Debug, Clone, Copy, PartialEq, Eq, Structural)]
pub enum PipelineStatus {
    /// Waiting to be created.
    Queued,
    /// Being created.
    Creating,
    /// Created and ready to be dispatched.
    Ready,
    /// Its shader has not been loaded yet.
    ShaderNotLoaded,
    /// Creation failed for a reason other than a shader that is not loaded yet.
    Failed,
}

/// Which of a scene's two compute entry points a dispatch runs.
#[derive(Debug, Clone, Copy, PartialEq, Eq, Structural)]
pub enum PipelineKind {
    Init,
    Update,
}

/// The number of workgroups of a compute dispatch, per dimension.
#[derive(Debug, Clone, Copy, PartialEq, Eq, Structural)]
pub struct Workgroups {
    pub x: u32,
    pub y: u32,
    pub z: u32,
}

/// A compute dispatch: the entry point, the bind group by its index, and the
/// workgroup counts.
#[derive(Debug, Clone, Copy, PartialEq, Eq, Structural)]
pub struct ComputeDispatch {
    pub pipeline: PipelineKind,
    pub bind_group: usize,
    pub workgroups: Workgroups,
}

/// A byte range of a buffer bound to a shader: its offset and its size, where
/// `None` binds the rest of the buffer from the offset.
#[derive(Debug, Clone, Copy, PartialEq, Eq, Structural)]
pub struct BufferBinding {
    pub offset: u64,
    pub size: Option<u64>,
}

/// The size of a binding as the graphics API takes it: a size of zero stands
/// for the rest of the buffer.
pub open spec fn binding_size(bytes: int) -> Option<u64> {
    if bytes == 0 {
        None
    } else {
        Some(bytes as u64)
    }
}

/// What to do with a render-world copy of a main-world resource.
#[derive(Debug, Clone, Copy, PartialEq, Eq, Structural)]
pub enum ExtractAction {
    /// Leave the render world as it is.
    Skip,
    /// Overwrite the render-world copy with the main-world resource.
    Overwrite,
    /// Insert a first render-world copy of the main-world resource.
    Insert,
}

/// The action `extract_conditionally` takes.
pub open spec fn extract_action(
    in_target_scene: bool,
    source_present: bool,
    target_present: bool,
    source_changed: bool,
) -> ExtractAction {
    if !in_target_scene || !source_present {
        ExtractAction::Skip
    } else if !target_present {
        ExtractAction::Insert
    } else if source_changed {
        ExtractAction::Overwrite
    } else {
        ExtractAction::Skip
    }
}

/// Decides how a resource reaches the render world while a scene is shown:
/// nothing happens outside the scene or without a main-world resource; a
/// missing render-world copy is inserted; an existing one is overwritten only
/// when the main-world resource changed.
pub fn extract_conditionally(
    in_target_scene: bool,
    source_present: bool,
    target_present: bool,
    source_changed: bool,
) -> (a: ExtractAction)
    ensures
        a == extract_action(in_target_scene, source_present, target_present, source_changed),
{
    if !in_target_scene {
        return ExtractAction::Skip;
    }
    if source_present {
        if target_present {
            if source_changed {
                ExtractAction::Overwrite
            } else {
                ExtractAction::Skip
            }
        } else {
            ExtractAction::Insert
        }
    } else {
        ExtractAction::Skip
    }
}

/// The number that four bytes hold, least significant byte first.
pub open spec fn le_u32(b0: u8, b1: u8, b2: u8, b3: u8) -> int {
    b0 + 256 * b1 + 65536 * b2 + 16777216 * b3
}

/// The debug value that a shader left in the first four bytes of a read-back
/// buffer, read as a little-endian number.
pub fn debug_value(data: &[u8]) -> (v: u32)
    requires
        data.len() >= 4,
    ensures
        v == le_u32(data@[0], data@[1], data@[2], data@[3]),
{
    let b0: u32 = data[0] as u32;
    let b1: u32 = data[1] as u32;
    let b2: u32 = data[2] as u32;
    let b3: u32 = data[3] as u32;
    b0 + 256 * b1 + 65536 * b2 + 16777216 * b3
}

/// A binding of zero bytes stands for the rest of the buffer; any other size
/// that fits is bound as it is.
pub proof fn lemma_binding_size(bytes: int)
    ensures
        bytes == 0 ==> binding_size(bytes).is_none(),
        0 < bytes <= u64::MAX ==> binding_size(bytes) == Some(bytes as u64),
{
}

/// What `extract_conditionally` does: outside the scene or without a
/// main-world resource nothing happens; a missing copy is inserted; an
/// existing copy is overwritten exactly when the resource changed.
pub proof fn lemma_extract_table(in_scene: bool, source: bool, target: bool, changed: bool)
    ensures
        !in_scene ==> extract_action(in_scene, source, target, changed) == ExtractAction::Skip,
        !source ==> extract_action(in_scene, source, target, changed) == ExtractAction::Skip,
        extract_action(true, true, false, changed) == ExtractAction::Insert,
        extract_action(true, true, true, true) == ExtractAction::Overwrite,
        extract_action(true, true, true, false) == ExtractAction::Skip,
{
}

/// Each byte of the debug value is one of the four bytes read, least
/// significant first, and the value fits 32 bits.
pub proof fn lemma_le_u32_bytes(b0: u8, b1: u8, b2: u8, b3: u8)
    ensures
        0 <= le_u32(b0, b1, b2, b3) <= u32::MAX,
        le_u32(b0, b1, b2, b3) % 256 == b0,
        (le_u32(b0, b1, b2, b3) / 256) % 256 == b1,
        (le_u32(b0, b1, b2, b3) / 65536) % 256 == b2,
        le_u32(b0, b1, b2, b3) / 16777216 == b3,
{
    let v: int = le_u32(b0, b1, b2, b3);
    assert(v == b0 + 256 * (b1 + 256 * (b2 + 256 * b3)));
    assert(v % 256 == b0 && v / 256 == b1 + 256 * (b2 + 256 * b3)) by (nonlinear_arith)
        requires
            v == b0 + 256 * (b1 + 256 * (b2 + 256 * b3)),
            0 <= b0 < 256,
            0 <= b1 < 256,
            0 <= b2 < 256,
            0 <= b3 < 256,
    ;
    let w: int = b1 + 256 * (b2 + 256 * b3);
    assert(w % 256 == b1 && w / 256 == b2 + 256 * b3) by (nonlinear_arith)
        requires
            w == b1 + 256 * (b2 + 256 * b3),
            0 <= b1 < 256,
            0 <= b2 < 256,
            0 <= b3 < 256,
    ;
    assert(v / 65536 == w / 256) by (nonlinear_arith)
        requires
            v == b0 + 256 * w,
            0 <= b0 < 256,
            0 <= w,
    ;
    let x: int = b2 + 256 * b3;
    assert(x % 256 == b2 && x / 256 == b3) by (nonlinear_arith)
        requires
            x == b2 + 256 * b3,
            0 <= b2 < 256,
            0 <= b3 < 256,
    ;
    assert(v / 16777216 == x / 256) by (nonlinear_arith)
        requires
            v == b0 + 256 * (b1 + 256 * x),
            0 <= b0 < 256,
            0 <= b1 < 256,
            0 <= x,
    ;
}

} // verus!
