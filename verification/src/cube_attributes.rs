//! The integer vertex attributes that the cube scenes attach to a unit cube.
//! The cube has four vertices on each of its six faces, face after face.
use vstd::prelude::*;

verus! {

/// The number of faces of the cube.
pub const CUBE_FACE_COUNT: u32 = 6;

/// The number of vertices of each face.
pub const VERTICES_PER_FACE: u32 = 4;

/// The number of vertices of the cube.
pub const CUBE_VERTEX_COUNT: usize = 24;

/// The hue step, in degrees, from one vertex's blend color to the next.
pub const HUE_STEP_DEGREES: u32 = 120;

/// The number of vertices that share a color channel in the ramp.
pub const RAMP_LENGTH: u32 = 8;

/// The id of the vertex attribute that carries a vertex's face id.
pub const FACE_ID_ATTRIBUTE_ID: u64 = 987654322;

/// The id of the vertex attribute that carries a vertex's blend color.
pub const BLEND_COLOR_ATTRIBUTE_ID: u64 = 988540917;

/// The two custom vertex attributes do not collide.
pub proof fn lemma_attribute_ids_distinct()
    ensures
        FACE_ID_ATTRIBUTE_ID != BLEND_COLOR_ATTRIBUTE_ID,
{
}

/// The face ids of the cube's vertices: vertex `i` lies on face `i / 4`.
pub fn face_ids() -> (v: Vec<u32>)
    ensures
        v.len() == CUBE_VERTEX_COUNT,
        forall|i: int| 0 <= i < v.len() ==> #[trigger] v@[i] == i / 4,
        forall|i: int| 0 <= i < v.len() ==> #[trigger] v@[i] < CUBE_FACE_COUNT,
{
    let mut face_ids: Vec<u32> = Vec::new();
    let mut face: u32 = 0;
    while face < CUBE_FACE_COUNT
        invariant
            face <= CUBE_FACE_COUNT,
            face_ids.len() == face * VERTICES_PER_FACE,
            forall|i: int| 0 <= i < face_ids.len() ==> #[trigger] face_ids@[i] == i / 4,
        decreases CUBE_FACE_COUNT - face,
    {
        let mut k: u32 = 0;
        while k < VERTICES_PER_FACE
            invariant
                face < CUBE_FACE_COUNT,
                k <= VERTICES_PER_FACE,
                face_ids.len() == face * VERTICES_PER_FACE + k,
                forall|i: int| 0 <= i < face_ids.len() ==> #[trigger] face_ids@[i] == i / 4,
            decreases VERTICES_PER_FACE - k,
        {
            face_ids.push(face);
            k = k + 1;
        }
        face = face + 1;
    }
    face_ids
}

/// The hues, in degrees, of the cube's blend colors: from one vertex to the
/// next the hue advances by 120 degrees, starting from red at 0, so that the
/// colors cycle red, green, blue.
pub fn blend_hues() -> (v: Vec<u32>)
    ensures
        v.len() == CUBE_VERTEX_COUNT,
        forall|i: int| 0 <= i < v.len() ==> #[trigger] v@[i] == (i * 120) % 360,
        forall|i: int| 0 <= i < v.len() ==> #[trigger] v@[i] == 120 * (i % 3),
{
    let mut hues: Vec<u32> = Vec::new();
    let mut index: u32 = 0;
    while (index as usize) < CUBE_VERTEX_COUNT
        invariant
            index <= CUBE_VERTEX_COUNT,
            hues.len() == index,
            forall|i: int| 0 <= i < hues.len() ==> #[trigger] hues@[i] == (i * 120) % 360,
        decreases CUBE_VERTEX_COUNT - index,
    {
        hues.push(index * HUE_STEP_DEGREES % 360);
        index = index + 1;
    }
    assert forall|i: int| 0 <= i < hues.len() implies #[trigger] hues@[i] == 120 * (i % 3) by {
        lemma_hue_cycle(i);
    }
    hues
}

proof fn lemma_hue_cycle(i: int)
    requires
        0 <= i,
    ensures
        (i * 120) % 360 == 120 * (i % 3),
{
    assert((i * 120) % 360 == 120 * (i % 3)) by (nonlinear_arith)
        requires
            0 <= i,
    {
        let q: int = i / 3;
        let r: int = i % 3;
        assert(i == 3 * q + r);
        assert(i * 120 == 360 * q + 120 * r);
        assert(0 <= 120 * r < 360);
    }
}

/// A blend color of the ramp: the channel it lights (0 red, 1 green, 2 blue)
/// and its intensity in eighths.
#[derive(Debug, Clone, Copy, PartialEq, Eq, Structural)]
pub struct RampStep {
    pub channel: u32,
    pub eighths: u32,
}

/// The ramp of blend colors: the first eight vertices ramp up red, the next
/// eight green and the last eight blue, each from 0 in steps of one eighth.
pub fn blend_ramp() -> (v: Vec<RampStep>)
    ensures
        v.len() == CUBE_VERTEX_COUNT,
        forall|i: int|
            0 <= i < v.len() ==> #[trigger] v@[i] == (RampStep {
                channel: (i / 8) as u32,
                eighths: (i % 8) as u32,
            }),
        forall|i: int| 0 <= i < v.len() ==> (#[trigger] v@[i]).channel < 3 && v@[i].eighths < RAMP_LENGTH,
{
    let mut ramp: Vec<RampStep> = Vec::new();
    let mut index: u32 = 0;
    while (index as usize) < CUBE_VERTEX_COUNT
        invariant
            index <= CUBE_VERTEX_COUNT,
            ramp.len() == index,
            forall|i: int|
                0 <= i < ramp.len() ==> #[trigger] ramp@[i] == (RampStep {
                    channel: (i / 8) as u32,
                    eighths: (i % 8) as u32,
                }),
        decreases CUBE_VERTEX_COUNT - index,
    {
        let step = if index < RAMP_LENGTH {
            RampStep { channel: 0, eighths: index }
        } else if index < 2 * RAMP_LENGTH {
            RampStep { channel: 1, eighths: index - RAMP_LENGTH }
        } else {
            RampStep { channel: 2, eighths: index - 2 * RAMP_LENGTH }
        };
        ramp.push(step);
        index = index + 1;
    }
    ramp
}

} // verus!
