//! The particle explosion scene: a burst of small quads whose initial velocity
//! follows one of two patterns that a button switches between.
use vstd::prelude::*;

verus! {

/// The number of particles of one explosion.
pub const PARTICLE_COUNT: usize = 1024;

/// The number of vertices of a particle's quad.
pub const PARTICLE_VERTEX_COUNT: u32 = 4;

/// How the particles' initial velocities are chosen.
#[derive(Debug, Clone, Copy, PartialEq, Eq, Structural, Hash)]
pub enum ExplosionType {
    /// Every particle moves outwards along its place on the hemisphere.
    ConstantExpansion,
    /// Every particle gets a random velocity into the upper hemisphere.
    RandomVelocity,
}

impl Default for ExplosionType {
    fn default() -> (e: Self)
        ensures
            e == ExplosionType::ConstantExpansion,
    {
        ExplosionType::ConstantExpansion
    }
}

/// Where a particle's initial velocity comes from.
#[derive(Debug, Clone, Copy, PartialEq, Eq, Structural)]
pub enum VelocitySource {
    /// Twice the particle's point of the Fibonacci hemisphere distribution.
    FibonacciHemisphere,
    /// Twice a random vector of the upper unit half ball.
    Random,
}

/// The other explosion type.
pub open spec fn toggled(e: ExplosionType) -> ExplosionType {
    match e {
        ExplosionType::ConstantExpansion => ExplosionType::RandomVelocity,
        ExplosionType::RandomVelocity => ExplosionType::ConstantExpansion,
    }
}

/// The text of the button that shows an explosion type.
pub open spec fn label_of(e: ExplosionType) -> Seq<char> {
    match e {
        ExplosionType::ConstantExpansion => "Constant expansion"@,
        ExplosionType::RandomVelocity => "Random velocity"@,
    }
}

impl ExplosionType {
    /// The explosion type that a press of the button switches to.
    pub fn next_explosion_type(&self) -> (n: ExplosionType)
        ensures
            n == toggled(*self),
    {
        match self {
            ExplosionType::ConstantExpansion => ExplosionType::RandomVelocity,
            ExplosionType::RandomVelocity => ExplosionType::ConstantExpansion,
        }
    }

    /// Where the initial velocities of this explosion type come from.
    pub fn velocity_source(&self) -> (s: VelocitySource)
        ensures
            s == (match *self {
                ExplosionType::ConstantExpansion => VelocitySource::FibonacciHemisphere,
                ExplosionType::RandomVelocity => VelocitySource::Random,
            }),
    {
        match self {
            ExplosionType::ConstantExpansion => VelocitySource::FibonacciHemisphere,
            ExplosionType::RandomVelocity => VelocitySource::Random,
        }
    }
}

/// The text of the button that shows `explosion_type`.
pub fn get_button_label(explosion_type: &ExplosionType) -> (l: String)
    ensures
        l@ == label_of(*explosion_type),
{
    match explosion_type {
        ExplosionType::ConstantExpansion => "Constant expansion".to_string(),
        ExplosionType::RandomVelocity => "Random velocity".to_string(),
    }
}

/// A particle of the explosion, by its index.
#[derive(Debug, Clone, Copy, PartialEq, Eq, Structural)]
pub struct ExplosionParticle(pub usize);

impl ExplosionParticle {
    /// The index buffer of a particle's quad: two triangles over its four
    /// vertices.
    pub fn mesh_indices() -> (v: Vec<u32>)
        ensures
            v@ == seq![0u32, 1, 2, 3, 2, 1],
            v.len() % 3 == 0,
            forall|i: int| 0 <= i < v.len() ==> #[trigger] v@[i] < PARTICLE_VERTEX_COUNT,
    {
        let v: Vec<u32> = vec![0, 1, 2, 3, 2, 1];
        assert(v@ =~= seq![0u32, 1, 2, 3, 2, 1]);
        v
    }

    /// The particles that an explosion spawns, one for each index below
    /// `PARTICLE_COUNT`, in order.
    pub fn spawn_all() -> (v: Vec<ExplosionParticle>)
        ensures
            v.len() == PARTICLE_COUNT,
            forall|i: int| 0 <= i < v.len() ==> (#[trigger] v@[i]).0 == i,
    {
        let mut v: Vec<ExplosionParticle> = Vec::new();
        let mut i: usize = 0;
        while i < PARTICLE_COUNT
            invariant
                i <= PARTICLE_COUNT,
                v.len() == i,
                forall|j: int| 0 <= j < v.len() ==> (#[trigger] v@[j]).0 == j,
            decreases PARTICLE_COUNT - i,
        {
            v.push(ExplosionParticle(i));
            i = i + 1;
        }
        v
    }
}

/// Pressing the button twice brings back the explosion type it started with,
/// and every press changes it.
pub proof fn lemma_toggle_involution(e: ExplosionType)
    ensures
        toggled(toggled(e)) == e,
        toggled(e) != e,
{
}

/// The button tells the two explosion types apart: their labels differ.
pub proof fn lemma_labels_distinct(a: ExplosionType, b: ExplosionType)
    requires
        a != b,
    ensures
        label_of(a) != label_of(b),
{
    reveal_strlit("Constant expansion");
    reveal_strlit("Random velocity");
    assert(label_of(ExplosionType::ConstantExpansion).len() != label_of(
        ExplosionType::RandomVelocity,
    ).len());
}

/// The button switches constant expansion to random velocity and back, and
/// labels each with its name.
pub proof fn lemma_button_table()
    ensures
        toggled(ExplosionType::ConstantExpansion) == ExplosionType::RandomVelocity,
        toggled(ExplosionType::RandomVelocity) == ExplosionType::ConstantExpansion,
        label_of(ExplosionType::ConstantExpansion) == "Constant expansion"@,
        label_of(ExplosionType::RandomVelocity) == "Random velocity"@,
{
}

} // verus!
