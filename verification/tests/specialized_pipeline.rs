use shader_playground::specialized_pipeline::{
    get_button_label, ExplosionParticle, ExplosionType, VelocitySource, PARTICLE_COUNT,
};

#[test]
fn default_explosion_is_constant_expansion() {
    assert_eq!(ExplosionType::default(), ExplosionType::ConstantExpansion);
}

#[test]
fn button_toggles_explosion_type() {
    assert_eq!(
        ExplosionType::ConstantExpansion.next_explosion_type(),
        ExplosionType::RandomVelocity
    );
    assert_eq!(
        ExplosionType::RandomVelocity.next_explosion_type(),
        ExplosionType::ConstantExpansion
    );
    for e in [ExplosionType::ConstantExpansion, ExplosionType::RandomVelocity] {
        assert_eq!(e.next_explosion_type().next_explosion_type(), e);
    }
}

#[test]
fn button_labels() {
    assert_eq!(get_button_label(&ExplosionType::ConstantExpansion), "Constant expansion");
    assert_eq!(get_button_label(&ExplosionType::RandomVelocity), "Random velocity");
}

#[test]
fn velocity_sources() {
    assert_eq!(
        ExplosionType::ConstantExpansion.velocity_source(),
        VelocitySource::FibonacciHemisphere
    );
    assert_eq!(ExplosionType::RandomVelocity.velocity_source(), VelocitySource::Random);
}

#[test]
fn particle_quad_indices() {
    let v = ExplosionParticle::mesh_indices();
    assert_eq!(v, vec![0, 1, 2, 3, 2, 1]);
    assert!(v.iter().all(|&i| i < 4));
}

#[test]
fn explosion_spawns_1024_particles() {
    let v = ExplosionParticle::spawn_all();
    assert_eq!(PARTICLE_COUNT, 1 << 10);
    assert_eq!(v.len(), 1024);
    assert_eq!(v[0], ExplosionParticle(0));
    assert_eq!(v[1023], ExplosionParticle(1023));
}
