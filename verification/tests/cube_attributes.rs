use shader_playground::cube_attributes::{blend_hues, blend_ramp, face_ids, RampStep};

#[test]
fn face_ids_repeat_each_face_four_times() {
    let v = face_ids();
    assert_eq!(v.len(), 24);
    assert_eq!(&v[..8], &[0, 0, 0, 0, 1, 1, 1, 1]);
    assert_eq!(&v[20..], &[5, 5, 5, 5]);
    for f in 0..6u32 {
        assert_eq!(v.iter().filter(|&&x| x == f).count(), 4);
    }
}

#[test]
fn hues_cycle_red_green_blue() {
    let v = blend_hues();
    assert_eq!(v.len(), 24);
    assert_eq!(&v[..6], &[0, 120, 240, 0, 120, 240]);
    assert_eq!(v[23], 240);
}

#[test]
fn ramp_lights_one_channel_per_eight_vertices() {
    let v = blend_ramp();
    assert_eq!(v.len(), 24);
    assert_eq!(v[0], RampStep { channel: 0, eighths: 0 });
    assert_eq!(v[7], RampStep { channel: 0, eighths: 7 });
    assert_eq!(v[8], RampStep { channel: 1, eighths: 0 });
    assert_eq!(v[19], RampStep { channel: 2, eighths: 3 });
}
