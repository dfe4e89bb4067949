use shader_playground::scene::{switch_scenes, PlaygroundScene, SceneKey};

#[test]
fn default_scene_is_basic_coloring() {
    assert_eq!(PlaygroundScene::default(), PlaygroundScene::BasicColoring);
}

#[test]
fn each_scene_has_its_digit() {
    assert_eq!(PlaygroundScene::BasicColoring.get_key_code(), SceneKey::Digit1);
    assert_eq!(PlaygroundScene::PaintCubeFace.get_key_code(), SceneKey::Digit2);
    assert_eq!(PlaygroundScene::RainbowCube.get_key_code(), SceneKey::Digit3);
    assert_eq!(PlaygroundScene::Hologram.get_key_code(), SceneKey::Digit4);
    assert_eq!(PlaygroundScene::CustomRenderPhase.get_key_code(), SceneKey::Digit5);
}

#[test]
fn iter_offers_scenes_in_declaration_order() {
    assert_eq!(
        PlaygroundScene::iter(),
        vec![
            PlaygroundScene::BasicColoring,
            PlaygroundScene::PaintCubeFace,
            PlaygroundScene::RainbowCube,
            PlaygroundScene::Hologram,
            PlaygroundScene::CustomRenderPhase,
        ]
    );
}

#[test]
fn keys_of_distinct_scenes_differ() {
    let scenes = PlaygroundScene::iter();
    for a in &scenes {
        for b in &scenes {
            if a != b {
                assert_ne!(a.get_key_code(), b.get_key_code());
            }
        }
    }
}

#[test]
fn no_key_selects_nothing() {
    assert_eq!(switch_scenes(&vec![]), None);
}

#[test]
fn one_key_selects_its_scene() {
    assert_eq!(switch_scenes(&vec![SceneKey::Digit3]), Some(PlaygroundScene::RainbowCube));
    assert_eq!(switch_scenes(&vec![SceneKey::Digit5]), Some(PlaygroundScene::CustomRenderPhase));
}

#[test]
fn earliest_scene_wins_over_press_order() {
    assert_eq!(
        switch_scenes(&vec![SceneKey::Digit4, SceneKey::Digit2]),
        Some(PlaygroundScene::PaintCubeFace)
    );
    assert_eq!(
        switch_scenes(&vec![SceneKey::Digit5, SceneKey::Digit4, SceneKey::Digit1]),
        Some(PlaygroundScene::BasicColoring)
    );
}
