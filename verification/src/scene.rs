//! The playground scenes and the keys that switch between them.
use vstd::prelude::*;

verus! {

/// A scene of the playground. The declaration order is the order in which
/// scenes are offered for selection.
#[derive(Debug, Clone, Copy, PartialEq, Eq, Structural, Hash)]
pub enum PlaygroundScene {
    BasicColoring,
    PaintCubeFace,
    RainbowCube,
    Hologram,
    CustomRenderPhase,
}

/// The digit keys of the top row that select a scene.
#[derive(Debug, Clone, Copy, PartialEq, Eq, Structural, Hash)]
pub enum SceneKey {
    Digit1,
    Digit2,
    Digit3,
    Digit4,
    Digit5,
}

/// The scenes in the order in which they are offered.
pub open spec fn scene_order() -> Seq<PlaygroundScene> {
    seq![
        PlaygroundScene::BasicColoring,
        PlaygroundScene::PaintCubeFace,
        PlaygroundScene::RainbowCube,
        PlaygroundScene::Hologram,
        PlaygroundScene::CustomRenderPhase,
    ]
}

/// The key bound to each scene.
pub open spec fn key_of(scene: PlaygroundScene) -> SceneKey {
    match scene {
        PlaygroundScene::BasicColoring => SceneKey::Digit1,
        PlaygroundScene::PaintCubeFace => SceneKey::Digit2,
        PlaygroundScene::RainbowCube => SceneKey::Digit3,
        PlaygroundScene::Hologram => SceneKey::Digit4,
        PlaygroundScene::CustomRenderPhase => SceneKey::Digit5,
    }
}

/// The first scene of `order` whose key is among `pressed`.
pub open spec fn first_selected(order: Seq<PlaygroundScene>, pressed: Seq<SceneKey>) -> Option<
    PlaygroundScene,
>
    decreases order.len(),
{
    if order.len() == 0 {
        None
    } else if pressed.contains(key_of(order[0])) {
        Some(order[0])
    } else {
        first_selected(order.drop_first(), pressed)
    }
}

impl Default for PlaygroundScene {
    fn default() -> (s: Self)
        ensures
            s == PlaygroundScene::BasicColoring,
    {
        PlaygroundScene::BasicColoring
    }
}

impl PlaygroundScene {
    /// The key that selects this scene.
    pub fn get_key_code(&self) -> (k: SceneKey)
        ensures
            k == key_of(*self),
    {
        match self {
            PlaygroundScene::BasicColoring => SceneKey::Digit1,
            PlaygroundScene::PaintCubeFace => SceneKey::Digit2,
            PlaygroundScene::RainbowCube => SceneKey::Digit3,
            PlaygroundScene::Hologram => SceneKey::Digit4,
            PlaygroundScene::CustomRenderPhase => SceneKey::Digit5,
        }
    }

    /// Every scene, in the order in which they are offered.
    pub fn iter() -> (v: Vec<PlaygroundScene>)
        ensures
            v@ == scene_order(),
    {
        vec![
            PlaygroundScene::BasicColoring,
            PlaygroundScene::PaintCubeFace,
            PlaygroundScene::RainbowCube,
            PlaygroundScene::Hologram,
            PlaygroundScene::CustomRenderPhase,
        ]
    }
}

fn key_pressed(pressed: &Vec<SceneKey>, key: SceneKey) -> (r: bool)
    ensures
        r == pressed@.contains(key),
{
    let mut i: usize = 0;
    while i < pressed.len()
        invariant
            i <= pressed.len(),
            forall|j: int| 0 <= j < i ==> pressed@[j] != key,
        decreases pressed.len() - i,
    {
        if pressed[i] == key {
            return true;
        }
        i = i + 1;
    }
    false
}

/// The scene that the keys pressed this frame ask for: the first scene, in the
/// order of `PlaygroundScene::iter`, whose key is among `just_pressed`, or
/// `None` where no scene key was pressed.
pub fn switch_scenes(just_pressed: &Vec<SceneKey>) -> (r: Option<PlaygroundScene>)
    ensures
        r == first_selected(scene_order(), just_pressed@),
{
    let scenes = PlaygroundScene::iter();
    let mut i: usize = 0;
    assert(scene_order().skip(0) =~= scene_order());
    while i < scenes.len()
        invariant
            i <= scenes.len(),
            scenes@ == scene_order(),
            first_selected(scene_order(), just_pressed@) == first_selected(
                scene_order().skip(i as int),
                just_pressed@,
            ),
        decreases scenes.len() - i,
    {
        let scene = scenes[i];
        assert(scene_order().skip(i as int).drop_first() =~= scene_order().skip(i + 1));
        if key_pressed(just_pressed, scene.get_key_code()) {
            return Some(scene);
        }
        i = i + 1;
    }
    assert(scene_order().skip(i as int).len() == 0);
    None
}

/// Distinct scenes are bound to distinct keys, so a key selects at most one
/// scene.
pub proof fn lemma_keys_distinct(a: PlaygroundScene, b: PlaygroundScene)
    requires
        a != b,
    ensures
        key_of(a) != key_of(b),
{
}

/// `PlaygroundScene::iter` offers every scene, and each scene once.
pub proof fn lemma_scene_order_complete(s: PlaygroundScene)
    ensures
        scene_order().contains(s),
        forall|i: int, j: int|
            0 <= i < scene_order().len() && 0 <= j < scene_order().len() && scene_order()[i]
                == scene_order()[j] ==> i == j,
{
    match s {
        PlaygroundScene::BasicColoring => assert(scene_order()[0] == s),
        PlaygroundScene::PaintCubeFace => assert(scene_order()[1] == s),
        PlaygroundScene::RainbowCube => assert(scene_order()[2] == s),
        PlaygroundScene::Hologram => assert(scene_order()[3] == s),
        PlaygroundScene::CustomRenderPhase => assert(scene_order()[4] == s),
    }
}

proof fn lemma_first_selected(order: Seq<PlaygroundScene>, pressed: Seq<SceneKey>)
    ensures
        first_selected(order, pressed) matches Some(s) ==> exists|k: int|
            0 <= k < order.len() && order[k] == s && pressed.contains(key_of(s)) && forall|j: int|
                0 <= j < k ==> !pressed.contains(#[trigger] key_of(order[j])),
        first_selected(order, pressed) is None ==> forall|j: int|
            0 <= j < order.len() ==> !pressed.contains(#[trigger] key_of(order[j])),
    decreases order.len(),
{
    if order.len() > 0 && !pressed.contains(key_of(order[0])) {
        let rest = order.drop_first();
        lemma_first_selected(rest, pressed);
        if let Some(s) = first_selected(rest, pressed) {
            let k: int = choose|k: int|
                0 <= k < rest.len() && rest[k] == s && pressed.contains(key_of(s)) && forall|j: int|
                    0 <= j < k ==> !pressed.contains(#[trigger] key_of(rest[j]));
            assert forall|j: int| 0 <= j < k + 1 implies !pressed.contains(
                #[trigger] key_of(order[j]),
            ) by {
                if j > 0 {
                    assert(order[j] == rest[j - 1]);
                }
            }
            assert(order[k + 1] == s);
        } else {
            assert forall|j: int| 0 <= j < order.len() implies !pressed.contains(
                #[trigger] key_of(order[j]),
            ) by {
                if j > 0 {
                    assert(order[j] == rest[j - 1]);
                }
            }
        }
    } else if order.len() > 0 {
        assert(order[0] == order[0]);
    }
}

/// The scene that `switch_scenes` asks for is one whose key was pressed, and
/// no scene offered before it had its key pressed; it asks for none exactly
/// when no scene key was pressed.
pub proof fn lemma_switch_selects_first(pressed: Seq<SceneKey>)
    ensures
        first_selected(scene_order(), pressed) matches Some(s) ==> pressed.contains(key_of(s))
            && forall|j: int|
            0 <= j < scene_order().len() && scene_order()[j] != s && pressed.contains(
                #[trigger] key_of(scene_order()[j]),
            ) ==> exists|k: int| 0 <= k < j && scene_order()[k] == s,
        first_selected(scene_order(), pressed) is None <==> pressed.len() == 0,
{
    let order = scene_order();
    lemma_first_selected(order, pressed);
    if let Some(s) = first_selected(order, pressed) {
        let k: int = choose|k: int|
            0 <= k < order.len() && order[k] == s && pressed.contains(key_of(s)) && forall|j: int|
                0 <= j < k ==> !pressed.contains(#[trigger] key_of(order[j]));
        assert forall|j: int|
            0 <= j < order.len() && order[j] != s && pressed.contains(
                #[trigger] key_of(order[j]),
            ) implies exists|k2: int| 0 <= k2 < j && order[k2] == s by {
            if j <= k {
                assert(j != k);
            }
            assert(0 <= k < j);
        }
        assert(pressed.contains(key_of(s)));
        assert(pressed.len() != 0);
    } else {
        if pressed.len() != 0 {
            let key = pressed[0];
            assert(pressed.contains(key));
            let j: int = match key {
                SceneKey::Digit1 => 0,
                SceneKey::Digit2 => 1,
                SceneKey::Digit3 => 2,
                SceneKey::Digit4 => 3,
                SceneKey::Digit5 => 4,
            };
            assert(key_of(order[j]) == key);
            assert(false);
        }
    }
}

/// Each scene is bound to its digit, in order: the first scene to 1, the
/// second to 2, and so on; the scenes are offered in declaration order.
pub proof fn lemma_key_table()
    ensures
        key_of(PlaygroundScene::BasicColoring) == SceneKey::Digit1,
        key_of(PlaygroundScene::PaintCubeFace) == SceneKey::Digit2,
        key_of(PlaygroundScene::RainbowCube) == SceneKey::Digit3,
        key_of(PlaygroundScene::Hologram) == SceneKey::Digit4,
        key_of(PlaygroundScene::CustomRenderPhase) == SceneKey::Digit5,
        scene_order().len() == 5,
        scene_order()[0] == PlaygroundScene::BasicColoring,
        scene_order()[1] == PlaygroundScene::PaintCubeFace,
        scene_order()[2] == PlaygroundScene::RainbowCube,
        scene_order()[3] == PlaygroundScene::Hologram,
        scene_order()[4] == PlaygroundScene::CustomRenderPhase,
{
}

} // verus!
