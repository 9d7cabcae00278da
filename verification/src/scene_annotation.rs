//! Labels frames with a scene guessed from text, menus and dialog boxes.

use vstd::prelude::*;
use crate::types::{Scene, State, EnrichedFrame, spec_default_state};
use crate::raster::RgbBuffer;
use crate::heuristics::{has_text, has_menu, has_dialog_box, detect_text_simple, detect_menu_simple, detect_dialog_box_bottom};

verus! {

/// Battle when both text and a menu show, main menu for a menu alone, intro
/// for text or a dialog box alone, otherwise unknown.
pub open spec fn scene_from_cues(text: bool, menu: bool, dialog: bool) -> Scene {
    if text && menu {
        Scene::Battle
    } else if menu {
        Scene::MainMenu
    } else if text || dialog {
        Scene::Intro
    } else {
        Scene::Unknown
    }
}

pub open spec fn image_scene(img: RgbBuffer) -> Scene {
    scene_from_cues(has_text(img), has_menu(img), has_dialog_box(img))
}

/// The state after annotating with `scene`: the scene replaced in an
/// existing state, or a fresh state for that scene.
pub open spec fn annotated_state(state: Option<State>, scene: Scene) -> Option<State> {
    match state {
        Some(s) => Some(State { scene, ..s }),
        None => Some(spec_default_state(scene)),
    }
}

/// Builds a scene annotation service. The capacity and false-positive rate
/// (in millionths) are kept for callers that still pass them; scene hashes
/// are accepted and ignored, as the service labels frames by heuristics.
#[derive(Clone, Copy, Debug)]
pub struct SceneAnnotationServiceBuilder {
    pub capacity: usize,
    pub fp_rate_ppm: u64,
}

impl SceneAnnotationServiceBuilder {
    pub fn new(capacity: usize, fp_rate_ppm: u64) -> (r: SceneAnnotationServiceBuilder)
        ensures r.capacity == capacity, r.fp_rate_ppm == fp_rate_ppm,
    {
        SceneAnnotationServiceBuilder { capacity, fp_rate_ppm }
    }

    /// The same builder; the scene's hashes play no part.
    pub fn with_scene(self, scene: Scene, hashes: Vec<String>) -> (r: SceneAnnotationServiceBuilder)
        ensures r == self,
    {
        self
    }

    pub fn build(self) -> (r: SceneAnnotationService) {
        SceneAnnotationService {}
    }
}

/// Scene annotation by image heuristics.
#[derive(Clone, Copy)]
pub struct SceneAnnotationService {}

impl SceneAnnotationService {
    pub fn new(_unused: ()) -> (r: SceneAnnotationService) {
        SceneAnnotationService {}
    }

    /// The scene the image suggests.
    pub fn detect_scene(&self, frame: &RgbBuffer) -> (r: Scene)
        ensures r == image_scene(*frame),
    {
        let has_text = detect_text_simple(frame);
        let has_menu = detect_menu_simple(frame);
        let has_dialog = detect_dialog_box_bottom(frame);
        if has_text && has_menu {
            return Scene::Battle;
        }
        if has_menu {
            return Scene::MainMenu;
        }
        if has_text || has_dialog {
            return Scene::Intro;
        }
        Scene::Unknown
    }

    /// The frame with its scene set from its image; every other part is
    /// kept.
    pub fn annotate(&self, frame: EnrichedFrame) -> (r: EnrichedFrame)
        ensures
            r.state == annotated_state(frame.state, image_scene(frame.image)),
            r.client == frame.client,
            r.image == frame.image,
            r.timestamp == frame.timestamp,
            r.program == frame.program,
            r.id == frame.id,
            r.action == frame.action,
    {
        let scene = self.detect_scene(&frame.image);
        let mut frame = frame;
        match frame.state {
            Some(s) => {
                frame.state = Some(State { scene, ..s });
            },
            None => {
                frame.state = Some(State::new(scene));
            },
        }
        frame
    }
}

} // verus!
