use sketch_assist::inference::{result_image_stem, ImageClass, InferenceState};

#[test]
fn timer_arms_inference_only_when_finished() {
    assert_eq!(InferenceState::Wait.after_timer(true), InferenceState::Infer);
    assert_eq!(InferenceState::Wait.after_timer(false), InferenceState::Wait);
    assert_eq!(InferenceState::Infer.after_timer(false), InferenceState::Infer);
    assert_eq!(InferenceState::Infer.after_timer(true), InferenceState::Infer);
}

#[test]
fn armed_key_press_runs_and_disarms() {
    let plan = InferenceState::Infer.plan_frame(false, true);
    assert!(plan.run);
    assert_eq!(plan.next, InferenceState::Wait);
}

#[test]
fn cleared_canvas_skips_inference() {
    let plan = InferenceState::Infer.plan_frame(true, true);
    assert!(!plan.run);
    assert_eq!(plan.next, InferenceState::Infer);
}

#[test]
fn unarmed_or_no_key_skips_inference() {
    let plan = InferenceState::Wait.plan_frame(false, true);
    assert!(!plan.run);
    assert_eq!(plan.next, InferenceState::Wait);
    let plan = InferenceState::Infer.plan_frame(false, false);
    assert!(!plan.run);
    assert_eq!(plan.next, InferenceState::Infer);
}

#[test]
fn classes_are_numbered_from_one() {
    assert_eq!(ImageClass::from_index(1), Some(ImageClass::Rabbit));
    assert_eq!(ImageClass::from_index(2), Some(ImageClass::Axe));
    assert_eq!(ImageClass::from_index(3), Some(ImageClass::SmileyFace));
    assert_eq!(ImageClass::from_index(0), None);
    assert_eq!(ImageClass::from_index(4), None);
    assert_eq!(ImageClass::SmileyFace.index(), 3);
}

#[test]
fn image_stems_per_class() {
    assert_eq!(result_image_stem(1), "rabbit");
    assert_eq!(result_image_stem(2), "axe");
    assert_eq!(result_image_stem(3), "smile");
    assert_eq!(result_image_stem(0), "err");
    assert_eq!(result_image_stem(17), "err");
}
