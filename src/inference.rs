//! When the classifier runs, and what its answer names.
use vstd::prelude::*;

verus! {

/// Whether a classification is due. A repeating timer arms it; running the
/// classifier disarms it.
#[derive(Clone, Copy, Debug, PartialEq, Eq, Structural)]
pub enum InferenceState {
    Wait,
    Infer,
}

/// What one frame does about classification.
#[derive(Clone, Copy, Debug, PartialEq, Eq, Structural)]
pub struct FramePlan {
    /// Run the classifier on the canvas in this frame.
    pub run: bool,
    /// The state that the next frame starts from.
    pub next: InferenceState,
}

impl InferenceState {
    /// The state after a tick of the inference timer: a timer that has run out
    /// arms classification, otherwise nothing changes.
    pub fn after_timer(self, finished: bool) -> (r: InferenceState)
        ensures
            r == (if finished {
                InferenceState::Infer
            } else {
                self
            }),
    {
        if finished {
            InferenceState::Infer
        } else {
            self
        }
    }

    /// Decides a frame: the classifier runs when it is armed and the key that
    /// asks for it was pressed, unless the canvas was cleared in this frame,
    /// since a blank canvas has nothing to classify. A run disarms it.
    pub fn plan_frame(self, canvas_cleared: bool, infer_key_pressed: bool) -> (r: FramePlan)
        ensures
            r.run == (!canvas_cleared && infer_key_pressed && self == InferenceState::Infer),
            r.next == (if r.run {
                InferenceState::Wait
            } else {
                self
            }),
    {
        let run = !canvas_cleared && infer_key_pressed && self == InferenceState::Infer;
        if run {
            FramePlan { run, next: InferenceState::Wait }
        } else {
            FramePlan { run, next: self }
        }
    }
}

/// The kinds of sketch that the classifier tells apart. Its scores come in
/// this order, and the first of them is class number 1.
#[derive(Clone, Copy, Debug, PartialEq, Eq, Structural)]
pub enum ImageClass {
    Rabbit,
    Axe,
    SmileyFace,
}

/// The class with number `index`, counting from 1.
pub open spec fn class_of(index: u32) -> Option<ImageClass> {
    if index == 1 {
        Some(ImageClass::Rabbit)
    } else if index == 2 {
        Some(ImageClass::Axe)
    } else if index == 3 {
        Some(ImageClass::SmileyFace)
    } else {
        None
    }
}

/// The number of a class, counting from 1.
pub open spec fn index_of(class: ImageClass) -> u32 {
    match class {
        ImageClass::Rabbit => 1,
        ImageClass::Axe => 2,
        ImageClass::SmileyFace => 3,
    }
}

/// The start of the names of the pictures shown for a class number; numbers
/// that name no class get the error pictures.
pub open spec fn stem_of(index: u32) -> Seq<char> {
    match class_of(index) {
        Some(ImageClass::Rabbit) => "rabbit"@,
        Some(ImageClass::Axe) => "axe"@,
        Some(ImageClass::SmileyFace) => "smile"@,
        None => "err"@,
    }
}

impl ImageClass {
    /// The class with number `index`, counting from 1; `None` for a number
    /// that names no class.
    pub fn from_index(index: u32) -> (r: Option<ImageClass>)
        ensures
            r == class_of(index),
    {
        if index == 1 {
            Some(ImageClass::Rabbit)
        } else if index == 2 {
            Some(ImageClass::Axe)
        } else if index == 3 {
            Some(ImageClass::SmileyFace)
        } else {
            None
        }
    }

    /// The number of this class, counting from 1.
    pub fn index(&self) -> (r: u32)
        ensures
            r == index_of(*self),
            class_of(r) == Some(*self),
    {
        match self {
            ImageClass::Rabbit => 1,
            ImageClass::Axe => 2,
            ImageClass::SmileyFace => 3,
        }
    }
}

/// The start of the names of the pictures shown for class number `index`:
/// "rabbit", "axe" or "smile", and "err" for a number that names no class.
pub fn result_image_stem(index: u32) -> (r: &'static str)
    ensures
        r@ == stem_of(index),
{
    match ImageClass::from_index(index) {
        Some(ImageClass::Rabbit) => "rabbit",
        Some(ImageClass::Axe) => "axe",
        Some(ImageClass::SmileyFace) => "smile",
        None => "err",
    }
}

} // verus!
