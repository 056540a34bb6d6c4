//! Marker types naming the coordinate frames of a device. They carry no
//! runtime data, and no value of them can be built outside this module (their
//! one variant holds a type with a private field), so they only ever serve as
//! type tags on transforms.

use vstd::prelude::*;

verus! {

/// A type that only this module can build.
#[derive(Clone, Copy, Debug)]
pub struct Unconstructible(());

/// The coordinate space of the viewer.
#[derive(Clone, Copy, Debug)]
pub enum Viewer {
    Tag(Unconstructible),
}

/// The coordinate space of the floor.
#[derive(Clone, Copy, Debug)]
pub enum Floor {
    Tag(Unconstructible),
}

/// The coordinate space of the left eye.
#[derive(Clone, Copy, Debug)]
pub enum LeftEye {
    Tag(Unconstructible),
}

/// The coordinate space of the right eye.
#[derive(Clone, Copy, Debug)]
pub enum RightEye {
    Tag(Unconstructible),
}

/// The native 3D coordinate space of the device.
#[derive(Clone, Copy, Debug)]
pub enum Native {
    Tag(Unconstructible),
}

/// The normalized device coordinate space, where the display spans (-1,-1) to (1,1).
#[derive(Clone, Copy, Debug)]
pub enum Display {
    Tag(Unconstructible),
}

/// The unnormalized device coordinate space, measured in pixels.
#[derive(Clone, Copy, Debug)]
pub enum Viewport {
    Tag(Unconstructible),
}

/// The coordinate space of an input device.
#[derive(Clone, Copy, Debug)]
pub enum Input {
    Tag(Unconstructible),
}

/// The coordinate space of a secondary capture view.
#[derive(Clone, Copy, Debug)]
pub enum Capture {
    Tag(Unconstructible),
}

} // verus!
