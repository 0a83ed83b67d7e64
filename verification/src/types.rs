use vstd::prelude::*;

verus! {

/// The player model whose mesh a skin texture is drawn on.
#[derive(Clone, Copy, Debug, PartialEq, Eq, Structural)]
pub enum Skin {
    Alex,
    Steve,
    SteveOld,
}

/// A mesh or a texture could not be loaded.
#[derive(Clone, Copy, Debug, PartialEq, Eq, Structural)]
pub struct LoadError;

impl LoadError {
    /// The text shown for this error.
    pub fn message(&self) -> (s: &'static str)
        ensures
            s@ == "load failed"@,
    {
        "load failed"
    }
}

/// Target dimensions of a resize, in pixels.
#[derive(Clone, Copy, Debug, PartialEq, Eq, Structural)]
pub struct ResizeImage {
    pub width: u32,
    pub height: u32,
}

} // verus!
