//! Checks on a scene description's settings before a render starts.
//!
//! Reading and decoding the document happen where files can be read; what
//! they produce is checked here, and each way of failing has an error kind of
//! its own.
use vstd::prelude::*;

verus! {

/// Why a scene description cannot be rendered.
#[derive(Debug)]
pub enum SceneError {
    /// The document could not be read.
    Io(String),
    /// The document is malformed, or names an unknown geometry or material.
    Parse(String),
    /// The frame has no pixel: its width or its height is zero.
    EmptyFrame,
    /// No sample is drawn per pixel, so no pixel has a value.
    NoSamples,
    /// The frame holds more pixels than this machine can address.
    FrameTooLarge,
    /// A sphere's radius is not positive.
    BadRadius,
    /// The camera looks along the world's up axis, or at its own position,
    /// so that no orthonormal basis can be built.
    DegenerateCamera,
}

/// Reads scene descriptions.
pub struct Parser {}

impl Parser {
    /// Checks the frame and sampling settings of a description, and gives the
    /// number of pixels of the frame.
    pub fn check_settings(width: u32, height: u32, samples: u32) -> (r: Result<usize, SceneError>)
        ensures
            (width == 0 || height == 0) <==> r matches Err(SceneError::EmptyFrame),
            (width > 0 && height > 0 && samples == 0) <==> r matches Err(SceneError::NoSamples),
            (width > 0 && height > 0 && samples > 0 && width as int * height as int
                > usize::MAX) <==> r matches Err(SceneError::FrameTooLarge),
            r matches Ok(n) ==> n as int == width as int * height as int,
            r is Ok || r matches Err(SceneError::EmptyFrame) || r matches Err(SceneError::NoSamples)
                || r matches Err(SceneError::FrameTooLarge),
    {
        if width == 0 || height == 0 {
            return Err(SceneError::EmptyFrame);
        }
        if samples == 0 {
            return Err(SceneError::NoSamples);
        }
        match crate::grid::pixel_count(width, height) {
            Some(n) => Ok(n),
            None => Err(SceneError::FrameTooLarge),
        }
    }
}

} // verus!
