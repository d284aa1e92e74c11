//! Plain-value stand-ins for the host engine's asset handles.
//!
//! The builder never looks inside an asset; it only records which one a style
//! refers to. A handle is therefore carried as a plain identifier that the
//! surrounding application maps to the host engine's own handle type.

use vstd::prelude::*;

verus! {

/// An identifier for an image asset held by the host engine.
#[derive(Debug, Clone, Copy, PartialEq, Eq)]
pub struct ImageHandle {
    /// The application's identifier for the asset; zero names the host
    /// engine's default image.
    pub id: u64,
}

impl Default for ImageHandle {
    /// The default handle names the host engine's default image.
    fn default() -> (r: Self)
        ensures
            r == (ImageHandle { id: 0u64 }),
    {
        ImageHandle { id: 0 }
    }
}

/// An identifier for a font asset held by the host engine.
#[derive(Debug, Clone, Copy, PartialEq, Eq)]
pub struct FontHandle {
    /// The application's identifier for the asset; zero names the host
    /// engine's default font.
    pub id: u64,
}

impl Default for FontHandle {
    /// The default handle names the host engine's default font.
    fn default() -> (r: Self)
        ensures
            r == (FontHandle { id: 0u64 }),
    {
        FontHandle { id: 0 }
    }
}

} // verus!
