//! A data file preloaded as raw bytes (not yet parsed into game data).

use vstd::prelude::*;

verus! {

/// A preloaded data file's raw bytes.
#[derive(Clone, Debug, PartialEq, Eq)]
pub struct RonBytesAsset(pub Vec<u8>);

/// Loads [`RonBytesAsset`]s.
#[derive(Clone, Copy, Debug, PartialEq, Eq, Default, Structural)]
pub struct RonBytesAssetLoader;

/// [`RonBytesAssetLoader`]'s (empty) settings.
#[derive(Clone, Copy, Debug, PartialEq, Eq, Default, Structural)]
pub struct RonBytesAssetLoaderSettings;

impl RonBytesAssetLoader {
    /// The file extension the loader takes.
    pub fn extension(&self) -> (r: &'static str)
        ensures
            r@ == "ron"@,
    {
        "ron"
    }
}

impl RonBytesAsset {
    /// The asset holding the bytes read from a file.
    pub fn from_bytes(bytes: Vec<u8>) -> (r: RonBytesAsset)
        ensures
            r.0@ == bytes@,
    {
        RonBytesAsset(bytes)
    }
}

} // verus!
