//! Asset preloading: the raw data-file asset and the end-of-loading rule.

pub mod listing;
pub mod preload;
pub mod progress;
pub mod ron_asset;

pub use ron_asset::{RonBytesAsset, RonBytesAssetLoader, RonBytesAssetLoaderSettings};
