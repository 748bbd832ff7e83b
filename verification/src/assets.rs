//! Descriptions of the assets that source files hold.
use std::collections::BTreeSet;
use vstd::prelude::*;

verus! {

/// What a source-file handler reports of one asset found in a file:
/// its kind (for example "mesh") and where in the file it lives.
pub struct InitialAssetDescription {
    pub kind: String,
    pub subresource: String,
}

/// An asset tracked by the manifest.
pub struct AssetDescription {
    pub asset_id: u64,
    pub asset_name: String,
    pub asset_type: String,
    pub source_file_path: String,
    pub source_subresource: String,
}

/// A source file tracked by the manifest, with the positions in the
/// manifest's asset list of the assets it contributed.
pub struct AssetSourceFile {
    pub filepath: String,
    pub asset_ids: BTreeSet<usize>,
}

/// Reads a kind of source file (one extension) and reports the assets in it.
pub trait AssetSourceFileHandler {
    /// The file extension this handler reads, without the dot.
    const EXTENSION: &'static str;

    fn extract_assets(filepath: &str) -> Vec<InitialAssetDescription>;
}

} // verus!
