//! The engine's virtual file system: drives, files, and the assets backed by
//! them.
use std::rc::Rc;
use vstd::prelude::*;

verus! {

/// Where an asset is looked up.
#[derive(Debug, Clone, Copy, PartialEq, Eq, Structural)]
pub enum AssetDrive {
    /// Resources local to the project path.
    Res,
    /// Resources in the user's application data directory.
    Usr,
    /// Resources local to the engine path.
    Priv,
}

/// Whether a file entry is a file or a directory.
#[derive(Debug, Clone, Copy, PartialEq, Eq, Structural)]
pub enum FileType {
    File,
    Directory,
}

pub type AssetId = u64;

pub type FileId = u64;

/// A file or directory of a drive, with the assets that rely on it.
pub struct File {
    pub file_type: FileType,
    pub size: usize,
    pub name: String,
    pub relative_path: String,
    pub absolute_path: String,
    pub child_files: Vec<File>,
    pub borrows: Vec<AssetId>,
}

/// Watches a file for changes.
pub struct FileWatcher {
    pub file: File,
}

/// A drive: its root path, its root directory and the watcher of it.
pub struct FileDrive {
    pub root_path: String,
    pub root_file: File,
    pub watcher: FileWatcher,
}

/// The kinds of asset files.
#[derive(Debug, Clone, Copy, PartialEq, Eq, Structural)]
pub enum AssetType {
    Unknown,
    ShaderFile,
    ShaderBinary,
    /// An external mesh that has not been imported.
    MeshGltf,
    /// A mesh converted to the engine's own format.
    MeshChibi,
    Material,
    Texture,
}

/// An asset, the file that backs it and the file of its metadata.
#[derive(Debug, Clone, Copy, PartialEq, Eq, Structural)]
pub struct Asset {
    pub asset_type: AssetType,
    pub id: AssetId,
    pub file_id: FileId,
    pub meta_file_id: FileId,
}

/// The drives assets are loaded from.
pub struct AssetSystem {
    pub resource_drive: Rc<FileDrive>,
    pub user_drive: Rc<FileDrive>,
    pub priv_drive: Rc<FileDrive>,
}

impl AssetSystem {
    /// Sets up the asset system; nothing is set up yet.
    pub fn new() {
    }

    /// Loads an asset by name; not implemented yet, so nothing is loaded.
    pub fn load_asset_by_name(drive: AssetDrive, name: &str) {
    }

    /// Loads an asset by path; not implemented yet, so nothing is loaded.
    pub fn load_asset_by_path(drive: AssetDrive, path: &str) {
    }

    /// Loads an asset by id; not implemented yet, so nothing is loaded.
    pub fn load_asset_by_id(drive: AssetDrive, id: AssetId) {
    }
}

} // verus!
