use vstd::prelude::*;

verus! {

/// Errors of the engine. Messages from the filesystem or the version store
/// are carried as text.
#[derive(Debug)]
pub enum GsbError {
    Io(String),
    ConfigFormat(String),
    ConfigNotFound,
    Git(String),
    RepoRootNotFound,
    DeviceNameError,
    /// An item has no path on this device: the item's repo path and the device.
    SourcePathNotFound(String, String),
    /// A hardlink could not be created: source and destination.
    HardlinkFailed(String, String),
    /// A pull needed a merge that is not fast-forward.
    MergeConflict,
    /// Two items of a configuration share this repo path.
    DuplicateItem(String),
    /// A repo path that is empty or absolute.
    InvalidItemPath(String),
    /// Items of a collect or restore failed: every error, in item order.
    ItemsFailed(Vec<GsbError>),
}

} // verus!
