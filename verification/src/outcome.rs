//! Terminal outcomes of one item's pipeline run.
//!
//! Every item ends in exactly one outcome: success, or a failure that carries
//! the item's key, its display name and a human-readable cause. The batch
//! orchestrator accumulates these and never drops one.

use vstd::prelude::*;

verus! {

/// The kind of error that ended an item's run.
#[derive(Clone, Copy, Debug, PartialEq, Eq, Structural)]
pub enum ItemError {
    /// The download itself failed: connection failure, non-success status,
    /// or timeout.
    DownloadFailed,
    /// Temporary storage for the downloaded bytes could not be created or
    /// written.
    StagingError,
    /// The destination subdirectory already exists or could not be created,
    /// or an extracted entry could not be written beneath it.
    FilesystemError,
    /// The staged bytes are not a valid archive, or an entry of it could not
    /// be read.
    ArchiveError,
}

/// A failed item: which item, and why.
#[derive(Clone, Debug)]
pub struct Failure {
    /// The item's download key.
    pub key: String,
    /// The item's display name, under which its directory would have been
    /// created.
    pub name: String,
    /// What went wrong.
    pub kind: ItemError,
    /// Human-readable detail of the cause.
    pub detail: String,
}

/// The terminal result of processing one item.
#[derive(Clone, Debug)]
pub enum Outcome {
    /// All archive entries were staged and extracted.
    Success,
    /// The item failed; siblings are unaffected.
    Failed(Failure),
}

/// The failure identifies its item and carries the given error kind.
pub open spec fn failure_matches(f: Failure, key: Seq<char>, name: Seq<char>, kind: ItemError) -> bool {
    &&& f.key@ == key
    &&& f.name@ == name
    &&& f.kind == kind
}

} // verus!
