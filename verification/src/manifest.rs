//! The manifest data model: a playlist of downloadable items.
//!
//! Parsing the manifest document is an external collaborator's job; this
//! module holds the parsed shape and the validity rule the pipeline depends
//! on: every item must carry a non-empty key, since the key alone determines
//! the download URL.

use vstd::prelude::*;

verus! {

/// One manifest entry: a single archive to fetch and extract.
pub struct Song {
    /// Opaque identifier used to build the download URL. Required, non-empty.
    pub key: String,
    /// Identifying hash of the expected content. Carried through, not
    /// verified by this design.
    pub hash: String,
    /// Human-readable name, used verbatim as the output subdirectory name.
    pub name: String,
    /// Provenance metadata, unused by the pipeline.
    pub uploader: String,
}

/// The whole manifest: items in order, plus metadata the pipeline ignores.
pub struct Bplist {
    pub playlist_title: String,
    pub playlist_author: String,
    pub playlist_description: String,
    pub sync_url: String,
    /// The ordered items to download.
    pub songs: Vec<Song>,
}

/// An item is valid when its key is non-empty.
pub open spec fn song_valid(s: Song) -> bool {
    s.key@.len() > 0
}

/// A manifest is valid when every item is.
pub open spec fn manifest_valid(m: Bplist) -> bool {
    forall|i: int| 0 <= i < m.songs@.len() ==> song_valid(#[trigger] m.songs@[i])
}

/// A fatal, pre-batch error in the manifest itself.
#[derive(Clone, Copy, Debug, PartialEq, Eq, Structural)]
pub enum ManifestError {
    /// The item at this position has an empty key.
    EmptyKey { index: usize },
}

/// Checks the manifest before any download is attempted: succeeds exactly
/// when every item carries a non-empty key, and otherwise names the first
/// item that does not.
pub fn validate(m: &Bplist) -> (r: Result<(), ManifestError>)
    ensures
        r is Ok <==> manifest_valid(*m),
        r matches Err(ManifestError::EmptyKey { index }) ==> {
            &&& index < m.songs@.len()
            &&& !song_valid(m.songs@[index as int])
            &&& forall|j: int| 0 <= j < index ==> song_valid(#[trigger] m.songs@[j])
        },
{
    let n = m.songs.len();
    let mut i: usize = 0;
    while i < n
        invariant
            n == m.songs@.len(),
            0 <= i <= n,
            forall|j: int| 0 <= j < i ==> song_valid(#[trigger] m.songs@[j]),
        decreases n - i,
    {
        if m.songs[i].key.as_str().is_empty() {
            return Err(ManifestError::EmptyKey { index: i });
        }
        i = i + 1;
    }
    Ok(())
}

} // verus!
