//! The per-item pipeline: acquire a gate permit, download, stage, release the
//! permit, create the destination directory, extract, report.
//!
//! The pipeline is a state machine. The surrounding program performs each
//! outside effect (the HTTP request, the temporary file, the directory, the
//! entry writes) and feeds the result back as an [`Event`]; `step` decides
//! what happens next and answers with the next [`Action`]. Archive decoding
//! is the one outside computation made here, behind a trusted wrapper, so
//! that everything from staged bytes to planned entry writes is verified.
//!
//! Failure is per item: every path through the machine ends in exactly one
//! terminal [`Outcome`], and a held permit is always released before the
//! terminal state is reached.

use vstd::prelude::*;
use vstd::pervasive::unreached;
use vstd::string::StringExecFns;

use crate::outcome::{failure_matches, Failure, ItemError, Outcome};
use crate::manifest::Song;

verus! {

/// The fixed download endpoint; the item key is appended as one path segment.
pub fn base_url() -> (s: &'static str)
    ensures
        s@ == base_url_spec(),
{
    "https://api.beatsaver.com/download/key"
}

pub open spec fn base_url_spec() -> Seq<char> {
    "https://api.beatsaver.com/download/key"@
}

/// `{base}/{segment}`.
pub open spec fn join_spec(base: Seq<char>, segment: Seq<char>) -> Seq<char> {
    base + "/"@ + segment
}

/// The URL an item is fetched from: `{baseURL}/{key}`.
pub open spec fn download_url_spec(key: Seq<char>) -> Seq<char> {
    join_spec(base_url_spec(), key)
}

/// The directory one item extracts into: `{root}/{name}`.
pub open spec fn item_dir_spec(root: Seq<char>, name: Seq<char>) -> Seq<char> {
    join_spec(root, name)
}

/// Where one archive entry lands: `{root}/{name}/{entry}`.
pub open spec fn entry_path_spec(root: Seq<char>, name: Seq<char>, entry: Seq<char>) -> Seq<char> {
    join_spec(item_dir_spec(root, name), entry)
}

/// Join two path segments with a single separator.
fn join_path(base: &str, segment: &str) -> (r: String)
    ensures
        r@ == join_spec(base@, segment@),
{
    let mut s = base.to_owned();
    s.append("/");
    s.append(segment);
    s
}

/// One entry of a downloaded archive, as the trusted decoder hands it out:
/// its name inside the archive, its decompressed bytes, and whether it is a
/// directory entry.
pub struct ArchiveEntry {
    pub name: String,
    pub data: Vec<u8>,
    pub is_dir: bool,
}

impl View for ArchiveEntry {
    type V = (Seq<char>, Seq<u8>, bool);

    open spec fn view(&self) -> (Seq<char>, Seq<u8>, bool) {
        (self.name@, self.data@, self.is_dir)
    }
}

/// What a byte buffer decodes to as an archive: `Some` of the entry list
/// (name, decompressed bytes, directory flag) in archive order when the
/// bytes are a readable archive, `None` when they are not. Decoding is a
/// function of the bytes alone.
pub uninterp spec fn zip_entries(bytes: Seq<u8>) -> Option<Seq<(Seq<char>, Seq<u8>, bool)>>;

/// Relies on zip's `ZipArchive::new`, `len`, `by_index` and `ZipFile`'s
/// `name`, `is_dir` and `Read` impl: together they decode a byte buffer into
/// its list of entries, a function of the bytes alone.
#[verifier::external_body]
fn read_archive(bytes: Vec<u8>) -> (r: Result<Vec<ArchiveEntry>, String>)
    ensures
        (r is Ok) == (zip_entries(bytes@) is Some),
        r matches Ok(v) ==> {
            &&& zip_entries(bytes@) matches Some(es)
            &&& es.len() == v@.len()
            &&& forall|i: int| 0 <= i < v@.len() ==> es[i] == v@[i]@
        },
{
    let mut archive = zip::ZipArchive::new(std::io::Cursor::new(bytes)).map_err(|e| e.to_string())?;
    let mut out: Vec<ArchiveEntry> = Vec::new();
    for i in 0..archive.len() {
        let mut f = archive.by_index(i).map_err(|e| e.to_string())?;
        let mut data: Vec<u8> = Vec::new();
        std::io::Read::read_to_end(&mut f, &mut data).map_err(|e| e.to_string())?;
        out.push(ArchiveEntry { name: f.name().to_owned(), data, is_dir: f.is_dir() });
    }
    Ok(out)
}

/// One planned filesystem write: create the directory `path`, or the file
/// `path` with content `data`.
pub struct EntryWrite {
    pub path: String,
    pub data: Vec<u8>,
    pub is_dir: bool,
}

/// The planned writes mirror the archive entries one for one: same order,
/// each path placed under `{root}/{name}`, each file's bytes verbatim.
pub open spec fn writes_match(
    ws: Seq<EntryWrite>,
    es: Seq<(Seq<char>, Seq<u8>, bool)>,
    root: Seq<char>,
    name: Seq<char>,
) -> bool {
    &&& ws.len() == es.len()
    &&& forall|i: int| 0 <= i < es.len() ==> {
        &&& (#[trigger] ws[i]).path@ == entry_path_spec(root, name, es[i].0)
        &&& ws[i].data@ == es[i].1
        &&& ws[i].is_dir == es[i].2
    }
}

/// Lay out where each archive entry goes: under the item's own directory,
/// with the entry's decompressed bytes copied verbatim, in archive order.
pub fn plan_writes(root: &str, name: &str, entries: Vec<ArchiveEntry>) -> (ws: Vec<EntryWrite>)
    ensures
        writes_match(ws@, Seq::new(entries@.len(), |i: int| entries@[i]@), root@, name@),
{
    let ghost es0: Seq<(Seq<char>, Seq<u8>, bool)> = Seq::new(entries@.len(), |i: int| entries@[i]@);
    let dir = join_path(root, name);
    let mut rest = entries;
    let mut ws: Vec<EntryWrite> = Vec::new();
    while rest.len() > 0
        invariant
            dir@ == item_dir_spec(root@, name@),
            ws@.len() + rest@.len() == es0.len(),
            forall|j: int| 0 <= j < rest@.len() ==> #[trigger] rest@[j]@ == es0[ws@.len() + j],
            forall|i: int| 0 <= i < ws@.len() ==> {
                &&& (#[trigger] ws@[i]).path@ == entry_path_spec(root@, name@, es0[i].0)
                &&& ws@[i].data@ == es0[i].1
                &&& ws@[i].is_dir == es0[i].2
            },
        decreases rest@.len(),
    {
        let e = rest.remove(0);
        proof {
            assert(e@ == es0[ws@.len() as int]);
            assert(forall|j: int|
                0 <= j < rest@.len() ==> #[trigger] rest@[j]@ == es0[ws@.len() + 1 + j]);
        }
        let path = join_path(dir.as_str(), e.name.as_str());
        ws.push(EntryWrite { path, data: e.data, is_dir: e.is_dir });
    }
    ws
}

/// Where one item's pipeline stands: which effect it is waiting on.
pub enum Step {
    /// Waiting for a concurrency gate permit.
    AwaitPermit,
    /// Permit held; waiting for the download to finish.
    AwaitDownload,
    /// Permit held; waiting for the bytes to be staged to temporary storage.
    AwaitStage,
    /// Bytes staged; waiting for the permit to be returned.
    AwaitRelease { bytes: Vec<u8> },
    /// The item already failed; waiting for the permit to be returned before
    /// reporting.
    AwaitReleaseFailed { kind: ItemError, detail: String },
    /// Permit returned; waiting for the destination directory.
    AwaitDir { bytes: Vec<u8> },
    /// Archive decoded; waiting for the planned writes to land.
    AwaitWrites,
    /// Terminal: the item's one outcome.
    Finished { outcome: Outcome },
}

/// What the surrounding program reports back after performing an action.
pub enum Event {
    /// A gate permit was acquired.
    PermitGranted,
    /// The download completed with these body bytes.
    Downloaded { bytes: Vec<u8> },
    /// The download failed: connection failure, non-success status, timeout.
    DownloadFailed { detail: String },
    /// The bytes were written to temporary storage; the buffer comes back
    /// for extraction.
    Staged { bytes: Vec<u8> },
    /// Temporary storage could not be created or written.
    StageFailed { detail: String },
    /// The concurrency permit was returned.
    Released,
    /// The destination directory was created.
    DirCreated,
    /// The destination directory already exists or could not be created.
    DirFailed { detail: String },
    /// Every planned write landed.
    Written,
    /// Some planned write failed.
    WriteFailed { detail: String },
}

/// The next outside effect the surrounding program must perform.
pub enum Action {
    /// Issue the HTTP GET for this URL and report `Downloaded` or
    /// `DownloadFailed`.
    Download { url: String },
    /// Write these bytes to a fresh temporary file and report `Staged` or
    /// `StageFailed`.
    Stage { bytes: Vec<u8> },
    /// Return the concurrency permit and report `Released`.
    ReleasePermit,
    /// Create this directory (failing if it exists) and report `DirCreated`
    /// or `DirFailed`.
    CreateDir { path: String },
    /// Perform these writes in order and report `Written` or `WriteFailed`.
    WriteEntries { writes: Vec<EntryWrite> },
    /// Terminal: hand this outcome to the batch ledger.
    Report { outcome: Outcome },
}

/// One item's pipeline run.
pub struct ItemTask {
    pub song: Song,
    pub dest_root: String,
    pub state: Step,
}

/// Both the terminal state and the reported outcome carry the same failure:
/// this item, this error kind, this detail.
pub open spec fn terminal_failure(
    st: Step,
    a: Action,
    song: Song,
    kind: ItemError,
    detail: Seq<char>,
) -> bool {
    &&& st matches Step::Finished { outcome: Outcome::Failed(f1) }
        && failure_matches(f1, song.key@, song.name@, kind) && f1.detail@ == detail
    &&& a matches Action::Report { outcome: Outcome::Failed(f2) }
        && failure_matches(f2, song.key@, song.name@, kind) && f2.detail@ == detail
}

/// As `terminal_failure`, for a cause whose wording comes from the outside
/// archive reader.
pub open spec fn terminal_failure_any(st: Step, a: Action, song: Song, kind: ItemError) -> bool {
    exists|d: Seq<char>| terminal_failure(st, a, song, kind, d)
}

impl ItemTask {
    /// A fresh task for one item: its first move is to wait for a gate
    /// permit.
    pub fn new(song: Song, dest_root: String) -> (t: ItemTask)
        ensures
            t.song == song,
            t.dest_root == dest_root,
            t.state is AwaitPermit,
    {
        ItemTask { song, dest_root, state: Step::AwaitPermit }
    }

    /// Which events answer the current state.
    pub open spec fn accepts(self, e: Event) -> bool {
        match (self.state, e) {
            (Step::AwaitPermit, Event::PermitGranted) => true,
            (Step::AwaitDownload, Event::Downloaded { .. }) => true,
            (Step::AwaitDownload, Event::DownloadFailed { .. }) => true,
            (Step::AwaitStage, Event::Staged { .. }) => true,
            (Step::AwaitStage, Event::StageFailed { .. }) => true,
            (Step::AwaitRelease { .. }, Event::Released) => true,
            (Step::AwaitReleaseFailed { .. }, Event::Released) => true,
            (Step::AwaitDir { .. }, Event::DirCreated) => true,
            (Step::AwaitDir { .. }, Event::DirFailed { .. }) => true,
            (Step::AwaitWrites, Event::Written) => true,
            (Step::AwaitWrites, Event::WriteFailed { .. }) => true,
            _ => false,
        }
    }

    /// Executable mirror of [`ItemTask::accepts`], so an unverified driver
    /// can test an event before handing it to `step`.
    pub fn can_step(&self, e: &Event) -> (b: bool)
        ensures
            b == self.accepts(*e),
    {
        match (&self.state, e) {
            (Step::AwaitPermit, Event::PermitGranted) => true,
            (Step::AwaitDownload, Event::Downloaded { .. }) => true,
            (Step::AwaitDownload, Event::DownloadFailed { .. }) => true,
            (Step::AwaitStage, Event::Staged { .. }) => true,
            (Step::AwaitStage, Event::StageFailed { .. }) => true,
            (Step::AwaitRelease { .. }, Event::Released) => true,
            (Step::AwaitReleaseFailed { .. }, Event::Released) => true,
            (Step::AwaitDir { .. }, Event::DirCreated) => true,
            (Step::AwaitDir { .. }, Event::DirFailed { .. }) => true,
            (Step::AwaitWrites, Event::Written) => true,
            (Step::AwaitWrites, Event::WriteFailed { .. }) => true,
            _ => false,
        }
    }

    /// The full transition table: what state the task moves to and what
    /// action it asks for, given the event that answered the previous action.
    pub open spec fn step_spec(pre: ItemTask, e: Event, post: ItemTask, a: Action) -> bool {
        &&& post.song == pre.song
        &&& post.dest_root == pre.dest_root
        &&& match (pre.state, e) {
            (Step::AwaitPermit, Event::PermitGranted) => {
                &&& post.state is AwaitDownload
                &&& a matches Action::Download { url } && url@ == download_url_spec(pre.song.key@)
            },
            (Step::AwaitDownload, Event::Downloaded { bytes }) => {
                &&& post.state is AwaitStage
                &&& a matches Action::Stage { bytes: b } && b@ == bytes@
            },
            (Step::AwaitDownload, Event::DownloadFailed { detail }) => {
                &&& post.state matches Step::AwaitReleaseFailed { kind, detail: d }
                    && kind == ItemError::DownloadFailed && d@ == detail@
                &&& a is ReleasePermit
            },
            (Step::AwaitStage, Event::Staged { bytes }) => {
                &&& post.state matches Step::AwaitRelease { bytes: b } && b@ == bytes@
                &&& a is ReleasePermit
            },
            (Step::AwaitStage, Event::StageFailed { detail }) => {
                &&& post.state matches Step::AwaitReleaseFailed { kind, detail: d }
                    && kind == ItemError::StagingError && d@ == detail@
                &&& a is ReleasePermit
            },
            (Step::AwaitRelease { bytes }, Event::Released) => {
                &&& post.state matches Step::AwaitDir { bytes: b } && b@ == bytes@
                &&& a matches Action::CreateDir { path }
                    && path@ == item_dir_spec(pre.dest_root@, pre.song.name@)
            },
            (Step::AwaitReleaseFailed { kind, detail }, Event::Released) => {
                terminal_failure(post.state, a, pre.song, kind, detail@)
            },
            (Step::AwaitDir { bytes }, Event::DirCreated) => {
                match zip_entries(bytes@) {
                    Some(es) => {
                        &&& post.state is AwaitWrites
                        &&& a matches Action::WriteEntries { writes }
                            && writes_match(writes@, es, pre.dest_root@, pre.song.name@)
                    },
                    None => terminal_failure_any(post.state, a, pre.song, ItemError::ArchiveError),
                }
            },
            (Step::AwaitDir { .. }, Event::DirFailed { detail }) => {
                terminal_failure(post.state, a, pre.song, ItemError::FilesystemError, detail@)
            },
            (Step::AwaitWrites, Event::Written) => {
                &&& post.state matches Step::Finished { outcome: Outcome::Success }
                &&& a matches Action::Report { outcome: Outcome::Success }
            },
            (Step::AwaitWrites, Event::WriteFailed { detail }) => {
                terminal_failure(post.state, a, pre.song, ItemError::FilesystemError, detail@)
            },
            _ => false,
        }
    }

    /// Advance the pipeline by one event; returns the task in its next state
    /// and the next action to perform.
    pub fn step(self, event: Event) -> (r: (ItemTask, Action))
        requires
            self.accepts(event),
        ensures
            ItemTask::step_spec(self, event, r.0, r.1),
    {
        let ItemTask { song, dest_root, state } = self;
        match (state, event) {
            (Step::AwaitPermit, Event::PermitGranted) => {
                let url = join_path(base_url(), song.key.as_str());
                (
                    ItemTask { song, dest_root, state: Step::AwaitDownload },
                    Action::Download { url },
                )
            },
            (Step::AwaitDownload, Event::Downloaded { bytes }) => {
                (
                    ItemTask { song, dest_root, state: Step::AwaitStage },
                    Action::Stage { bytes },
                )
            },
            (Step::AwaitDownload, Event::DownloadFailed { detail }) => {
                let state = Step::AwaitReleaseFailed { kind: ItemError::DownloadFailed, detail };
                (ItemTask { song, dest_root, state }, Action::ReleasePermit)
            },
            (Step::AwaitStage, Event::Staged { bytes }) => {
                (
                    ItemTask { song, dest_root, state: Step::AwaitRelease { bytes } },
                    Action::ReleasePermit,
                )
            },
            (Step::AwaitStage, Event::StageFailed { detail }) => {
                let state = Step::AwaitReleaseFailed { kind: ItemError::StagingError, detail };
                (ItemTask { song, dest_root, state }, Action::ReleasePermit)
            },
            (Step::AwaitRelease { bytes }, Event::Released) => {
                let path = join_path(dest_root.as_str(), song.name.as_str());
                (
                    ItemTask { song, dest_root, state: Step::AwaitDir { bytes } },
                    Action::CreateDir { path },
                )
            },
            (Step::AwaitReleaseFailed { kind, detail }, Event::Released) => {
                let f1 = make_failure(&song, kind, &detail);
                let f2 = make_failure(&song, kind, &detail);
                (
                    ItemTask { song, dest_root, state: Step::Finished { outcome: Outcome::Failed(f1) } },
                    Action::Report { outcome: Outcome::Failed(f2) },
                )
            },
            (Step::AwaitDir { bytes }, Event::DirCreated) => {
                match read_archive(bytes) {
                    Ok(entries) => {
                        proof {
                            assert(Seq::new(entries@.len(), |i: int| entries@[i]@)
                                =~= zip_entries(bytes@)->Some_0);
                        }
                        let writes = plan_writes(dest_root.as_str(), song.name.as_str(), entries);
                        (
                            ItemTask { song, dest_root, state: Step::AwaitWrites },
                            Action::WriteEntries { writes },
                        )
                    },
                    Err(detail) => {
                        let f1 = make_failure(&song, ItemError::ArchiveError, &detail);
                        let f2 = make_failure(&song, ItemError::ArchiveError, &detail);
                        let t = ItemTask {
                            song,
                            dest_root,
                            state: Step::Finished { outcome: Outcome::Failed(f1) },
                        };
                        let a = Action::Report { outcome: Outcome::Failed(f2) };
                        proof {
                            assert(terminal_failure(t.state, a, t.song, ItemError::ArchiveError, detail@));
                        }
                        (t, a)
                    },
                }
            },
            (Step::AwaitDir { .. }, Event::DirFailed { detail }) => {
                let f1 = make_failure(&song, ItemError::FilesystemError, &detail);
                let f2 = make_failure(&song, ItemError::FilesystemError, &detail);
                (
                    ItemTask { song, dest_root, state: Step::Finished { outcome: Outcome::Failed(f1) } },
                    Action::Report { outcome: Outcome::Failed(f2) },
                )
            },
            (Step::AwaitWrites, Event::Written) => {
                (
                    ItemTask { song, dest_root, state: Step::Finished { outcome: Outcome::Success } },
                    Action::Report { outcome: Outcome::Success },
                )
            },
            (Step::AwaitWrites, Event::WriteFailed { detail }) => {
                let f1 = make_failure(&song, ItemError::FilesystemError, &detail);
                let f2 = make_failure(&song, ItemError::FilesystemError, &detail);
                (
                    ItemTask { song, dest_root, state: Step::Finished { outcome: Outcome::Failed(f1) } },
                    Action::Report { outcome: Outcome::Failed(f2) },
                )
            },
            _ => unreached(),
        }
    }
}

/// Each item reports exactly once: a step hands out a `Report` action exactly
/// when it enters the terminal state, no event is accepted in the terminal
/// state, and so no run reports twice or finishes silently.
pub proof fn lemma_report_iff_finished(pre: ItemTask, e: Event, post: ItemTask, a: Action)
    requires
        pre.accepts(e),
        ItemTask::step_spec(pre, e, post, a),
    ensures
        (post.state is Finished) <==> (a is Report),
        !(pre.state is Finished),
        forall|e2: Event| post.state is Finished ==> !post.accepts(e2),
{
}

/// Build one item's failure record.
fn make_failure(song: &Song, kind: ItemError, detail: &String) -> (f: Failure)
    ensures
        failure_matches(f, song.key@, song.name@, kind),
        f.detail@ == detail@,
{
    Failure { key: song.key.clone(), name: song.name.clone(), kind, detail: detail.clone() }
}

/// Fan out: one fresh task per manifest item, in manifest order, all bound to
/// the same destination root.
pub fn spawn_tasks(songs: Vec<Song>, dest_root: &str) -> (ts: Vec<ItemTask>)
    ensures
        ts@.len() == songs@.len(),
        forall|i: int| 0 <= i < songs@.len() ==> {
            &&& (#[trigger] ts@[i]).song == songs@[i]
            &&& ts@[i].dest_root@ == dest_root@
            &&& ts@[i].state is AwaitPermit
        },
{
    let ghost songs0 = songs@;
    let mut rest = songs;
    let mut ts: Vec<ItemTask> = Vec::new();
    while rest.len() > 0
        invariant
            ts@.len() + rest@.len() == songs0.len(),
            forall|j: int| 0 <= j < rest@.len() ==> #[trigger] rest@[j] == songs0[ts@.len() + j],
            forall|i: int| 0 <= i < ts@.len() ==> {
                &&& (#[trigger] ts@[i]).song == songs0[i]
                &&& ts@[i].dest_root@ == dest_root@
                &&& ts@[i].state is AwaitPermit
            },
        decreases rest@.len(),
    {
        let song = rest.remove(0);
        let t = ItemTask::new(song, dest_root.to_owned());
        ts.push(t);
    }
    ts
}

} // verus!
