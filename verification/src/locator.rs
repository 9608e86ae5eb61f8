//! Finding the encoder.
//!
//! The encoder is looked for on the search path of the environment, then
//! under a local directory. If it is in neither place an archive of it is
//! fetched and unpacked into the local directory, which is then searched
//! once more. This module decides the order of these steps, which entry of a
//! directory listing is the encoder, whether a failed fetch is tried again,
//! and where an entry of the archive goes. The caller does the searching,
//! fetching and writing.

use vstd::prelude::*;
use vstd::string::StringExecFns;
use crate::paths::file_name;
use crate::paths::join;
use crate::paths::parent;
use crate::paths::path_file_name;
use crate::paths::path_join;
use crate::paths::path_parent;

verus! {

/// How often a fetch of the archive is tried.
pub const DOWNLOAD_ATTEMPTS: u32 = 3;

/// The pause after a failed fetch, in seconds.
pub const RETRY_DELAY_SECS: u64 = 3;

/// The longest that one fetch may take, in seconds.
pub const DOWNLOAD_TIMEOUT_SECS: u64 = 120;

/// The file name of the encoder under the local directory.
pub open spec fn encoder_file_name() -> Seq<char> {
    "ffmpeg.exe"@
}

/// The local directory that holds the unpacked archive.
pub open spec fn local_dir() -> Seq<char> {
    "bin"@
}

/// Where the search for the encoder stands.
#[derive(Clone, Copy, Debug, PartialEq, Eq)]
pub enum LocatorState {
    /// The search path of the environment is to be searched.
    SearchingEnvironment,
    /// The local directory is to be searched.
    SearchingLocal {
        /// Whether the archive has been unpacked into it already.
        unpacked: bool,
    },
    /// The archive is to be fetched and unpacked.
    Acquiring,
    /// The last search found the encoder.
    Located,
    /// The encoder cannot be had.
    Unavailable,
}

/// What the locator asks its caller to do next.
#[derive(Clone, Copy, Debug, PartialEq, Eq)]
pub enum LocatorAction {
    /// Search the search path of the environment for the encoder.
    SearchEnvironment,
    /// Search the local directory for the encoder.
    SearchLocal,
    /// Fetch the archive and unpack it into the local directory.
    Acquire,
    /// Nothing: the search is over.
    Stop,
}

/// What the caller reports back.
#[derive(Clone, Copy, Debug, PartialEq, Eq)]
pub enum LocatorEvent {
    /// Answer to a search: whether it found the encoder.
    Searched {
        /// Whether the encoder was found.
        found: bool,
    },
    /// Answer to [`LocatorAction::Acquire`]: whether the archive was fetched
    /// and unpacked.
    Acquired {
        /// Whether it was.
        unpacked: bool,
    },
}

impl LocatorState {
    /// The action that the state waits for.
    pub open spec fn action(self) -> LocatorAction {
        match self {
            LocatorState::SearchingEnvironment => LocatorAction::SearchEnvironment,
            LocatorState::SearchingLocal { .. } => LocatorAction::SearchLocal,
            LocatorState::Acquiring => LocatorAction::Acquire,
            LocatorState::Located => LocatorAction::Stop,
            LocatorState::Unavailable => LocatorAction::Stop,
        }
    }

    /// The state that follows when `event` is reported. A search that finds
    /// the encoder ends the search. One that does not leads from the
    /// environment to the local directory, from there to fetching the
    /// archive, and after that to giving up. An event that does not answer
    /// the action the state waits for changes nothing.
    pub open spec fn after(self, event: LocatorEvent) -> LocatorState {
        match (self, event) {
            (LocatorState::SearchingEnvironment, LocatorEvent::Searched { found }) => if found {
                LocatorState::Located
            } else {
                LocatorState::SearchingLocal { unpacked: false }
            },
            (LocatorState::SearchingLocal { unpacked }, LocatorEvent::Searched { found }) => if found {
                LocatorState::Located
            } else if unpacked {
                LocatorState::Unavailable
            } else {
                LocatorState::Acquiring
            },
            (LocatorState::Acquiring, LocatorEvent::Acquired { unpacked }) => if unpacked {
                LocatorState::SearchingLocal { unpacked: true }
            } else {
                LocatorState::Unavailable
            },
            (state, _) => state,
        }
    }

    /// How many actions the locator may still ask for, at most.
    pub open spec fn steps_left(self) -> nat {
        match self {
            LocatorState::SearchingEnvironment => 4,
            LocatorState::SearchingLocal { unpacked: false } => 3,
            LocatorState::Acquiring => 2,
            LocatorState::SearchingLocal { unpacked: true } => 1,
            LocatorState::Located => 0,
            LocatorState::Unavailable => 0,
        }
    }

    /// Whether `event` answers the action that the state waits for.
    pub open spec fn answered_by(self, event: LocatorEvent) -> bool {
        match (self, event) {
            (LocatorState::SearchingEnvironment, LocatorEvent::Searched { .. }) => true,
            (LocatorState::SearchingLocal { .. }, LocatorEvent::Searched { .. }) => true,
            (LocatorState::Acquiring, LocatorEvent::Acquired { .. }) => true,
            _ => false,
        }
    }

    /// The state in which every search for the encoder starts.
    pub fn start() -> (state: LocatorState)
        ensures
            state == LocatorState::SearchingEnvironment,
    {
        LocatorState::SearchingEnvironment
    }

    /// The action that the state waits for.
    pub fn next_action(&self) -> (action: LocatorAction)
        ensures
            action == self.action(),
    {
        match self {
            LocatorState::SearchingEnvironment => LocatorAction::SearchEnvironment,
            LocatorState::SearchingLocal { .. } => LocatorAction::SearchLocal,
            LocatorState::Acquiring => LocatorAction::Acquire,
            LocatorState::Located => LocatorAction::Stop,
            LocatorState::Unavailable => LocatorAction::Stop,
        }
    }

    /// The state that follows when `event` is reported.
    pub fn handle(self, event: LocatorEvent) -> (next: LocatorState)
        ensures
            next == self.after(event),
    {
        match (self, event) {
            (LocatorState::SearchingEnvironment, LocatorEvent::Searched { found }) => {
                if found {
                    LocatorState::Located
                } else {
                    LocatorState::SearchingLocal { unpacked: false }
                }
            },
            (LocatorState::SearchingLocal { unpacked }, LocatorEvent::Searched { found }) => {
                if found {
                    LocatorState::Located
                } else if unpacked {
                    LocatorState::Unavailable
                } else {
                    LocatorState::Acquiring
                }
            },
            (LocatorState::Acquiring, LocatorEvent::Acquired { unpacked }) => {
                if unpacked {
                    LocatorState::SearchingLocal { unpacked: true }
                } else {
                    LocatorState::Unavailable
                }
            },
            (state, _) => state,
        }
    }
}

/// Every answer brings the locator nearer its end, so the encoder is looked
/// for at most three times and the archive is fetched at most once.
pub proof fn law_locator_terminates(state: LocatorState, event: LocatorEvent)
    requires
        state.answered_by(event),
    ensures
        state.after(event).steps_left() < state.steps_left(),
        state.steps_left() <= 4,
{
}

/// An entry of a directory listing.
#[derive(Debug, PartialEq, Eq)]
pub struct Candidate {
    /// Path of the entry.
    pub path: String,
    /// Whether the entry is a regular file.
    pub is_file: bool,
}

/// Whether an entry at `path` is the encoder: a regular file with the
/// encoder's file name.
pub open spec fn is_encoder(path: Seq<char>, is_file: bool) -> bool {
    is_file && path_file_name(path) == Some(encoder_file_name())
}

/// Whether the file name of `path` is the encoder's.
pub fn names_encoder(path: &str) -> (b: bool)
    ensures
        b == (path_file_name(path@) == Some(encoder_file_name())),
{
    match file_name(path) {
        Some(name) => name == String::from_str("ffmpeg.exe"),
        None => false,
    }
}

/// The index of the first entry of `candidates` that is the encoder.
pub fn find_encoder(candidates: &Vec<Candidate>) -> (found: Option<usize>)
    ensures
        match found {
            Some(i) => {
                &&& i < candidates@.len()
                &&& is_encoder(candidates@[i as int].path@, candidates@[i as int].is_file)
                &&& forall|j: int|
                    0 <= j < i ==> !is_encoder(
                        (#[trigger] candidates@[j]).path@,
                        candidates@[j].is_file,
                    )
            },
            None => forall|j: int|
                0 <= j < candidates@.len() ==> !is_encoder(
                    (#[trigger] candidates@[j]).path@,
                    candidates@[j].is_file,
                ),
        },
{
    let mut i: usize = 0;
    while i < candidates.len()
        invariant
            i <= candidates@.len(),
            forall|j: int|
                0 <= j < i ==> !is_encoder(
                    (#[trigger] candidates@[j]).path@,
                    candidates@[j].is_file,
                ),
        decreases candidates@.len() - i,
    {
        if candidates[i].is_file && names_encoder(candidates[i].path.as_str()) {
            return Some(i);
        }
        i = i + 1;
    }
    None
}

/// What the server answered to one fetch of the archive.
#[derive(Clone, Copy, Debug, PartialEq, Eq)]
pub enum FetchResult {
    /// The server responded.
    Responded {
        /// The status code of the response.
        status: u16,
    },
    /// No response arrived.
    Failed,
}

/// What follows one fetch of the archive.
#[derive(Clone, Copy, Debug, PartialEq, Eq)]
pub enum DownloadStep {
    /// Read the body of the response: it is the archive. A failure to read
    /// it ends the download.
    ReadBody,
    /// Pause, then fetch again.
    Retry {
        /// Ordinal of the next fetch, counted from 1.
        attempt: u32,
    },
    /// Pause, then give up.
    GiveUp,
}

/// Whether a response with the status code `status` is a success.
pub open spec fn is_success_status(status: u16) -> bool {
    200 <= status < 300
}

/// What follows the fetch with ordinal `attempt`, counted from 1, that ended
/// in `result`: a successful response is read; after anything else the fetch
/// is tried again, until [`DOWNLOAD_ATTEMPTS`] fetches were made.
pub open spec fn download_step(attempt: u32, result: FetchResult) -> DownloadStep {
    if result matches FetchResult::Responded { status } && is_success_status(status) {
        DownloadStep::ReadBody
    } else if attempt < DOWNLOAD_ATTEMPTS {
        DownloadStep::Retry { attempt: (attempt + 1) as u32 }
    } else {
        DownloadStep::GiveUp
    }
}

/// Calls `reqwest::StatusCode::from_u16` on `status` and, where that gives a
/// status code, `reqwest::StatusCode::is_success` on it. Trusted: a number is
/// a status code exactly if it lies between 100 and 999, and a status code
/// is a success exactly if it lies between 200 and 299.
#[verifier::external_body]
fn status_is_success(status: u16) -> (ok: Option<bool>)
    ensures
        ok == if 100 <= status <= 999 {
            Some(is_success_status(status))
        } else {
            None::<bool>
        },
{
    match reqwest::StatusCode::from_u16(status) {
        Ok(code) => Some(code.is_success()),
        Err(_) => None,
    }
}

/// What follows the fetch with ordinal `attempt`, counted from 1, that ended
/// in `result`.
pub fn after_fetch(attempt: u32, result: FetchResult) -> (step: DownloadStep)
    ensures
        step == download_step(attempt, result),
{
    let success: bool = match result {
        FetchResult::Responded { status } => match status_is_success(status) {
            Some(ok) => ok,
            None => false,
        },
        FetchResult::Failed => false,
    };
    if success {
        DownloadStep::ReadBody
    } else if attempt < DOWNLOAD_ATTEMPTS {
        DownloadStep::Retry { attempt: attempt + 1 }
    } else {
        DownloadStep::GiveUp
    }
}

/// A download that starts at fetch 1 and follows [`download_step`] makes at
/// most [`DOWNLOAD_ATTEMPTS`] fetches: each retry has the next ordinal, and
/// none is asked for after the last.
pub proof fn law_download_attempts_bounded(attempt: u32, result: FetchResult)
    requires
        1 <= attempt <= DOWNLOAD_ATTEMPTS,
    ensures
        download_step(attempt, result) matches DownloadStep::Retry { attempt: next } ==> next
            == attempt + 1 && next <= DOWNLOAD_ATTEMPTS,
        attempt == DOWNLOAD_ATTEMPTS ==> !(download_step(attempt, result) is Retry),
{
}

/// What is done with one entry of the archive, as plain values.
pub enum ExtractionView {
    /// Nothing.
    Skip,
    /// The directory `path` is made, with its parents.
    CreateDir { path: Seq<char> },
    /// The directory `parent` is made, if there is one, with its parents;
    /// then the entry's content is written to the file `path`.
    WriteFile { path: Seq<char>, parent: Option<Seq<char>> },
}

/// What is done with one entry of the archive.
#[derive(Debug, PartialEq, Eq)]
pub enum ExtractStep {
    /// Nothing: the entry is left out.
    Skip,
    /// Make the directory `path`, with its parents.
    CreateDir {
        /// Path of the directory.
        path: String,
    },
    /// Make the directory `parent`, if there is one, with its parents; then
    /// write the entry's content to the file `path`.
    WriteFile {
        /// Path of the file.
        path: String,
        /// Path of its directory.
        parent: Option<String>,
    },
}

impl View for ExtractStep {
    type V = ExtractionView;

    open spec fn view(&self) -> ExtractionView {
        match self {
            ExtractStep::Skip => ExtractionView::Skip,
            ExtractStep::CreateDir { path } => ExtractionView::CreateDir { path: path@ },
            ExtractStep::WriteFile { path, parent } => ExtractionView::WriteFile {
                path: path@,
                parent: match parent {
                    Some(dir) => Some(dir@),
                    None => None,
                },
            },
        }
    }
}

/// What is done with an entry of the archive. `name` is the entry's path if
/// it stays inside the directory that the archive is unpacked into, and
/// `None` if it does not; `is_dir` says whether the entry is a directory.
/// An entry without such a path is skipped; any other goes under the local
/// directory.
pub open spec fn extraction(name: Option<Seq<char>>, is_dir: bool) -> ExtractionView {
    match name {
        None => ExtractionView::Skip,
        Some(name) => {
            let path = path_join(local_dir(), name);
            if is_dir {
                ExtractionView::CreateDir { path }
            } else {
                ExtractionView::WriteFile { path, parent: path_parent(path) }
            }
        },
    }
}

/// What is done with an entry of the archive.
pub fn extraction_step(name: Option<&str>, is_dir: bool) -> (step: ExtractStep)
    ensures
        step@ == extraction(
            match name {
                Some(text) => Some(text@),
                None => None,
            },
            is_dir,
        ),
{
    match name {
        None => ExtractStep::Skip,
        Some(text) => {
            let path: String = join("bin", text);
            if is_dir {
                ExtractStep::CreateDir { path }
            } else {
                let dir: Option<String> = parent(path.as_str());
                ExtractStep::WriteFile { path, parent: dir }
            }
        },
    }
}

} // verus!
