//! The settings store, without its file system.
//!
//! Reading and writing the settings are runs of calls on the file system.
//! The store decides which call comes next and what its failure means; the
//! caller makes the call and reports how it went. A run starts at the idle
//! stage with any reply, and goes on until it is finished:
//!
//! - a write resolves the platform's configuration directory, creates the
//!   settings directory, opens a scratch file beside the settings file,
//!   writes the printed document to it, flushes it to stable storage and
//!   moves it to the settings file's place;
//! - a read resolves and creates the directory, opens the settings file,
//!   creating it if absent, and reads it as text. A text that spells a
//!   settings document finishes the read with that document. Any other text
//!   is healed: the document of a fresh installation is written as above and
//!   then finishes the read.
//!
//! The first call that fails finishes the run with its error, and nothing
//! else does: printing a settings document does not fail.

use vstd::prelude::*;
use crate::config::Config;
use crate::config::ConfigView;
use crate::config::Error;
use crate::json::json_bytes;
use crate::json::json_parse;

verus! {

/// The directory of the settings, below the platform's configuration
/// directory.
pub const DIRECTORY_NAME: &'static str = "game-presence";

/// The file of the settings, in that directory.
pub const FILE_NAME: &'static str = "config.json";

/// The scratch file beside it, which a write fills before it takes the
/// settings file's place.
pub const SCRATCH_NAME: &'static str = "config.json.tmp";

/// A call on the file system that the store asks its caller to make.
#[derive(Clone, Copy, Debug, PartialEq, Eq, Structural)]
pub enum Request {
    /// Find the platform's configuration directory.
    ResolveDirectory,
    /// Create the settings directory with all its parents.
    CreateDirectory,
    /// Open the settings file for reading and writing; create it if absent.
    OpenFile,
    /// Read the open settings file to its end, as text.
    ReadFile,
    /// Open the scratch file for writing; create it, or empty it.
    OpenScratch,
    /// Write all the bytes of the run to the scratch file.
    WriteScratch,
    /// Flush the scratch file to stable storage.
    SyncScratch,
    /// Move the scratch file to the place of the settings file.
    InstallScratch,
}

/// How a call on the file system went.
#[derive(Clone, Debug, PartialEq, Eq)]
pub enum Reply {
    /// The call failed.
    Failed,
    /// The call succeeded, and there is nothing to hand over.
    Done,
    /// The file was read, and this is its text.
    Text(String),
}

/// Where a write stands: the call it waits for.
#[derive(Clone, Copy, Debug, PartialEq, Eq, Structural)]
pub enum WriteStage {
    Idle,
    Resolve,
    Create,
    Open,
    Store,
    Sync,
    Install,
}

/// Where the first part of a read stands: the call it waits for.
#[derive(Clone, Copy, Debug, PartialEq, Eq, Structural)]
pub enum ReadStage {
    Idle,
    Resolve,
    Create,
    Open,
    Fetch,
}

/// A write under way.
#[derive(Clone, Debug, PartialEq, Eq)]
pub struct Writing {
    pub stage: WriteStage,
    /// The bytes for the scratch file, once the document is printed.
    pub bytes: Vec<u8>,
}

/// A read under way.
#[derive(Clone, Debug, PartialEq, Eq)]
pub enum Reading {
    /// The settings file is being fetched.
    Fetching(ReadStage),
    /// The file spelled no settings: this document is being written in its
    /// place, and will be the result.
    Healing(Config, Writing),
}

/// What a run does next.
#[derive(Debug, PartialEq, Eq)]
pub enum Progress<S, T> {
    /// The run goes on from this state, and waits for this call.
    Next(S, Request),
    /// The run is over.
    Finished(Result<T, Error>),
}

impl Request {
    /// The error that the failure of this call means.
    pub open spec fn failure(self) -> Error {
        match self {
            Request::ResolveDirectory => Error::DirectoriesBaseDirsNew,
            Request::CreateDirectory => Error::StdFsCreateDirAll,
            Request::OpenFile => Error::TokioFsOpenOptions,
            Request::ReadFile => Error::TokioIoReadToString,
            Request::OpenScratch => Error::TokioFsOpenOptions,
            Request::WriteScratch => Error::TokioIoWriteAll,
            Request::SyncScratch => Error::StdFsSyncAll,
            Request::InstallScratch => Error::StdFsRename,
        }
    }

    /// Whether a reply reports the success of this call: reading succeeds
    /// with a text, every other call without one.
    pub open spec fn answered_by(self, reply: Reply) -> bool {
        match self {
            Request::ReadFile => reply is Text,
            _ => reply is Done,
        }
    }

    fn error(self) -> (r: Error)
        ensures
            r == self.failure(),
    {
        match self {
            Request::ResolveDirectory => Error::DirectoriesBaseDirsNew,
            Request::CreateDirectory => Error::StdFsCreateDirAll,
            Request::OpenFile => Error::TokioFsOpenOptions,
            Request::ReadFile => Error::TokioIoReadToString,
            Request::OpenScratch => Error::TokioFsOpenOptions,
            Request::WriteScratch => Error::TokioIoWriteAll,
            Request::SyncScratch => Error::StdFsSyncAll,
            Request::InstallScratch => Error::StdFsRename,
        }
    }
}

impl WriteStage {
    /// The call that a write waits for at this stage.
    pub open spec fn pending(self) -> Option<Request> {
        match self {
            WriteStage::Idle => None,
            WriteStage::Resolve => Some(Request::ResolveDirectory),
            WriteStage::Create => Some(Request::CreateDirectory),
            WriteStage::Open => Some(Request::OpenScratch),
            WriteStage::Store => Some(Request::WriteScratch),
            WriteStage::Sync => Some(Request::SyncScratch),
            WriteStage::Install => Some(Request::InstallScratch),
        }
    }

    /// The stage that follows once the call of this stage has succeeded; none
    /// follows the last.
    pub open spec fn following(self) -> Option<WriteStage> {
        match self {
            WriteStage::Idle => Some(WriteStage::Resolve),
            WriteStage::Resolve => Some(WriteStage::Create),
            WriteStage::Create => Some(WriteStage::Open),
            WriteStage::Open => Some(WriteStage::Store),
            WriteStage::Store => Some(WriteStage::Sync),
            WriteStage::Sync => Some(WriteStage::Install),
            WriteStage::Install => None,
        }
    }

    /// Whether a reply lets the write go on from this stage.
    pub open spec fn passed_by(self, reply: Reply) -> bool {
        match self.pending() {
            Some(request) => request.answered_by(reply),
            None => true,
        }
    }

    fn request(self) -> (r: Option<Request>)
        ensures
            r == self.pending(),
    {
        match self {
            WriteStage::Idle => None,
            WriteStage::Resolve => Some(Request::ResolveDirectory),
            WriteStage::Create => Some(Request::CreateDirectory),
            WriteStage::Open => Some(Request::OpenScratch),
            WriteStage::Store => Some(Request::WriteScratch),
            WriteStage::Sync => Some(Request::SyncScratch),
            WriteStage::Install => Some(Request::InstallScratch),
        }
    }

    fn next(self) -> (r: Option<(WriteStage, Request)>)
        ensures
            match self.following() {
                Some(stage) => r == Some((stage, stage.pending().unwrap())),
                None => r is None,
            },
    {
        match self {
            WriteStage::Idle => Some((WriteStage::Resolve, Request::ResolveDirectory)),
            WriteStage::Resolve => Some((WriteStage::Create, Request::CreateDirectory)),
            WriteStage::Create => Some((WriteStage::Open, Request::OpenScratch)),
            WriteStage::Open => Some((WriteStage::Store, Request::WriteScratch)),
            WriteStage::Store => Some((WriteStage::Sync, Request::SyncScratch)),
            WriteStage::Sync => Some((WriteStage::Install, Request::InstallScratch)),
            WriteStage::Install => None,
        }
    }
}

impl ReadStage {
    /// The call that a read waits for at this stage.
    pub open spec fn pending(self) -> Option<Request> {
        match self {
            ReadStage::Idle => None,
            ReadStage::Resolve => Some(Request::ResolveDirectory),
            ReadStage::Create => Some(Request::CreateDirectory),
            ReadStage::Open => Some(Request::OpenFile),
            ReadStage::Fetch => Some(Request::ReadFile),
        }
    }

    /// The stage that follows once the call of this stage has succeeded; none
    /// follows the last, after which the text decides.
    pub open spec fn following(self) -> Option<ReadStage> {
        match self {
            ReadStage::Idle => Some(ReadStage::Resolve),
            ReadStage::Resolve => Some(ReadStage::Create),
            ReadStage::Create => Some(ReadStage::Open),
            ReadStage::Open => Some(ReadStage::Fetch),
            ReadStage::Fetch => None,
        }
    }

    /// Whether a reply lets the read go on from this stage.
    pub open spec fn passed_by(self, reply: Reply) -> bool {
        match self.pending() {
            Some(request) => request.answered_by(reply),
            None => true,
        }
    }

    fn request(self) -> (r: Option<Request>)
        ensures
            r == self.pending(),
    {
        match self {
            ReadStage::Idle => None,
            ReadStage::Resolve => Some(Request::ResolveDirectory),
            ReadStage::Create => Some(Request::CreateDirectory),
            ReadStage::Open => Some(Request::OpenFile),
            ReadStage::Fetch => Some(Request::ReadFile),
        }
    }

    fn next(self) -> (r: Option<(ReadStage, Request)>)
        ensures
            match self.following() {
                Some(stage) => r == Some((stage, stage.pending().unwrap())),
                None => r is None,
            },
    {
        match self {
            ReadStage::Idle => Some((ReadStage::Resolve, Request::ResolveDirectory)),
            ReadStage::Resolve => Some((ReadStage::Create, Request::CreateDirectory)),
            ReadStage::Create => Some((ReadStage::Open, Request::OpenFile)),
            ReadStage::Open => Some((ReadStage::Fetch, Request::ReadFile)),
            ReadStage::Fetch => None,
        }
    }
}

impl Writing {
    /// Whether the write holds the bytes of `config` from the stage on at
    /// which it needs them: once the scratch file is to be opened.
    pub open spec fn carries(self, config: ConfigView) -> bool {
        self.stage != WriteStage::Idle && self.stage != WriteStage::Resolve && self.stage
            != WriteStage::Create ==> self.bytes@ == Config::printed(config)
    }

    /// A write that has not begun.
    pub fn new() -> (r: Writing)
        ensures
            r.stage == WriteStage::Idle,
            r.bytes@ == Seq::<u8>::empty(),
    {
        Writing { stage: WriteStage::Idle, bytes: Vec::new() }
    }
}

impl Reading {
    /// Whether a read that heals does so with the document of a fresh
    /// installation. Every state that a read reaches from its beginning is
    /// sound.
    pub open spec fn sound(self) -> bool {
        match self {
            Reading::Fetching(_) => true,
            Reading::Healing(fresh, writing) => {
                &&& fresh@ == ConfigView::initial()
                &&& writing.carries(ConfigView::initial())
            },
        }
    }

    /// A read that has not begun.
    pub fn new() -> (r: Reading)
        ensures
            r == Reading::Fetching(ReadStage::Idle),
            r.sound(),
    {
        Reading::Fetching(ReadStage::Idle)
    }
}

impl Config {
    /// The settings document that a text spells: the text is JSON, and its
    /// tree spells the document.
    pub open spec fn spelled(text: Seq<char>) -> Option<ConfigView> {
        match json_parse(text) {
            Some(tree) => ConfigView::decoded(tree),
            None => None,
        }
    }

    /// The bytes of a settings document: its tree, pretty-printed.
    pub open spec fn printed(config: ConfigView) -> Seq<u8> {
        json_bytes(config.encoded())
    }

    /// What one step of writing `config` yields, from where the write stood
    /// and how the call it waited for went.
    ///
    /// A failed call finishes the write with the call's error. Success at the
    /// last stage finishes it well. Any other success leads to the next
    /// stage and its call, the bytes unchanged; only the step that leads to
    /// the opening of the scratch file prints the document first.
    pub open spec fn writes(
        config: ConfigView,
        writing: Writing,
        reply: Reply,
        r: Progress<Writing, ()>,
    ) -> bool {
        if !writing.stage.passed_by(reply) {
            r == Progress::<Writing, ()>::Finished(Err(writing.stage.pending().unwrap().failure()))
        } else {
            match writing.stage.following() {
                None => r == Progress::<Writing, ()>::Finished(Ok(())),
                Some(stage) => match r {
                    Progress::Next(next, request) => {
                        &&& next.stage == stage
                        &&& stage.pending() == Some(request)
                        &&& next.bytes@ == if stage == WriteStage::Open {
                            Config::printed(config)
                        } else {
                            writing.bytes@
                        }
                    },
                    Progress::Finished(_) => false,
                },
            }
        }
    }

    /// Whether a step begins the healing: the read goes on with the document
    /// of a fresh installation, whose writing waits for its first call.
    pub open spec fn heals(r: Progress<Reading, Config>) -> bool {
        &&& r matches Progress::Next(Reading::Healing(fresh, writing), request)
        &&& fresh@ == ConfigView::initial()
        &&& writing.stage == WriteStage::Resolve
        &&& writing.bytes@ == Seq::<u8>::empty()
        &&& request == Request::ResolveDirectory
    }

    /// What one step of a read yields, from where the read stood and how the
    /// call it waited for went.
    ///
    /// While the file is fetched, a failed call finishes the read with the
    /// call's error, and a success leads to the next stage and its call.
    /// Once the text is there, a text that spells a document finishes the
    /// read with it; any other text begins the writing of the document of a
    /// fresh installation. While that document is written, the read goes as
    /// its writing goes, and finishes with the document when the writing
    /// finishes well.
    pub open spec fn reads(reading: Reading, reply: Reply, r: Progress<Reading, Config>) -> bool {
        match reading {
            Reading::Fetching(stage) => if !stage.passed_by(reply) {
                r == Progress::<Reading, Config>::Finished(Err(stage.pending().unwrap().failure()))
            } else {
                match stage.following() {
                    Some(next) => r == Progress::<Reading, Config>::Next(
                        Reading::Fetching(next),
                        next.pending().unwrap(),
                    ),
                    None => match Config::spelled(reply->Text_0@) {
                        Some(config) => {
                            &&& r matches Progress::Finished(Ok(found))
                            &&& found@ == config
                        },
                        None => Config::heals(r),
                    },
                }
            },
            Reading::Healing(fresh, writing) => if !writing.stage.passed_by(reply) {
                r == Progress::<Reading, Config>::Finished(
                    Err(writing.stage.pending().unwrap().failure()),
                )
            } else {
                match writing.stage.following() {
                    None => r matches Progress::Finished(Ok(found)) && found@ == fresh@,
                    Some(stage) => match r {
                        Progress::Next(Reading::Healing(same, next), request) => {
                            &&& same@ == fresh@
                            &&& next.stage == stage
                            &&& stage.pending() == Some(request)
                            &&& next.bytes@ == if stage == WriteStage::Open {
                                Config::printed(fresh@)
                            } else {
                                writing.bytes@
                            }
                        },
                        Progress::Next(Reading::Fetching(_), _) => false,
                        Progress::Finished(_) => false,
                    },
                }
            },
        }
    }

    /// Reads the settings document that a text spells, if it spells one. The
    /// empty text spells none.
    pub fn parse(text: &str) -> (r: Option<Config>)
        ensures
            match r {
                Some(config) => Config::spelled(text@) == Some(config@),
                None => Config::spelled(text@) is None,
            },
            text@.len() == 0 ==> r is None,
    {
        match crate::json::parse(text) {
            Some(value) => Config::from_value(&value),
            None => None,
        }
    }

    /// What printing yields from what the printer gave: the bytes, or the
    /// printer's failure.
    pub fn printing(printed: Option<Vec<u8>>) -> (r: Result<Vec<u8>, Error>)
        ensures
            r == match printed {
                Some(bytes) => Ok::<Vec<u8>, Error>(bytes),
                None => Err(Error::SerdeJsonToVec),
            },
    {
        match printed {
            Some(bytes) => Ok(bytes),
            None => Err(Error::SerdeJsonToVec),
        }
    }

    /// Prints the document: the bytes that the settings file is to hold.
    /// Printing a settings document always succeeds.
    pub fn print(&self) -> (r: Result<Vec<u8>, Error>)
        ensures
            r matches Ok(bytes) && bytes@ == Config::printed(self@),
    {
        let value = self.to_value();
        Config::printing(crate::json::to_vec_pretty(&value))
    }

    /// One step of writing this document: takes where the write stands and
    /// how the call it waited for went, and gives what comes next.
    pub fn write(&self, writing: Writing, reply: &Reply) -> (r: Progress<Writing, ()>)
        ensures
            Config::writes(self@, writing, *reply, r),
    {
        let Writing { stage, bytes } = writing;
        match stage.request() {
            Some(request) => {
                if !answers(request, reply) {
                    return Progress::Finished(Err(request.error()));
                }
            },
            None => {},
        }
        match stage.next() {
            None => Progress::Finished(Ok(())),
            Some((WriteStage::Open, request)) => match self.print() {
                Ok(bytes) => Progress::Next(Writing { stage: WriteStage::Open, bytes }, request),
                Err(e) => Progress::Finished(Err(e)),
            },
            Some((next, request)) => Progress::Next(Writing { stage: next, bytes }, request),
        }
    }

    /// One step of reading the settings: takes where the read stands and how
    /// the call it waited for went, and gives what comes next. The empty
    /// text, which a new file holds, spells no document and is healed.
    pub fn read(reading: Reading, reply: &Reply) -> (r: Progress<Reading, Config>)
        ensures
            Config::reads(reading, *reply, r),
            (reading matches Reading::Fetching(ReadStage::Fetch) && reply matches Reply::Text(text)
                && text@.len() == 0) ==> Config::heals(r),
    {
        match reading {
            Reading::Fetching(stage) => {
                match stage.request() {
                    Some(request) => {
                        if !answers(request, reply) {
                            return Progress::Finished(Err(request.error()));
                        }
                    },
                    None => {},
                }
                match stage.next() {
                    Some((next, request)) => Progress::Next(Reading::Fetching(next), request),
                    None => match reply {
                        Reply::Text(text) => match Config::parse(text.as_str()) {
                            Some(config) => Progress::Finished(Ok(config)),
                            None => Progress::Next(
                                Reading::Healing(
                                    Config::default(),
                                    Writing { stage: WriteStage::Resolve, bytes: Vec::new() },
                                ),
                                Request::ResolveDirectory,
                            ),
                        },
                        _ => Progress::Finished(Err(Error::TokioIoReadToString)),
                    },
                }
            },
            Reading::Healing(fresh, writing) => match fresh.write(writing, reply) {
                Progress::Next(next, request) => Progress::Next(
                    Reading::Healing(fresh, next),
                    request,
                ),
                Progress::Finished(Ok(())) => Progress::Finished(Ok(fresh)),
                Progress::Finished(Err(e)) => Progress::Finished(Err(e)),
            },
        }
    }
}

/// Finds out whether a reply reports the success of a call.
fn answers(request: Request, reply: &Reply) -> (r: bool)
    ensures
        r == request.answered_by(*reply),
{
    match request {
        Request::ReadFile => match reply {
            Reply::Text(_) => true,
            _ => false,
        },
        _ => match reply {
            Reply::Done => true,
            _ => false,
        },
    }
}

/// A write that goes on still holds the bytes of its document where it needs
/// them: what it asks to be written to the scratch file, flushed and moved
/// into place is the printed document.
pub proof fn lemma_write_carries_the_document(
    config: ConfigView,
    writing: Writing,
    reply: Reply,
    next: Writing,
    request: Request,
)
    requires
        writing.carries(config),
        Config::writes(config, writing, reply, Progress::Next(next, request)),
    ensures
        next.carries(config),
{
}

/// A write finishes well only on the success of its last call, the move of
/// the scratch file to the place of the settings file.
pub proof fn lemma_write_ends_with_the_move(config: ConfigView, writing: Writing, reply: Reply)
    requires
        Config::writes(config, writing, reply, Progress::Finished(Ok(()))),
    ensures
        writing.stage == WriteStage::Install,
        reply is Done,
{
}

/// A write finishes with an error only where the call it waited for failed,
/// and the error is that call's.
pub proof fn lemma_write_fails_only_with_a_call(
    config: ConfigView,
    writing: Writing,
    reply: Reply,
    error: Error,
)
    requires
        Config::writes(config, writing, reply, Progress::Finished(Err(error))),
    ensures
        writing.stage.pending() matches Some(request) && !request.answered_by(reply) && error
            == request.failure(),
{
}

/// A read finishes with an error only where the call it waited for failed,
/// and the error is that call's: no text, whatever it holds, makes a read
/// fail.
pub proof fn lemma_read_fails_only_with_a_call(reading: Reading, reply: Reply, error: Error)
    requires
        Config::reads(reading, reply, Progress::Finished(Err(error))),
    ensures
        match reading {
            Reading::Fetching(stage) => stage.pending() matches Some(request)
                && !request.answered_by(reply) && error == request.failure(),
            Reading::Healing(_, writing) => writing.stage.pending() matches Some(request)
                && !request.answered_by(reply) && error == request.failure(),
        },
{
}

/// A read that heals goes on healing with the document of a fresh
/// installation, and holds its bytes where it needs them.
pub proof fn lemma_read_heals_with_the_fresh_document(
    reading: Reading,
    reply: Reply,
    next: Reading,
    request: Request,
)
    requires
        reading.sound(),
        Config::reads(reading, reply, Progress::Next(next, request)),
    ensures
        next.sound(),
{
}

/// A read that has healed finishes with the document of a fresh
/// installation.
pub proof fn lemma_healed_read_ends_fresh(
    fresh: Config,
    writing: Writing,
    reply: Reply,
    found: Config,
)
    requires
        Reading::Healing(fresh, writing).sound(),
        Config::reads(Reading::Healing(fresh, writing), reply, Progress::Finished(Ok(found))),
    ensures
        found@ == ConfigView::initial(),
{
}

/// A read finishes with a document only on a text that spells it, or when
/// the document of a fresh installation has been moved into the file's
/// place.
pub proof fn lemma_read_ends_with_a_document(reading: Reading, reply: Reply, found: Config)
    requires
        Config::reads(reading, reply, Progress::Finished(Ok(found))),
    ensures
        match reading {
            Reading::Fetching(stage) => {
                &&& stage == ReadStage::Fetch
                &&& reply matches Reply::Text(text)
                &&& Config::spelled(text@) == Some(found@)
            },
            Reading::Healing(fresh, writing) => {
                &&& writing.stage == WriteStage::Install
                &&& reply is Done
                &&& found@ == fresh@
            },
        },
{
}

/// A text that spells the tree of a settings document is read as that
/// document.
pub proof fn lemma_written_text_reads_back(config: ConfigView, text: Seq<char>)
    requires
        json_parse(text) == Some(config.encoded()),
    ensures
        Config::spelled(text) == Some(config),
{
    config.lemma_round_trip();
}

/// A read that finds a text which spells the tree of a settings document
/// finishes with that document, and asks for no call after it.
pub proof fn lemma_read_of_written_text(
    config: ConfigView,
    reply: Reply,
    r: Progress<Reading, Config>,
)
    requires
        reply matches Reply::Text(text) && json_parse(text@) == Some(config.encoded()),
        Config::reads(Reading::Fetching(ReadStage::Fetch), reply, r),
    ensures
        r matches Progress::Finished(Ok(found)) && found@ == config,
{
    lemma_written_text_reads_back(config, reply->Text_0@);
}

} // verus!
