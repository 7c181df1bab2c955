//! The errors that end a run, their messages, and the exit codes the process ends with.
//!
//! The errors of the storage, the queue, the client and the other services reach the crawl
//! logic only as their messages, so the variants that carry them hold their text.

use vstd::prelude::*;

verus! {

/// Why the instruction for a run could not be prepared.
#[derive(Debug, Clone, PartialEq, Eq)]
pub enum InstructionError {
    /// Reading or writing a file failed; the error's message.
    IOError(String),
    /// The configuration could not be gathered; the error's message.
    ConfigError(String),
    /// The configuration file holds no configuration; the error's message.
    ConfigDeserializationError(String),
    /// The directory of the run exists already; its path.
    RootAlreadyExists(String),
    /// The configuration could not be written; the error's message.
    DumbSerialisationError(String),
}

/// The exit code of a failed preparation.
pub open spec fn instruction_exit_code(e: InstructionError) -> u8 {
    match e {
        InstructionError::IOError(_) => 2,
        InstructionError::ConfigError(_) => 3,
        InstructionError::ConfigDeserializationError(_) => 4,
        InstructionError::RootAlreadyExists(_) => 5,
        InstructionError::DumbSerialisationError(_) => 70,
    }
}

impl InstructionError {
    /// The exit code of the process after this error.
    pub fn exit_code(&self) -> (r: u8)
        ensures r == instruction_exit_code(*self),
    {
        match self {
            InstructionError::IOError(_) => 2,
            InstructionError::ConfigError(_) => 3,
            InstructionError::ConfigDeserializationError(_) => 4,
            InstructionError::RootAlreadyExists(_) => 5,
            InstructionError::DumbSerialisationError(_) => 70,
        }
    }

    /// The message of this error: that of the error it carries, or the path that exists.
    pub fn message(&self) -> (r: String)
        ensures
            r@ == match *self {
                InstructionError::IOError(m) => m@,
                InstructionError::ConfigError(m) => m@,
                InstructionError::ConfigDeserializationError(m) => m@,
                InstructionError::RootAlreadyExists(p) => "The path "@ + p@ + " already exists."@,
                InstructionError::DumbSerialisationError(m) => m@,
            },
    {
        match self {
            InstructionError::IOError(m) => m.clone(),
            InstructionError::ConfigError(m) => m.clone(),
            InstructionError::ConfigDeserializationError(m) => m.clone(),
            InstructionError::RootAlreadyExists(p) => {
                let mut r = String::from_str("The path ");
                r.append(p.as_str());
                r.append(" already exists.");
                r
            },
            InstructionError::DumbSerialisationError(m) => m.clone(),
        }
    }
}

/// Why the context of a run could not be set up; each variant carries the error's message.
#[derive(Debug, Clone, PartialEq, Eq)]
pub enum LocalContextInitError {
    Io(String),
    IoWithPath(String),
    Serde(String),
    OpenDB(String),
    RocksDB(String),
    QueueFile(String),
    BlackList(String),
    Svm(String),
    WebGraph(String),
}

/// The exit code of a failed set up of the context.
pub open spec fn context_exit_code(e: LocalContextInitError) -> u8 {
    match e {
        LocalContextInitError::Io(_) => 11,
        LocalContextInitError::IoWithPath(_) => 11,
        LocalContextInitError::OpenDB(_) => 12,
        LocalContextInitError::RocksDB(_) => 13,
        LocalContextInitError::QueueFile(_) => 14,
        LocalContextInitError::BlackList(_) => 15,
        LocalContextInitError::Svm(_) => 16,
        LocalContextInitError::WebGraph(_) => 17,
        LocalContextInitError::Serde(_) => 18,
    }
}

/// The message that `e` carries.
pub open spec fn context_message(e: LocalContextInitError) -> Seq<char> {
    match e {
        LocalContextInitError::Io(m) => m@,
        LocalContextInitError::IoWithPath(m) => m@,
        LocalContextInitError::Serde(m) => m@,
        LocalContextInitError::OpenDB(m) => m@,
        LocalContextInitError::RocksDB(m) => m@,
        LocalContextInitError::QueueFile(m) => m@,
        LocalContextInitError::BlackList(m) => m@,
        LocalContextInitError::Svm(m) => m@,
        LocalContextInitError::WebGraph(m) => m@,
    }
}

impl LocalContextInitError {
    /// The exit code of the process after this error.
    pub fn exit_code(&self) -> (r: u8)
        ensures r == context_exit_code(*self),
    {
        match self {
            LocalContextInitError::Io(_) | LocalContextInitError::IoWithPath(_) => 11,
            LocalContextInitError::OpenDB(_) => 12,
            LocalContextInitError::RocksDB(_) => 13,
            LocalContextInitError::QueueFile(_) => 14,
            LocalContextInitError::BlackList(_) => 15,
            LocalContextInitError::Svm(_) => 16,
            LocalContextInitError::WebGraph(_) => 17,
            LocalContextInitError::Serde(_) => 18,
        }
    }

    /// The message of the error this one carries.
    pub fn message(&self) -> (r: String)
        ensures r@ == context_message(*self),
    {
        match self {
            LocalContextInitError::Io(m) => m.clone(),
            LocalContextInitError::IoWithPath(m) => m.clone(),
            LocalContextInitError::Serde(m) => m.clone(),
            LocalContextInitError::OpenDB(m) => m.clone(),
            LocalContextInitError::RocksDB(m) => m.clone(),
            LocalContextInitError::QueueFile(m) => m.clone(),
            LocalContextInitError::BlackList(m) => m.clone(),
            LocalContextInitError::Svm(m) => m.clone(),
            LocalContextInitError::WebGraph(m) => m.clone(),
        }
    }
}

/// Why handling the links of a page failed; each variant carries the error's message.
#[derive(Debug, Clone, PartialEq, Eq)]
pub enum LinkHandlingError {
    LinkState(String),
    UrlQueue(String),
    LinkNetError(String),
}

impl LinkHandlingError {
    /// The message of the error this one carries.
    pub fn message(&self) -> (r: String)
        ensures
            r@ == match *self {
                LinkHandlingError::LinkState(m) => m@,
                LinkHandlingError::UrlQueue(m) => m@,
                LinkHandlingError::LinkNetError(m) => m@,
            },
    {
        match self {
            LinkHandlingError::LinkState(m) => m.clone(),
            LinkHandlingError::UrlQueue(m) => m.clone(),
            LinkHandlingError::LinkNetError(m) => m.clone(),
        }
    }
}

/// Why writing the result of a crawl failed.
#[derive(Debug, Clone, PartialEq, Eq)]
pub enum CrawlWriteError<E> {
    /// The database failed; the error's message.
    Database(String),
    /// Reading a warc file failed; the error's message.
    WarcReaderError(String),
    /// Writing a warc file failed; the error's message.
    WarcWriterError(String),
    /// Storing the slim result failed.
    SlimError(E),
    /// A temporary file cannot be stored.
    TempFilesCanNotBeStoredError,
}

impl CrawlWriteError<String> {
    /// The message of this error.
    pub fn message(&self) -> (r: String)
        ensures
            r@ == match *self {
                CrawlWriteError::Database(m) => m@,
                CrawlWriteError::WarcReaderError(m) => m@,
                CrawlWriteError::WarcWriterError(m) => m@,
                CrawlWriteError::SlimError(m) => m@,
                CrawlWriteError::TempFilesCanNotBeStoredError =>
                    "Tried to store a tempfile. this is not possible!"@,
            },
    {
        match self {
            CrawlWriteError::Database(m) => m.clone(),
            CrawlWriteError::WarcReaderError(m) => m.clone(),
            CrawlWriteError::WarcWriterError(m) => m.clone(),
            CrawlWriteError::SlimError(m) => m.clone(),
            CrawlWriteError::TempFilesCanNotBeStoredError => String::from_str(
                "Tried to store a tempfile. this is not possible!",
            ),
        }
    }
}

/// Why a seed could not be made from an url.
#[derive(Debug, Clone, PartialEq, Eq)]
pub enum SeedCreationError {
    /// The host of the guard is not that of the url.
    GuardAndUrlDifferInOrigin { origin_from_guard: String, origin_from_url: String },
    /// The url has no host.
    NoOrigin,
}

impl SeedCreationError {
    /// The message of this error.
    pub fn message(&self) -> (r: String)
        ensures
            r@ == match *self {
                SeedCreationError::GuardAndUrlDifferInOrigin { origin_from_guard, origin_from_url } =>
                    "The host "@ + origin_from_guard@ + " (Guard) is not the same as "@
                        + origin_from_url@ + " (url)!"@,
                SeedCreationError::NoOrigin => "No origin found for the url!"@,
            },
    {
        match self {
            SeedCreationError::GuardAndUrlDifferInOrigin { origin_from_guard, origin_from_url } => {
                let mut r = String::from_str("The host ");
                r.append(origin_from_guard.as_str());
                r.append(" (Guard) is not the same as ");
                r.append(origin_from_url.as_str());
                r.append(" (url)!");
                r
            },
            SeedCreationError::NoOrigin => String::from_str("No origin found for the url!"),
        }
    }
}

/// An error of the crawl that stops the run.
#[derive(Debug, Clone, PartialEq, Eq)]
pub enum GlobalError {
    /// Storing a slim result failed; the error's message.
    SlimCrawlError(String),
    LinkHandling(LinkHandlingError),
    /// The state of a link could not be read or written; the error's message.
    LinkState(String),
    /// The database of the link states failed; the error's message.
    LinkStateDatabase(String),
    CrawlWriteError(CrawlWriteError<String>),
    /// The queue failed; the error's message.
    QueueError(String),
    /// The client failed; the error's message.
    ClientError(String),
    /// Reading or writing a file failed; the error's message.
    IOError(String),
}

/// The exit code of a failed crawl.
pub open spec fn crawl_exit_code(e: GlobalError) -> u8 {
    match e {
        GlobalError::SlimCrawlError(_) => 101,
        GlobalError::LinkHandling(_) => 102,
        GlobalError::LinkState(_) => 103,
        GlobalError::LinkStateDatabase(_) => 104,
        GlobalError::CrawlWriteError(_) => 105,
        GlobalError::QueueError(_) => 106,
        GlobalError::ClientError(_) => 107,
        GlobalError::IOError(_) => 109,
    }
}

impl GlobalError {
    /// The exit code of the process after this error.
    pub fn exit_code(&self) -> (r: u8)
        ensures r == crawl_exit_code(*self),
    {
        match self {
            GlobalError::SlimCrawlError(_) => 101,
            GlobalError::LinkHandling(_) => 102,
            GlobalError::LinkState(_) => 103,
            GlobalError::LinkStateDatabase(_) => 104,
            GlobalError::CrawlWriteError(_) => 105,
            GlobalError::QueueError(_) => 106,
            GlobalError::ClientError(_) => 107,
                GlobalError::IOError(_) => 109,
        }
    }
}

/// Why a run stopped.
#[derive(Debug, Clone, PartialEq, Eq)]
pub enum AtraRunError {
    ContextInitialisation(LocalContextInitError),
    /// The context of a worker could not be set up; the error's message.
    WorkerContextInitialisation(String),
    Crawl(GlobalError),
    /// The queue failed; the error's message.
    Queue(String),
}

/// The exit code of a failed run.
pub open spec fn run_exit_code(e: AtraRunError) -> u8 {
    match e {
        AtraRunError::ContextInitialisation(c) => context_exit_code(c),
        AtraRunError::WorkerContextInitialisation(_) => 40,
        AtraRunError::Queue(_) => 50,
        AtraRunError::Crawl(g) => crawl_exit_code(g),
    }
}

impl AtraRunError {
    /// The exit code of the process after this error.
    pub fn exit_code(&self) -> (r: u8)
        ensures r == run_exit_code(*self),
    {
        match self {
            AtraRunError::ContextInitialisation(c) => c.exit_code(),
            AtraRunError::WorkerContextInitialisation(_) => 40,
            AtraRunError::Queue(_) => 50,
            AtraRunError::Crawl(g) => g.exit_code(),
        }
    }
}

/// The exit code of a failed run tells at which stage it failed, and no failed run ends
/// with the code of a failed preparation.
pub proof fn law_exit_code_tells_the_stage(e: AtraRunError, i: InstructionError)
    ensures
        11 <= run_exit_code(e) <= 18 <==> e is ContextInitialisation,
        run_exit_code(e) == 40 <==> e is WorkerContextInitialisation,
        run_exit_code(e) == 50 <==> e is Queue,
        101 <= run_exit_code(e) <= 109 <==> e is Crawl,
        run_exit_code(e) != instruction_exit_code(i),
        instruction_exit_code(i) != 0,
        run_exit_code(e) != 0,
{
}

} // verus!
