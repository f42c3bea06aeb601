use vstd::prelude::*;
use vstd::string::*;

use crate::paths::{join, join_spec, probe_path, probe_path_spec, storage_path, storage_path_spec};
use crate::requests::{answers, FsReply, FsRequest, ReplyModel, RequestModel};

verus! {

/// What `{:?}` prints for a string: the text quoted, with special characters
/// escaped.
pub uninterp spec fn debug_text_of(s: Seq<char>) -> Seq<char>;

/// Relies on std's `Debug` for `str`: the quoted, escaped form of a path as the
/// report prints it, which depends on the text alone.
#[verifier::external_body]
fn debug_text(s: &str) -> (r: String)
    ensures
        r@ == debug_text_of(s@),
{
    format!("{:?}", s)
}

/// The decimal digits.
pub const DIGITS: &'static str = "0123456789";

/// The decimal form of `n`, without leading zeros.
pub open spec fn decimal_spec(n: nat) -> Seq<char>
    decreases n,
{
    if n < 10 {
        DIGITS@.subrange(n as int, n + 1int)
    } else {
        decimal_spec(n / 10) + DIGITS@.subrange((n % 10) as int, (n % 10) as int + 1)
    }
}

/// The decimal form of `n`.
pub fn decimal(n: u64) -> (r: String)
    ensures
        r@ == decimal_spec(n as nat),
    decreases n,
{
    proof {
        reveal_strlit("0123456789");
    }
    let d = (n % 10) as usize;
    let digit = DIGITS.substring_char(d, d + 1);
    if n < 10 {
        String::from_str(digit)
    } else {
        let mut r = decimal(n / 10);
        r.append(digit);
        r
    }
}

pub const DATA_DIR_LABEL: &'static str = "App data directory: ";
pub const NO_DATA_DIR_LINE: &'static str = "Failed to get app data directory\n";
pub const CACHE_DIR_LABEL: &'static str = "App cache directory: ";
pub const NO_CACHE_DIR_LINE: &'static str = "Failed to get app cache directory\n";
pub const APP_DIR_LABEL: &'static str = "App-specific cache directory: ";
pub const FILE_LABEL: &'static str = "\nExcalidraw file path: ";
pub const NEWLINE: &'static str = "\n";
pub const DIR_EXISTS: &'static str = "  - Directory exists\n";
pub const DIR_MISSING: &'static str = "  - Directory does NOT exist\n";
pub const DIR_WRITABLE: &'static str = "  - Directory is writable\n";
pub const DIR_NOT_WRITABLE: &'static str = "  - Directory is NOT writable: ";
pub const DIR_CREATED: &'static str = "  - Successfully created directory\n";
pub const DIR_NOT_CREATED: &'static str = "  - Failed to create directory: ";
pub const APP_DIR_CREATED: &'static str = "  - Successfully created app-specific cache directory\n";
pub const APP_DIR_NOT_CREATED: &'static str = "  - Failed to create app-specific cache directory: ";
pub const APP_DIR_WRITABLE: &'static str = "  - App-specific cache is writable\n";
pub const APP_DIR_NOT_WRITABLE: &'static str = "  - App-specific cache is NOT writable: ";
pub const FILE_EXISTS: &'static str = "  - File exists\n";
pub const FILE_MISSING: &'static str = "  - File does NOT exist yet\n";
pub const FILE_SIZE: &'static str = "  - File size: ";
pub const BYTES: &'static str = " bytes\n";
pub const NO_METADATA: &'static str = "  - Failed to get file metadata: ";

/// Where a diagnostic run stands: the request it is waiting on.
#[derive(Clone, Copy, PartialEq, Eq, Structural, Debug)]
pub enum DiagStage {
    /// Does the data directory exist?
    DataExists,
    /// Can a file be written in the data directory?
    DataProbe,
    /// Creating the missing data directory.
    DataCreate,
    /// Does the cache directory exist?
    CacheExists,
    /// Creating the missing cache directory.
    CacheCreate,
    /// Does the application's cache directory exist?
    AppExists,
    /// Creating the missing application cache directory.
    AppCreate,
    /// Can a file be written in the application's cache directory?
    AppProbe,
    /// Does the document's file exist?
    FileExists,
    /// The size of the document's file.
    FileSize,
}

/// A diagnostic run in progress: the directories it probes and the report so far.
pub struct Diagnostics {
    stage: DiagStage,
    data_dir: Option<String>,
    cache_dir: Option<String>,
    identifier: String,
    report: String,
}

/// The mathematical value of a [`Diagnostics`].
pub struct DiagModel {
    pub stage: DiagStage,
    pub data_dir: Option<Seq<char>>,
    pub cache_dir: Option<Seq<char>>,
    pub identifier: Seq<char>,
    pub report: Seq<char>,
}

/// What a diagnostic run does next.
pub enum DiagStep {
    /// Perform the request, then hand its reply to the run.
    Perform(Diagnostics, FsRequest),
    /// The run is over; holds the report.
    Finished(String),
}

/// The mathematical value of a [`DiagStep`].
pub enum DiagStepModel {
    Perform(DiagModel, RequestModel),
    Finished(Seq<char>),
}

impl View for Diagnostics {
    type V = DiagModel;

    closed spec fn view(&self) -> DiagModel {
        DiagModel {
            stage: self.stage,
            data_dir: opt_view(self.data_dir),
            cache_dir: opt_view(self.cache_dir),
            identifier: self.identifier@,
            report: self.report@,
        }
    }
}

impl View for DiagStep {
    type V = DiagStepModel;

    open spec fn view(&self) -> DiagStepModel {
        match self {
            DiagStep::Perform(d, r) => DiagStepModel::Perform(d@, r@),
            DiagStep::Finished(t) => DiagStepModel::Finished(t@),
        }
    }
}

/// The text of an optional string.
pub open spec fn opt_view(o: Option<String>) -> Option<Seq<char>> {
    match o {
        Some(s) => Some(s@),
        None => None,
    }
}

/// The text of an optional path, empty where there is none.
pub open spec fn or_empty(o: Option<Seq<char>>) -> Seq<char> {
    match o {
        Some(s) => s,
        None => Seq::empty(),
    }
}

/// The application's own cache directory: `<cache dir>/<identifier>`.
pub open spec fn app_dir_spec(m: DiagModel) -> Seq<char> {
    join_spec(or_empty(m.cache_dir), m.identifier)
}

/// The document's file under the data directory.
pub open spec fn diag_file_spec(m: DiagModel) -> Seq<char> {
    storage_path_spec(or_empty(m.data_dir), m.identifier)
}

/// The request a diagnostic run waits on at its stage.
pub open spec fn diag_request(m: DiagModel) -> RequestModel {
    match m.stage {
        DiagStage::DataExists => RequestModel::Exists(or_empty(m.data_dir)),
        DiagStage::DataProbe => RequestModel::ProbeWrite(probe_path_spec(or_empty(m.data_dir))),
        DiagStage::DataCreate => RequestModel::CreateDirAll(or_empty(m.data_dir)),
        DiagStage::CacheExists => RequestModel::Exists(or_empty(m.cache_dir)),
        DiagStage::CacheCreate => RequestModel::CreateDirAll(or_empty(m.cache_dir)),
        DiagStage::AppExists => RequestModel::Exists(app_dir_spec(m)),
        DiagStage::AppCreate => RequestModel::CreateDirAll(app_dir_spec(m)),
        DiagStage::AppProbe => RequestModel::ProbeWrite(probe_path_spec(app_dir_spec(m))),
        DiagStage::FileExists => RequestModel::Exists(diag_file_spec(m)),
        DiagStage::FileSize => RequestModel::FileSize(diag_file_spec(m)),
    }
}

/// The run with `text` added to its report.
pub open spec fn with_text(m: DiagModel, text: Seq<char>) -> DiagModel {
    DiagModel { report: m.report + text, ..m }
}

/// A line made of a label, a detail and a line end.
pub open spec fn line(label: Seq<char>, detail: Seq<char>) -> Seq<char> {
    label + detail + NEWLINE@
}

/// Moving a run to `stage`, with the request of that stage.
pub open spec fn diag_goto(m: DiagModel, stage: DiagStage) -> DiagStepModel {
    let n = DiagModel { stage, ..m };
    DiagStepModel::Perform(n, diag_request(n))
}

/// The document file's part: its path and whether it exists; without a data
/// directory the report ends here.
pub open spec fn enter_file(m: DiagModel) -> DiagStepModel {
    match m.data_dir {
        None => DiagStepModel::Finished(m.report),
        Some(_) => diag_goto(
            with_text(m, line(FILE_LABEL@, debug_text_of(diag_file_spec(m)))),
            DiagStage::FileExists,
        ),
    }
}

/// The application cache directory's part.
pub open spec fn enter_app(m: DiagModel) -> DiagStepModel {
    diag_goto(with_text(m, line(APP_DIR_LABEL@, debug_text_of(app_dir_spec(m)))), DiagStage::AppExists)
}

/// The cache directory's part, or a line saying there is none.
pub open spec fn enter_cache(m: DiagModel) -> DiagStepModel {
    match m.cache_dir {
        Some(c) => diag_goto(with_text(m, line(CACHE_DIR_LABEL@, debug_text_of(c))), DiagStage::CacheExists),
        None => enter_file(with_text(m, NO_CACHE_DIR_LINE@)),
    }
}

/// How a diagnostic run begins: with the data directory's part, or a line
/// saying there is none.
pub open spec fn diag_start(
    data_dir: Option<Seq<char>>,
    cache_dir: Option<Seq<char>>,
    identifier: Seq<char>,
) -> DiagStepModel {
    let m = DiagModel { stage: DiagStage::DataExists, data_dir, cache_dir, identifier, report: Seq::empty() };
    match data_dir {
        Some(d) => diag_goto(with_text(m, line(DATA_DIR_LABEL@, debug_text_of(d))), DiagStage::DataExists),
        None => enter_cache(with_text(m, NO_DATA_DIR_LINE@)),
    }
}

/// How a diagnostic run goes on from a reply. An existing data directory is
/// tested for writing, a missing one created; the cache directory is created if
/// missing; the application's cache directory is created if missing and then
/// tested for writing; the document file's size is given where it exists.
/// Every outcome, failures included, becomes a line of the report.
pub open spec fn diag_resume(m: DiagModel, reply: ReplyModel) -> DiagStepModel {
    match m.stage {
        DiagStage::DataExists => if reply == ReplyModel::Exists(true) {
            diag_goto(with_text(m, DIR_EXISTS@), DiagStage::DataProbe)
        } else {
            diag_goto(with_text(m, DIR_MISSING@), DiagStage::DataCreate)
        },
        DiagStage::DataProbe => match reply {
            ReplyModel::Failed(e) => enter_cache(with_text(m, line(DIR_NOT_WRITABLE@, e))),
            _ => enter_cache(with_text(m, DIR_WRITABLE@)),
        },
        DiagStage::DataCreate => match reply {
            ReplyModel::Failed(e) => enter_cache(with_text(m, line(DIR_NOT_CREATED@, e))),
            _ => enter_cache(with_text(m, DIR_CREATED@)),
        },
        DiagStage::CacheExists => if reply == ReplyModel::Exists(true) {
            enter_app(with_text(m, DIR_EXISTS@))
        } else {
            diag_goto(with_text(m, DIR_MISSING@), DiagStage::CacheCreate)
        },
        DiagStage::CacheCreate => match reply {
            ReplyModel::Failed(e) => enter_app(with_text(m, line(DIR_NOT_CREATED@, e))),
            _ => enter_app(with_text(m, DIR_CREATED@)),
        },
        DiagStage::AppExists => if reply == ReplyModel::Exists(true) {
            diag_goto(m, DiagStage::AppProbe)
        } else {
            diag_goto(m, DiagStage::AppCreate)
        },
        DiagStage::AppCreate => match reply {
            ReplyModel::Failed(e) => diag_goto(with_text(m, line(APP_DIR_NOT_CREATED@, e)), DiagStage::AppProbe),
            _ => diag_goto(with_text(m, APP_DIR_CREATED@), DiagStage::AppProbe),
        },
        DiagStage::AppProbe => match reply {
            ReplyModel::Failed(e) => enter_file(with_text(m, line(APP_DIR_NOT_WRITABLE@, e))),
            _ => enter_file(with_text(m, APP_DIR_WRITABLE@)),
        },
        DiagStage::FileExists => if reply == ReplyModel::Exists(true) {
            diag_goto(with_text(m, FILE_EXISTS@), DiagStage::FileSize)
        } else {
            DiagStepModel::Finished(m.report + FILE_MISSING@)
        },
        DiagStage::FileSize => match reply {
            ReplyModel::Size(n) => DiagStepModel::Finished(m.report + FILE_SIZE@ + decimal_spec(n as nat) + BYTES@),
            ReplyModel::Failed(e) => DiagStepModel::Finished(m.report + line(NO_METADATA@, e)),
            _ => DiagStepModel::Finished(m.report),
        },
    }
}

impl Diagnostics {
    fn data_path(&self) -> (r: String)
        ensures
            r@ == or_empty(self@.data_dir),
    {
        match &self.data_dir {
            Some(d) => d.clone(),
            None => String::new(),
        }
    }

    fn cache_path(&self) -> (r: String)
        ensures
            r@ == or_empty(self@.cache_dir),
    {
        match &self.cache_dir {
            Some(c) => c.clone(),
            None => String::new(),
        }
    }

    fn app_path(&self) -> (r: String)
        ensures
            r@ == app_dir_spec(self@),
    {
        let c = self.cache_path();
        join(c.as_str(), self.identifier.as_str())
    }

    fn file_path(&self) -> (r: String)
        ensures
            r@ == diag_file_spec(self@),
    {
        let d = self.data_path();
        storage_path(d.as_str(), self.identifier.as_str())
    }

    /// The request this run waits on.
    pub fn request(&self) -> (r: FsRequest)
        ensures
            r@ == diag_request(self@),
    {
        match self.stage {
            DiagStage::DataExists => FsRequest::Exists(self.data_path()),
            DiagStage::DataProbe => {
                let d = self.data_path();
                FsRequest::ProbeWrite(probe_path(d.as_str()))
            },
            DiagStage::DataCreate => FsRequest::CreateDirAll(self.data_path()),
            DiagStage::CacheExists => FsRequest::Exists(self.cache_path()),
            DiagStage::CacheCreate => FsRequest::CreateDirAll(self.cache_path()),
            DiagStage::AppExists => FsRequest::Exists(self.app_path()),
            DiagStage::AppCreate => FsRequest::CreateDirAll(self.app_path()),
            DiagStage::AppProbe => {
                let a = self.app_path();
                FsRequest::ProbeWrite(probe_path(a.as_str()))
            },
            DiagStage::FileExists => FsRequest::Exists(self.file_path()),
            DiagStage::FileSize => FsRequest::FileSize(self.file_path()),
        }
    }

    fn add(&mut self, text: &str)
        ensures
            final(self)@ == with_text(old(self)@, text@),
    {
        self.report.append(text);
    }

    fn add_line(&mut self, label: &str, detail: &str)
        ensures
            final(self)@ == with_text(old(self)@, line(label@, detail@)),
    {
        let ghost before = self.report@;
        self.report.append(label);
        self.report.append(detail);
        self.report.append(NEWLINE);
        assert(self.report@ =~= before + line(label@, detail@));
    }

    fn goto(self, stage: DiagStage) -> (r: DiagStep)
        ensures
            r@ == diag_goto(self@, stage),
    {
        let n = Diagnostics { stage, ..self };
        let req = n.request();
        DiagStep::Perform(n, req)
    }

    fn enter_file(self) -> (r: DiagStep)
        ensures
            r@ == enter_file(self@),
    {
        let mut s = self;
        if s.data_dir.is_none() {
            return DiagStep::Finished(s.report);
        }
        let f = s.file_path();
        let shown = debug_text(f.as_str());
        s.add_line(FILE_LABEL, shown.as_str());
        s.goto(DiagStage::FileExists)
    }

    fn enter_app(self) -> (r: DiagStep)
        ensures
            r@ == enter_app(self@),
    {
        let mut s = self;
        let a = s.app_path();
        let shown = debug_text(a.as_str());
        s.add_line(APP_DIR_LABEL, shown.as_str());
        s.goto(DiagStage::AppExists)
    }

    fn enter_cache(self) -> (r: DiagStep)
        ensures
            r@ == enter_cache(self@),
    {
        let mut s = self;
        let shown = match &s.cache_dir {
            Some(c) => Some(debug_text(c.as_str())),
            None => None,
        };
        match shown {
            Some(t) => {
                s.add_line(CACHE_DIR_LABEL, t.as_str());
                s.goto(DiagStage::CacheExists)
            },
            None => {
                s.add(NO_CACHE_DIR_LINE);
                s.enter_file()
            },
        }
    }

    /// Begins a diagnostic run over the data directory `data_dir` and the cache
    /// directory `cache_dir`, each `None` where the host has none, for the
    /// application `identifier`.
    pub fn start(data_dir: Option<String>, cache_dir: Option<String>, identifier: &str) -> (r: DiagStep)
        ensures
            r@ == diag_start(opt_view(data_dir), opt_view(cache_dir), identifier@),
    {
        let shown = match &data_dir {
            Some(d) => Some(debug_text(d.as_str())),
            None => None,
        };
        let mut s = Diagnostics {
            stage: DiagStage::DataExists,
            data_dir,
            cache_dir,
            identifier: String::from_str(identifier),
            report: String::new(),
        };
        match shown {
            Some(t) => {
                s.add_line(DATA_DIR_LABEL, t.as_str());
                s.goto(DiagStage::DataExists)
            },
            None => {
                s.add(NO_DATA_DIR_LINE);
                s.enter_cache()
            },
        }
    }

    /// Goes on from the reply to [`Diagnostics::request`].
    pub fn resume(self, reply: FsReply) -> (r: DiagStep)
        requires
            answers(diag_request(self@), reply@),
        ensures
            r@ == diag_resume(self@, reply@),
    {
        let mut s = self;
        match s.stage {
            DiagStage::DataExists => match reply {
                FsReply::Exists(true) => {
                    s.add(DIR_EXISTS);
                    s.goto(DiagStage::DataProbe)
                },
                _ => {
                    s.add(DIR_MISSING);
                    s.goto(DiagStage::DataCreate)
                },
            },
            DiagStage::DataProbe => {
                match reply {
                    FsReply::Failed(e) => s.add_line(DIR_NOT_WRITABLE, e.as_str()),
                    _ => s.add(DIR_WRITABLE),
                }
                s.enter_cache()
            },
            DiagStage::DataCreate => {
                match reply {
                    FsReply::Failed(e) => s.add_line(DIR_NOT_CREATED, e.as_str()),
                    _ => s.add(DIR_CREATED),
                }
                s.enter_cache()
            },
            DiagStage::CacheExists => match reply {
                FsReply::Exists(true) => {
                    s.add(DIR_EXISTS);
                    s.enter_app()
                },
                _ => {
                    s.add(DIR_MISSING);
                    s.goto(DiagStage::CacheCreate)
                },
            },
            DiagStage::CacheCreate => {
                match reply {
                    FsReply::Failed(e) => s.add_line(DIR_NOT_CREATED, e.as_str()),
                    _ => s.add(DIR_CREATED),
                }
                s.enter_app()
            },
            DiagStage::AppExists => match reply {
                FsReply::Exists(true) => s.goto(DiagStage::AppProbe),
                _ => s.goto(DiagStage::AppCreate),
            },
            DiagStage::AppCreate => {
                match reply {
                    FsReply::Failed(e) => s.add_line(APP_DIR_NOT_CREATED, e.as_str()),
                    _ => s.add(APP_DIR_CREATED),
                }
                s.goto(DiagStage::AppProbe)
            },
            DiagStage::AppProbe => {
                match reply {
                    FsReply::Failed(e) => s.add_line(APP_DIR_NOT_WRITABLE, e.as_str()),
                    _ => s.add(APP_DIR_WRITABLE),
                }
                s.enter_file()
            },
            DiagStage::FileExists => match reply {
                FsReply::Exists(true) => {
                    s.add(FILE_EXISTS);
                    s.goto(DiagStage::FileSize)
                },
                _ => {
                    s.add(FILE_MISSING);
                    DiagStep::Finished(s.report)
                },
            },
            DiagStage::FileSize => {
                match reply {
                    FsReply::Size(n) => {
                        let digits = decimal(n);
                        s.add(FILE_SIZE);
                        s.add(digits.as_str());
                        s.add(BYTES);
                    },
                    FsReply::Failed(e) => s.add_line(NO_METADATA, e.as_str()),
                    _ => {},
                }
                DiagStep::Finished(s.report)
            },
        }
    }
}

} // verus!
