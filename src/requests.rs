use vstd::prelude::*;

verus! {

/// One piece of filesystem work that a session asks its caller to perform.
pub enum FsRequest {
    /// Does anything exist at this path?
    Exists(String),
    /// Create this directory and every missing ancestor.
    CreateDirAll(String),
    /// Replace the file at this path with this text.
    WriteFile(String, String),
    /// Read the whole file at this path as UTF-8 text.
    ReadToString(String),
    /// Write a small file at this path, then remove it, ignoring a failed removal.
    ProbeWrite(String),
    /// The size in bytes of the file at this path.
    FileSize(String),
}

/// The caller's answer to an [`FsRequest`].
pub enum FsReply {
    /// Answer to `Exists`.
    Exists(bool),
    /// The work succeeded and produced no value.
    Done,
    /// The work failed; holds the filesystem's message.
    Failed(String),
    /// Answer to `ReadToString`.
    Text(String),
    /// Answer to `FileSize`.
    Size(u64),
}

/// The mathematical value of an [`FsRequest`].
pub enum RequestModel {
    Exists(Seq<char>),
    CreateDirAll(Seq<char>),
    WriteFile(Seq<char>, Seq<char>),
    ReadToString(Seq<char>),
    ProbeWrite(Seq<char>),
    FileSize(Seq<char>),
}

/// The mathematical value of an [`FsReply`].
pub enum ReplyModel {
    Exists(bool),
    Done,
    Failed(Seq<char>),
    Text(Seq<char>),
    Size(u64),
}

impl View for FsRequest {
    type V = RequestModel;

    open spec fn view(&self) -> RequestModel {
        match self {
            FsRequest::Exists(p) => RequestModel::Exists(p@),
            FsRequest::CreateDirAll(p) => RequestModel::CreateDirAll(p@),
            FsRequest::WriteFile(p, t) => RequestModel::WriteFile(p@, t@),
            FsRequest::ReadToString(p) => RequestModel::ReadToString(p@),
            FsRequest::ProbeWrite(p) => RequestModel::ProbeWrite(p@),
            FsRequest::FileSize(p) => RequestModel::FileSize(p@),
        }
    }
}

impl View for FsReply {
    type V = ReplyModel;

    open spec fn view(&self) -> ReplyModel {
        match self {
            FsReply::Exists(b) => ReplyModel::Exists(*b),
            FsReply::Done => ReplyModel::Done,
            FsReply::Failed(m) => ReplyModel::Failed(m@),
            FsReply::Text(t) => ReplyModel::Text(t@),
            FsReply::Size(n) => ReplyModel::Size(*n),
        }
    }
}

/// Whether `reply` is a possible answer to `request`: a yes or no to an
/// existence question, text or a failure to a read, a size or a failure to a
/// size question, and success or failure to the rest.
pub open spec fn answers(request: RequestModel, reply: ReplyModel) -> bool {
    match request {
        RequestModel::Exists(_) => reply is Exists,
        RequestModel::ReadToString(_) => reply is Text || reply is Failed,
        RequestModel::FileSize(_) => reply is Size || reply is Failed,
        _ => reply is Done || reply is Failed,
    }
}

impl FsRequest {
    /// Whether `reply` is a possible answer to this request.
    pub fn accepts(&self, reply: &FsReply) -> (r: bool)
        ensures
            r == answers(self@, reply@),
    {
        match self {
            FsRequest::Exists(_) => matches!(reply, FsReply::Exists(_)),
            FsRequest::ReadToString(_) => matches!(reply, FsReply::Text(_) | FsReply::Failed(_)),
            FsRequest::FileSize(_) => matches!(reply, FsReply::Size(_) | FsReply::Failed(_)),
            _ => matches!(reply, FsReply::Done | FsReply::Failed(_)),
        }
    }
}

} // verus!
