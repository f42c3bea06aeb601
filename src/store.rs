use vstd::prelude::*;
use vstd::string::*;

use crate::document::{encode_spec, Document};
use crate::error::{ErrorModel, StorageError};
use crate::paths::{cache_dir_path, cache_dir_spec, storage_path, storage_path_spec};
use crate::requests::{answers, FsReply, FsRequest, ReplyModel, RequestModel};

verus! {

/// Where a save stands: the request it is waiting on.
#[derive(Clone, Copy, PartialEq, Eq, Structural, Debug)]
pub enum SaveStage {
    /// Waiting to learn whether the data directory exists.
    CheckBase,
    /// Waiting for the data directory to be created.
    CreateBase,
    /// Waiting to learn whether the cache directory exists.
    CheckCache,
    /// Waiting for the cache directory to be created.
    CreateCache,
    /// Waiting for the document to be written.
    Write,
}

/// A save in progress.
pub struct SaveSession {
    stage: SaveStage,
    base: String,
    identifier: String,
    blob: String,
}

/// The mathematical value of a [`SaveSession`].
pub struct SaveModel {
    pub stage: SaveStage,
    pub base: Seq<char>,
    pub identifier: Seq<char>,
    pub blob: Seq<char>,
}

/// What a save does next.
pub enum SaveStep {
    /// Perform the request, then hand its reply to the session.
    Perform(SaveSession, FsRequest),
    /// The save is over.
    Finished(Result<(), StorageError>),
}

/// The mathematical value of a [`SaveStep`].
pub enum SaveStepModel {
    Perform(SaveModel, RequestModel),
    Finished(Result<(), ErrorModel>),
}

impl View for SaveSession {
    type V = SaveModel;

    closed spec fn view(&self) -> SaveModel {
        SaveModel {
            stage: self.stage,
            base: self.base@,
            identifier: self.identifier@,
            blob: self.blob@,
        }
    }
}

impl View for SaveStep {
    type V = SaveStepModel;

    open spec fn view(&self) -> SaveStepModel {
        match self {
            SaveStep::Perform(s, r) => SaveStepModel::Perform(s@, r@),
            SaveStep::Finished(Ok(())) => SaveStepModel::Finished(Ok(())),
            SaveStep::Finished(Err(e)) => SaveStepModel::Finished(Err(e@)),
        }
    }
}

/// The request a save waits on at its stage.
pub open spec fn save_request(m: SaveModel) -> RequestModel {
    match m.stage {
        SaveStage::CheckBase => RequestModel::Exists(m.base),
        SaveStage::CreateBase => RequestModel::CreateDirAll(m.base),
        SaveStage::CheckCache => RequestModel::Exists(cache_dir_spec(m.base, m.identifier)),
        SaveStage::CreateCache => RequestModel::CreateDirAll(cache_dir_spec(m.base, m.identifier)),
        SaveStage::Write => RequestModel::WriteFile(
            storage_path_spec(m.base, m.identifier),
            m.blob,
        ),
    }
}

/// Moving a save to `stage`, with the request of that stage.
pub open spec fn save_goto(m: SaveModel, stage: SaveStage) -> SaveStepModel {
    let n = SaveModel { stage, ..m };
    SaveStepModel::Perform(n, save_request(n))
}

/// How a save begins: without a data directory it fails at once; otherwise it
/// asks whether the data directory exists, with the document's text to write.
pub open spec fn save_start(base: Option<Seq<char>>, identifier: Seq<char>, blob: Seq<char>) -> SaveStepModel {
    match base {
        None => SaveStepModel::Finished(Err(ErrorModel::PathResolution)),
        Some(b) => save_goto(
            SaveModel { stage: SaveStage::CheckBase, base: b, identifier, blob },
            SaveStage::CheckBase,
        ),
    }
}

/// How a save goes on from a reply: a missing directory is created, an
/// existing one is left alone, the data directory before the cache directory;
/// then the document is written. The first failure ends the save with its
/// message; a written document ends it with success.
pub open spec fn save_resume(m: SaveModel, reply: ReplyModel) -> SaveStepModel {
    match m.stage {
        SaveStage::CheckBase => if reply == ReplyModel::Exists(true) {
            save_goto(m, SaveStage::CheckCache)
        } else {
            save_goto(m, SaveStage::CreateBase)
        },
        SaveStage::CreateBase => match reply {
            ReplyModel::Failed(e) => SaveStepModel::Finished(Err(ErrorModel::DirectoryCreation(e))),
            _ => save_goto(m, SaveStage::CheckCache),
        },
        SaveStage::CheckCache => if reply == ReplyModel::Exists(true) {
            save_goto(m, SaveStage::Write)
        } else {
            save_goto(m, SaveStage::CreateCache)
        },
        SaveStage::CreateCache => match reply {
            ReplyModel::Failed(e) => SaveStepModel::Finished(Err(ErrorModel::DirectoryCreation(e))),
            _ => save_goto(m, SaveStage::Write),
        },
        SaveStage::Write => match reply {
            ReplyModel::Failed(e) => SaveStepModel::Finished(Err(ErrorModel::Write(e))),
            _ => SaveStepModel::Finished(Ok(())),
        },
    }
}

impl SaveSession {
    /// The request this session waits on.
    pub fn request(&self) -> (r: FsRequest)
        ensures
            r@ == save_request(self@),
    {
        match self.stage {
            SaveStage::CheckBase => FsRequest::Exists(self.base.clone()),
            SaveStage::CreateBase => FsRequest::CreateDirAll(self.base.clone()),
            SaveStage::CheckCache => FsRequest::Exists(
                cache_dir_path(self.base.as_str(), self.identifier.as_str()),
            ),
            SaveStage::CreateCache => FsRequest::CreateDirAll(
                cache_dir_path(self.base.as_str(), self.identifier.as_str()),
            ),
            SaveStage::Write => FsRequest::WriteFile(
                storage_path(self.base.as_str(), self.identifier.as_str()),
                self.blob.clone(),
            ),
        }
    }

    fn goto(self, stage: SaveStage) -> (r: SaveStep)
        ensures
            r@ == save_goto(self@, stage),
    {
        let n = SaveSession { stage, ..self };
        let req = n.request();
        SaveStep::Perform(n, req)
    }

    /// Begins saving `document` for the application `identifier` under the
    /// data directory `base`, which is `None` where the host has none.
    pub fn start(base: Option<String>, identifier: &str, document: &Document) -> (r: SaveStep)
        ensures
            r@ == save_start(
                match base {
                    Some(b) => Some(b@),
                    None => None,
                },
                identifier@,
                encode_spec(document@),
            ),
    {
        match base {
            None => SaveStep::Finished(Err(StorageError::PathResolution)),
            Some(b) => {
                let s = SaveSession {
                    stage: SaveStage::CheckBase,
                    base: b,
                    identifier: String::from_str(identifier),
                    blob: document.encode(),
                };
                s.goto(SaveStage::CheckBase)
            },
        }
    }

    /// Goes on from the reply to [`SaveSession::request`].
    pub fn resume(self, reply: FsReply) -> (r: SaveStep)
        requires
            answers(save_request(self@), reply@),
        ensures
            r@ == save_resume(self@, reply@),
    {
        match self.stage {
            SaveStage::CheckBase => match reply {
                FsReply::Exists(true) => self.goto(SaveStage::CheckCache),
                _ => self.goto(SaveStage::CreateBase),
            },
            SaveStage::CreateBase => match reply {
                FsReply::Failed(e) => SaveStep::Finished(Err(StorageError::DirectoryCreation(e))),
                _ => self.goto(SaveStage::CheckCache),
            },
            SaveStage::CheckCache => match reply {
                FsReply::Exists(true) => self.goto(SaveStage::Write),
                _ => self.goto(SaveStage::CreateCache),
            },
            SaveStage::CreateCache => match reply {
                FsReply::Failed(e) => SaveStep::Finished(Err(StorageError::DirectoryCreation(e))),
                _ => self.goto(SaveStage::Write),
            },
            SaveStage::Write => match reply {
                FsReply::Failed(e) => SaveStep::Finished(Err(StorageError::Write(e))),
                _ => SaveStep::Finished(Ok(())),
            },
        }
    }
}

/// Where a load stands.
#[derive(Clone, Copy, PartialEq, Eq, Structural, Debug)]
pub enum LoadStage {
    /// Waiting to learn whether the document's file exists.
    CheckFile,
    /// Waiting for the document's text.
    Read,
}

/// A load in progress.
pub struct LoadSession {
    stage: LoadStage,
    file: String,
}

/// The mathematical value of a [`LoadSession`].
pub struct LoadModel {
    pub stage: LoadStage,
    pub file: Seq<char>,
}

/// What a load does next.
pub enum LoadStep {
    /// Perform the request, then hand its reply to the session.
    Perform(LoadSession, FsRequest),
    /// The load is over.
    Finished(Result<String, StorageError>),
}

/// The mathematical value of a [`LoadStep`].
pub enum LoadStepModel {
    Perform(LoadModel, RequestModel),
    Finished(Result<Seq<char>, ErrorModel>),
}

impl View for LoadSession {
    type V = LoadModel;

    closed spec fn view(&self) -> LoadModel {
        LoadModel { stage: self.stage, file: self.file@ }
    }
}

impl View for LoadStep {
    type V = LoadStepModel;

    open spec fn view(&self) -> LoadStepModel {
        match self {
            LoadStep::Perform(s, r) => LoadStepModel::Perform(s@, r@),
            LoadStep::Finished(Ok(t)) => LoadStepModel::Finished(Ok(t@)),
            LoadStep::Finished(Err(e)) => LoadStepModel::Finished(Err(e@)),
        }
    }
}

/// The request a load waits on at its stage.
pub open spec fn load_request(m: LoadModel) -> RequestModel {
    match m.stage {
        LoadStage::CheckFile => RequestModel::Exists(m.file),
        LoadStage::Read => RequestModel::ReadToString(m.file),
    }
}

/// How a load begins: without a data directory it fails at once; otherwise it
/// asks whether the document's file exists.
pub open spec fn load_start(base: Option<Seq<char>>, identifier: Seq<char>) -> LoadStepModel {
    match base {
        None => LoadStepModel::Finished(Err(ErrorModel::PathResolution)),
        Some(b) => {
            let m = LoadModel { stage: LoadStage::CheckFile, file: storage_path_spec(b, identifier) };
            LoadStepModel::Perform(m, load_request(m))
        },
    }
}

/// How a load goes on from a reply: a missing file gives the empty text; an
/// existing one is read, and its text, or the failure to read it, ends the load.
pub open spec fn load_resume(m: LoadModel, reply: ReplyModel) -> LoadStepModel {
    match m.stage {
        LoadStage::CheckFile => if reply == ReplyModel::Exists(true) {
            let n = LoadModel { stage: LoadStage::Read, ..m };
            LoadStepModel::Perform(n, load_request(n))
        } else {
            LoadStepModel::Finished(Ok(Seq::empty()))
        },
        LoadStage::Read => match reply {
            ReplyModel::Text(t) => LoadStepModel::Finished(Ok(t)),
            ReplyModel::Failed(e) => LoadStepModel::Finished(Err(ErrorModel::Read(e))),
            _ => LoadStepModel::Finished(Err(ErrorModel::Read(Seq::empty()))),
        },
    }
}

impl LoadSession {
    /// The request this session waits on.
    pub fn request(&self) -> (r: FsRequest)
        ensures
            r@ == load_request(self@),
    {
        match self.stage {
            LoadStage::CheckFile => FsRequest::Exists(self.file.clone()),
            LoadStage::Read => FsRequest::ReadToString(self.file.clone()),
        }
    }

    /// Begins loading the document of the application `identifier` under the
    /// data directory `base`, which is `None` where the host has none.
    pub fn start(base: Option<String>, identifier: &str) -> (r: LoadStep)
        ensures
            r@ == load_start(
                match base {
                    Some(b) => Some(b@),
                    None => None,
                },
                identifier@,
            ),
    {
        match base {
            None => LoadStep::Finished(Err(StorageError::PathResolution)),
            Some(b) => {
                let s = LoadSession {
                    stage: LoadStage::CheckFile,
                    file: storage_path(b.as_str(), identifier),
                };
                let req = s.request();
                LoadStep::Perform(s, req)
            },
        }
    }

    /// Goes on from the reply to [`LoadSession::request`].
    pub fn resume(self, reply: FsReply) -> (r: LoadStep)
        requires
            answers(load_request(self@), reply@),
        ensures
            r@ == load_resume(self@, reply@),
    {
        match self.stage {
            LoadStage::CheckFile => match reply {
                FsReply::Exists(true) => {
                    let n = LoadSession { stage: LoadStage::Read, ..self };
                    let req = n.request();
                    LoadStep::Perform(n, req)
                },
                _ => LoadStep::Finished(Ok(String::new())),
            },
            LoadStage::Read => match reply {
                FsReply::Text(t) => LoadStep::Finished(Ok(t)),
                FsReply::Failed(e) => LoadStep::Finished(Err(StorageError::Read(e))),
                _ => LoadStep::Finished(Err(StorageError::Read(String::new()))),
            },
        }
    }
}

} // verus!
