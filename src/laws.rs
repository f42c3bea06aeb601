use vstd::prelude::*;

use crate::diagnostics::{
    debug_text_of, diag_request, diag_resume, diag_start, line, or_empty, with_text, DiagModel,
    DiagStage, DiagStepModel, DATA_DIR_LABEL, DIR_CREATED, DIR_MISSING, FILE_MISSING,
};
use crate::document::{encode_spec, DocumentModel};
use crate::error::ErrorModel;
use crate::paths::{cache_dir_spec, storage_path_spec};
use crate::requests::{answers, ReplyModel, RequestModel};
use crate::store::{
    load_resume, load_start, save_resume, save_start, LoadStepModel, SaveStepModel,
};

verus! {

/// A filesystem on which every request succeeds: the directories and the
/// files, with each file's text.
pub struct FsModel {
    pub dirs: Set<Seq<char>>,
    pub files: Map<Seq<char>, Seq<char>>,
}

/// Performing a request on a filesystem on which nothing fails: the
/// filesystem afterwards and the reply.
pub open spec fn perform(fs: FsModel, request: RequestModel) -> (FsModel, ReplyModel) {
    match request {
        RequestModel::Exists(p) => (fs, ReplyModel::Exists(fs.dirs.contains(p) || fs.files.contains_key(p))),
        RequestModel::CreateDirAll(p) => (FsModel { dirs: fs.dirs.insert(p), ..fs }, ReplyModel::Done),
        RequestModel::WriteFile(p, t) => (FsModel { files: fs.files.insert(p, t), ..fs }, ReplyModel::Done),
        RequestModel::ReadToString(p) => (fs, if fs.files.contains_key(p) {
            ReplyModel::Text(fs.files[p])
        } else {
            ReplyModel::Failed(Seq::empty())
        }),
        RequestModel::ProbeWrite(_) => (fs, ReplyModel::Done),
        RequestModel::FileSize(p) => (fs, ReplyModel::Size(fs.files[p].len() as u64)),
    }
}

/// Running a save on `fs` for at most `fuel` requests: the filesystem
/// afterwards and the outcome, `None` if the save had not finished.
pub open spec fn run_save(fs: FsModel, step: SaveStepModel, fuel: nat) -> (FsModel, Option<Result<(), ErrorModel>>)
    decreases fuel,
{
    match step {
        SaveStepModel::Finished(r) => (fs, Some(r)),
        SaveStepModel::Perform(m, request) => if fuel == 0 {
            (fs, None)
        } else {
            let (next, reply) = perform(fs, request);
            run_save(next, save_resume(m, reply), (fuel - 1) as nat)
        },
    }
}

/// Running a load on `fs` for at most `fuel` requests: its outcome, `None`
/// if the load had not finished.
pub open spec fn run_load(fs: FsModel, step: LoadStepModel, fuel: nat) -> Option<Result<Seq<char>, ErrorModel>>
    decreases fuel,
{
    match step {
        LoadStepModel::Finished(r) => Some(r),
        LoadStepModel::Perform(m, request) => if fuel == 0 {
            None
        } else {
            let (next, reply) = perform(fs, request);
            run_load(next, load_resume(m, reply), (fuel - 1) as nat)
        },
    }
}

/// Saving `document` on `fs` under the data directory `base` for `identifier`.
pub open spec fn save_on(fs: FsModel, base: Seq<char>, identifier: Seq<char>, document: DocumentModel) -> (FsModel, Option<Result<(), ErrorModel>>) {
    run_save(fs, save_start(Some(base), identifier, encode_spec(document)), 5)
}

/// Loading on `fs` from the data directory `base` for `identifier`.
pub open spec fn load_on(fs: FsModel, base: Seq<char>, identifier: Seq<char>) -> Option<Result<Seq<char>, ErrorModel>> {
    run_load(fs, load_start(Some(base), identifier), 2)
}

/// On a filesystem where nothing fails, a save succeeds, whatever exists
/// beforehand, and leaves the document's text at its path and every other
/// file as it was.
pub proof fn lemma_save_succeeds(fs: FsModel, base: Seq<char>, identifier: Seq<char>, document: DocumentModel)
    ensures
        save_on(fs, base, identifier, document).1 == Some(Ok::<(), ErrorModel>(())),
        save_on(fs, base, identifier, document).0.files
            == fs.files.insert(storage_path_spec(base, identifier), encode_spec(document)),
{
    reveal_with_fuel(run_save, 6);
}

/// Loading after a save gives back exactly the saved text; for a raw
/// document, the string that was saved.
pub proof fn lemma_round_trip(fs: FsModel, base: Seq<char>, identifier: Seq<char>, document: DocumentModel)
    ensures
        save_on(fs, base, identifier, document).1 == Some(Ok::<(), ErrorModel>(())),
        load_on(save_on(fs, base, identifier, document).0, base, identifier)
            == Some(Ok::<Seq<char>, ErrorModel>(encode_spec(document))),
        document is Raw ==> encode_spec(document) == document->Raw_0,
{
    lemma_save_succeeds(fs, base, identifier, document);
    reveal_with_fuel(run_load, 3);
}

/// A load where nothing has been saved succeeds with the empty text.
pub proof fn lemma_first_run(fs: FsModel, base: Seq<char>, identifier: Seq<char>)
    requires
        !fs.files.contains_key(storage_path_spec(base, identifier)),
        !fs.dirs.contains(storage_path_spec(base, identifier)),
    ensures
        load_on(fs, base, identifier) == Some(Ok::<Seq<char>, ErrorModel>(Seq::empty())),
{
    reveal_with_fuel(run_load, 3);
}

/// Two saves in a row succeed both, whether or not the directories existed
/// before the first.
pub proof fn lemma_save_twice(
    fs: FsModel,
    base: Seq<char>,
    identifier: Seq<char>,
    first: DocumentModel,
    second: DocumentModel,
)
    ensures
        save_on(fs, base, identifier, first).1 == Some(Ok::<(), ErrorModel>(())),
        save_on(save_on(fs, base, identifier, first).0, base, identifier, second).1
            == Some(Ok::<(), ErrorModel>(())),
{
    lemma_save_succeeds(fs, base, identifier, first);
    lemma_save_succeeds(save_on(fs, base, identifier, first).0, base, identifier, second);
}

/// After two saves, a load gives the second document's text alone.
pub proof fn lemma_overwrite(
    fs: FsModel,
    base: Seq<char>,
    identifier: Seq<char>,
    first: DocumentModel,
    second: DocumentModel,
)
    ensures
        load_on(
            save_on(save_on(fs, base, identifier, first).0, base, identifier, second).0,
            base,
            identifier,
        ) == Some(Ok::<Seq<char>, ErrorModel>(encode_spec(second))),
{
    lemma_save_succeeds(fs, base, identifier, first);
    lemma_round_trip(save_on(fs, base, identifier, first).0, base, identifier, second);
}

/// The document's path depends on the data directory and the identifier
/// alone: equal inputs give equal paths, and so do the cache directories.
pub proof fn lemma_path_determinism(base1: Seq<char>, id1: Seq<char>, base2: Seq<char>, id2: Seq<char>)
    requires
        base1 == base2,
        id1 == id2,
    ensures
        storage_path_spec(base1, id1) == storage_path_spec(base2, id2),
        cache_dir_spec(base1, id1) == cache_dir_spec(base2, id2),
{
}

/// How far a diagnostic run at `stage` is from its end: each reply moves it
/// to a stage of lower rank, so it asks at most ten requests.
pub open spec fn diag_rank(stage: DiagStage) -> nat {
    match stage {
        DiagStage::DataExists => 10,
        DiagStage::DataProbe => 9,
        DiagStage::DataCreate => 9,
        DiagStage::CacheExists => 8,
        DiagStage::CacheCreate => 7,
        DiagStage::AppExists => 6,
        DiagStage::AppCreate => 5,
        DiagStage::AppProbe => 4,
        DiagStage::FileExists => 3,
        DiagStage::FileSize => 2,
    }
}

/// A diagnostic run never fails: whatever the reply, failures included, it
/// either ends with its report or waits on a request at a stage of lower rank.
pub proof fn lemma_diagnostics_progress(m: DiagModel, reply: ReplyModel)
    requires
        answers(diag_request(m), reply),
    ensures
        match diag_resume(m, reply) {
            DiagStepModel::Perform(n, request) => diag_rank(n.stage) < diag_rank(m.stage)
                && request == diag_request(n),
            DiagStepModel::Finished(_) => true,
        },
{
}

/// A missing directory or file is reported as missing: the data directory
/// and the cache directory with a line saying so and a request to create
/// them; the document file with a closing line saying so.
pub proof fn lemma_missing_reported(m: DiagModel)
    ensures
        m.stage == DiagStage::DataExists ==> diag_resume(m, ReplyModel::Exists(false))
            == DiagStepModel::Perform(
                DiagModel { stage: DiagStage::DataCreate, ..with_text(m, DIR_MISSING@) },
                RequestModel::CreateDirAll(or_empty(m.data_dir)),
            ),
        m.stage == DiagStage::CacheExists ==> diag_resume(m, ReplyModel::Exists(false))
            == DiagStepModel::Perform(
                DiagModel { stage: DiagStage::CacheCreate, ..with_text(m, DIR_MISSING@) },
                RequestModel::CreateDirAll(or_empty(m.cache_dir)),
            ),
        m.stage == DiagStage::FileExists ==> diag_resume(m, ReplyModel::Exists(false))
            == DiagStepModel::Finished(m.report + FILE_MISSING@),
{
}

/// Running a diagnostic run on `fs` for at most `fuel` requests: its report,
/// `None` if the run had not finished.
pub open spec fn run_diag(fs: FsModel, step: DiagStepModel, fuel: nat) -> Option<Seq<char>>
    decreases fuel,
{
    match step {
        DiagStepModel::Finished(report) => Some(report),
        DiagStepModel::Perform(m, request) => if fuel == 0 {
            None
        } else {
            let (next, reply) = perform(fs, request);
            run_diag(next, diag_resume(m, reply), (fuel - 1) as nat)
        },
    }
}

/// The report of a step: so far, or in full.
pub open spec fn step_report(step: DiagStepModel) -> Seq<char> {
    match step {
        DiagStepModel::Perform(m, _) => m.report,
        DiagStepModel::Finished(report) => report,
    }
}

/// Whether `step` waits on the request of its stage within `fuel` requests of
/// its end.
pub open spec fn within(step: DiagStepModel, fuel: nat) -> bool {
    match step {
        DiagStepModel::Perform(m, request) => request == diag_request(m) && diag_rank(m.stage) <= fuel,
        DiagStepModel::Finished(_) => true,
    }
}

/// Every reply of a filesystem on which nothing fails answers its request.
pub proof fn lemma_perform_answers(fs: FsModel, request: RequestModel)
    ensures
        answers(request, perform(fs, request).1),
{
}

/// A reply only adds to the report.
pub proof fn lemma_report_grows(m: DiagModel, reply: ReplyModel)
    ensures
        m.report.is_prefix_of(step_report(diag_resume(m, reply))),
{
    let r = step_report(diag_resume(m, reply));
    assert(r.subrange(0, m.report.len() as int) =~= m.report);
}

/// The first steps of a run are at most ten requests from its end.
pub proof fn lemma_start_within(data_dir: Option<Seq<char>>, cache_dir: Option<Seq<char>>, identifier: Seq<char>)
    ensures
        within(diag_start(data_dir, cache_dir, identifier), 10),
{
}

/// A run that waits on the request of its stage, given enough requests,
/// ends with a report that begins with the report so far.
pub proof fn lemma_run_finishes(fs: FsModel, step: DiagStepModel, fuel: nat)
    requires
        within(step, fuel),
    ensures
        run_diag(fs, step, fuel) is Some,
        step_report(step).is_prefix_of(run_diag(fs, step, fuel)->Some_0),
    decreases fuel,
{
    match step {
        DiagStepModel::Finished(report) => {
            assert(report.subrange(0, report.len() as int) =~= report);
        },
        DiagStepModel::Perform(m, request) => {
            let (next, reply) = perform(fs, request);
            lemma_perform_answers(fs, request);
            lemma_diagnostics_progress(m, reply);
            lemma_report_grows(m, reply);
            let following = diag_resume(m, reply);
            lemma_run_finishes(next, following, (fuel - 1) as nat);
            let whole = run_diag(next, following, (fuel - 1) as nat)->Some_0;
            let mid = step_report(following);
            assert(whole.subrange(0, m.report.len() as int) =~= mid.subrange(0, m.report.len() as int));
        },
    }
}

/// A diagnostic run always ends with a report within ten requests, on any
/// filesystem, whichever directories the host supplies.
pub proof fn lemma_diagnostics_report(
    fs: FsModel,
    data_dir: Option<Seq<char>>,
    cache_dir: Option<Seq<char>>,
    identifier: Seq<char>,
)
    ensures
        run_diag(fs, diag_start(data_dir, cache_dir, identifier), 10) is Some,
{
    lemma_start_within(data_dir, cache_dir, identifier);
    lemma_run_finishes(fs, diag_start(data_dir, cache_dir, identifier), 10);
}

/// Where the data directory is absent, the run still ends with a report, and
/// the report opens by naming the directory, saying that it does not exist,
/// and that it was created.
pub proof fn lemma_diagnostics_absent_tree(
    fs: FsModel,
    data_dir: Seq<char>,
    cache_dir: Option<Seq<char>>,
    identifier: Seq<char>,
)
    requires
        !fs.dirs.contains(data_dir),
        !fs.files.contains_key(data_dir),
    ensures
        run_diag(fs, diag_start(Some(data_dir), cache_dir, identifier), 10) is Some,
        (line(DATA_DIR_LABEL@, debug_text_of(data_dir)) + DIR_MISSING@ + DIR_CREATED@).is_prefix_of(
            run_diag(fs, diag_start(Some(data_dir), cache_dir, identifier), 10)->Some_0,
        ),
{
    let first = diag_start(Some(data_dir), cache_dir, identifier);
    let (fs1, reply1) = perform(fs, diag_request(first->Perform_0));
    let second = diag_resume(first->Perform_0, reply1);
    let (fs2, reply2) = perform(fs1, diag_request(second->Perform_0));
    let third = diag_resume(second->Perform_0, reply2);
    assert(run_diag(fs, first, 10) == run_diag(fs1, second, 9));
    assert(run_diag(fs1, second, 9) == run_diag(fs2, third, 8));
    lemma_perform_answers(fs1, diag_request(second->Perform_0));
    lemma_diagnostics_progress(second->Perform_0, reply2);
    lemma_run_finishes(fs2, third, 8);
    let expected = line(DATA_DIR_LABEL@, debug_text_of(data_dir)) + DIR_MISSING@ + DIR_CREATED@;
    assert(step_report(third).subrange(0, expected.len() as int) =~= expected);
    let whole = run_diag(fs2, third, 8)->Some_0;
    assert(whole.subrange(0, expected.len() as int) =~= step_report(third).subrange(0, expected.len() as int));
}

} // verus!
