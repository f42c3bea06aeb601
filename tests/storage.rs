use std::collections::{BTreeMap, BTreeSet};

use drawing_store::{
    cache_dir_path, decimal, join, probe_path, storage_path, DiagStep, Diagnostics, Document,
    FsReply, FsRequest, LoadSession, LoadStep, SaveSession, SaveStep, StorageError,
};

/// An in-memory filesystem; paths listed in `fail_on` refuse every change.
#[derive(Default)]
struct MemFs {
    dirs: BTreeSet<String>,
    files: BTreeMap<String, String>,
    fail_on: BTreeSet<String>,
    requests: Vec<String>,
}

impl MemFs {
    fn perform(&mut self, request: &FsRequest) -> FsReply {
        match request {
            FsRequest::Exists(p) => {
                self.requests.push(format!("exists {}", p));
                FsReply::Exists(self.dirs.contains(p) || self.files.contains_key(p))
            }
            FsRequest::CreateDirAll(p) => {
                self.requests.push(format!("mkdir {}", p));
                if self.fail_on.contains(p) {
                    return FsReply::Failed("permission denied".to_string());
                }
                self.dirs.insert(p.clone());
                FsReply::Done
            }
            FsRequest::WriteFile(p, t) => {
                self.requests.push(format!("write {}", p));
                if self.fail_on.contains(p) {
                    return FsReply::Failed("disk full".to_string());
                }
                self.files.insert(p.clone(), t.clone());
                FsReply::Done
            }
            FsRequest::ReadToString(p) => {
                self.requests.push(format!("read {}", p));
                if self.fail_on.contains(p) {
                    return FsReply::Failed("invalid UTF-8".to_string());
                }
                match self.files.get(p) {
                    Some(t) => FsReply::Text(t.clone()),
                    None => FsReply::Failed("not found".to_string()),
                }
            }
            FsRequest::ProbeWrite(p) => {
                self.requests.push(format!("probe {}", p));
                if self.fail_on.contains(p) {
                    return FsReply::Failed("read-only".to_string());
                }
                FsReply::Done
            }
            FsRequest::FileSize(p) => {
                self.requests.push(format!("size {}", p));
                FsReply::Size(self.files.get(p).map(|t| t.len() as u64).unwrap_or(0))
            }
        }
    }

    fn save(&mut self, base: Option<&str>, id: &str, doc: &Document) -> Result<(), StorageError> {
        let mut step = SaveSession::start(base.map(|b| b.to_string()), id, doc);
        loop {
            match step {
                SaveStep::Perform(session, request) => {
                    let reply = self.perform(&request);
                    assert!(request.accepts(&reply));
                    step = session.resume(reply);
                }
                SaveStep::Finished(r) => return r,
            }
        }
    }

    fn load(&mut self, base: Option<&str>, id: &str) -> Result<String, StorageError> {
        let mut step = LoadSession::start(base.map(|b| b.to_string()), id);
        loop {
            match step {
                LoadStep::Perform(session, request) => {
                    let reply = self.perform(&request);
                    step = session.resume(reply);
                }
                LoadStep::Finished(r) => return r,
            }
        }
    }

    fn diagnose(&mut self, data: Option<&str>, cache: Option<&str>, id: &str) -> String {
        let mut step = Diagnostics::start(data.map(|d| d.to_string()), cache.map(|c| c.to_string()), id);
        let mut count = 0;
        loop {
            match step {
                DiagStep::Perform(session, request) => {
                    count += 1;
                    assert!(count <= 10);
                    let reply = self.perform(&request);
                    step = session.resume(reply);
                }
                DiagStep::Finished(report) => return report,
            }
        }
    }
}

const BASE: &str = "/tmp/app";
const ID: &str = "com.example.draw";
const PATH: &str = "/tmp/app/cache/com.example.draw/drawing-data.excalidraw";

fn raw(s: &str) -> Document {
    Document::Raw(s.to_string())
}

#[test]
fn storage_path_of_concrete_scenario() {
    assert_eq!(storage_path(BASE, ID), PATH);
    assert_eq!(cache_dir_path(BASE, ID), "/tmp/app/cache/com.example.draw");
}

#[test]
fn storage_path_is_deterministic() {
    assert_eq!(storage_path(BASE, ID), storage_path(BASE, ID));
    assert_ne!(storage_path(BASE, ID), storage_path(BASE, "com.example.other"));
}

#[test]
fn join_adds_one_separator() {
    assert_eq!(join("/a", "b"), "/a/b");
    assert_eq!(join("/a/", "b"), "/a/b");
    assert_eq!(join("", "b"), "b");
    assert_eq!(join("/a", "/b"), "/b");
    assert_eq!(join("/a", ""), "/a/");
    assert_eq!(probe_path("/d"), "/d/write_test.tmp");
}

#[test]
fn raw_document_is_stored_verbatim() {
    let text = "{\"elements\":[],\"appState\":{}}";
    assert_eq!(raw(text).encode(), text);
}

#[test]
fn structured_document_has_two_keys_in_order() {
    let doc = Document::Structured { elements: "[1,2]".to_string(), app_state: "{\"zoom\":1}".to_string() };
    assert_eq!(doc.encode(), "{\"elements\":[1,2],\"app_state\":{\"zoom\":1}}");
}

#[test]
fn decimal_forms() {
    assert_eq!(decimal(0), "0");
    assert_eq!(decimal(7), "7");
    assert_eq!(decimal(1234), "1234");
    assert_eq!(decimal(u64::MAX), "18446744073709551615");
}

#[test]
fn round_trip_concrete_scenario() {
    let mut fs = MemFs::default();
    let text = "{\"elements\":[],\"appState\":{}}";
    assert!(fs.save(Some(BASE), ID, &raw(text)).is_ok());
    assert_eq!(fs.files.get(PATH).map(|s| s.as_str()), Some(text));
    assert_eq!(fs.load(Some(BASE), ID).ok(), Some(text.to_string()));
}

#[test]
fn round_trip_non_ascii() {
    let mut fs = MemFs::default();
    let text = "dessin: é ✏️ 描画";
    assert!(fs.save(Some(BASE), ID, &raw(text)).is_ok());
    assert_eq!(fs.load(Some(BASE), ID).ok(), Some(text.to_string()));
}

#[test]
fn first_run_loads_empty_text() {
    let mut fs = MemFs::default();
    assert_eq!(fs.load(Some(BASE), ID).ok(), Some(String::new()));
    assert_eq!(fs.requests, vec![format!("exists {}", PATH)]);
}

#[test]
fn save_creates_missing_directories_then_skips_them() {
    let mut fs = MemFs::default();
    assert!(fs.save(Some(BASE), ID, &raw("a")).is_ok());
    assert_eq!(
        fs.requests,
        vec![
            "exists /tmp/app".to_string(),
            "mkdir /tmp/app".to_string(),
            "exists /tmp/app/cache/com.example.draw".to_string(),
            "mkdir /tmp/app/cache/com.example.draw".to_string(),
            format!("write {}", PATH),
        ]
    );
    fs.requests.clear();
    assert!(fs.save(Some(BASE), ID, &raw("b")).is_ok());
    assert_eq!(
        fs.requests,
        vec![
            "exists /tmp/app".to_string(),
            "exists /tmp/app/cache/com.example.draw".to_string(),
            format!("write {}", PATH),
        ]
    );
}

#[test]
fn second_save_overwrites_first() {
    let mut fs = MemFs::default();
    assert!(fs.save(Some(BASE), ID, &raw("first, longer document")).is_ok());
    assert!(fs.save(Some(BASE), ID, &raw("second")).is_ok());
    assert_eq!(fs.load(Some(BASE), ID).ok(), Some("second".to_string()));
}

#[test]
fn save_without_data_dir_fails() {
    let mut fs = MemFs::default();
    let r = fs.save(None, ID, &raw("a"));
    assert!(matches!(r, Err(StorageError::PathResolution)));
    assert_eq!(r.unwrap_err().message(), "Failed to get app data directory");
    assert!(fs.requests.is_empty());
}

#[test]
fn load_without_data_dir_fails() {
    let mut fs = MemFs::default();
    assert!(matches!(fs.load(None, ID), Err(StorageError::PathResolution)));
}

#[test]
fn save_reports_directory_creation_failure() {
    let mut fs = MemFs::default();
    fs.fail_on.insert("/tmp/app/cache/com.example.draw".to_string());
    match fs.save(Some(BASE), ID, &raw("a")) {
        Err(e @ StorageError::DirectoryCreation(_)) => assert_eq!(e.message(), "permission denied"),
        _ => panic!("expected a directory creation error"),
    }
    assert!(fs.files.is_empty());
}

#[test]
fn save_reports_write_failure() {
    let mut fs = MemFs::default();
    fs.fail_on.insert(PATH.to_string());
    match fs.save(Some(BASE), ID, &raw("a")) {
        Err(e @ StorageError::Write(_)) => assert_eq!(e.message(), "disk full"),
        _ => panic!("expected a write error"),
    }
}

#[test]
fn load_reports_read_failure() {
    let mut fs = MemFs::default();
    assert!(fs.save(Some(BASE), ID, &raw("a")).is_ok());
    fs.fail_on.insert(PATH.to_string());
    match fs.load(Some(BASE), ID) {
        Err(e @ StorageError::Read(_)) => assert_eq!(e.message(), "invalid UTF-8"),
        _ => panic!("expected a read error"),
    }
}

#[test]
fn reply_kinds_match_requests() {
    let exists = FsRequest::Exists("/a".to_string());
    assert!(exists.accepts(&FsReply::Exists(false)));
    assert!(!exists.accepts(&FsReply::Done));
    let read = FsRequest::ReadToString("/a".to_string());
    assert!(read.accepts(&FsReply::Text(String::new())));
    assert!(read.accepts(&FsReply::Failed(String::new())));
    assert!(!read.accepts(&FsReply::Size(1)));
    let size = FsRequest::FileSize("/a".to_string());
    assert!(size.accepts(&FsReply::Size(3)));
    let mkdir = FsRequest::CreateDirAll("/a".to_string());
    assert!(mkdir.accepts(&FsReply::Done));
    assert!(!mkdir.accepts(&FsReply::Text(String::new())));
}

#[test]
fn diagnostics_on_absent_tree() {
    let mut fs = MemFs::default();
    let report = fs.diagnose(Some("/data"), Some("/cache"), ID);
    let expected = [
        "App data directory: \"/data\"\n",
        "  - Directory does NOT exist\n",
        "  - Successfully created directory\n",
        "App cache directory: \"/cache\"\n",
        "  - Directory does NOT exist\n",
        "  - Successfully created directory\n",
        "App-specific cache directory: \"/cache/com.example.draw\"\n",
        "  - Successfully created app-specific cache directory\n",
        "  - App-specific cache is writable\n",
        "\nExcalidraw file path: \"/data/cache/com.example.draw/drawing-data.excalidraw\"\n",
        "  - File does NOT exist yet\n",
    ]
    .concat();
    assert_eq!(report, expected);
}

#[test]
fn diagnostics_with_saved_document() {
    let mut fs = MemFs::default();
    assert!(fs.save(Some("/data"), ID, &raw("0123456789ab")).is_ok());
    fs.dirs.insert("/cache".to_string());
    fs.dirs.insert("/cache/com.example.draw".to_string());
    let report = fs.diagnose(Some("/data"), Some("/cache"), ID);
    let expected = [
        "App data directory: \"/data\"\n",
        "  - Directory exists\n",
        "  - Directory is writable\n",
        "App cache directory: \"/cache\"\n",
        "  - Directory exists\n",
        "App-specific cache directory: \"/cache/com.example.draw\"\n",
        "  - App-specific cache is writable\n",
        "\nExcalidraw file path: \"/data/cache/com.example.draw/drawing-data.excalidraw\"\n",
        "  - File exists\n",
        "  - File size: 12 bytes\n",
    ]
    .concat();
    assert_eq!(report, expected);
}

#[test]
fn diagnostics_records_failures_as_lines() {
    let mut fs = MemFs::default();
    fs.dirs.insert("/data".to_string());
    fs.fail_on.insert("/data/write_test.tmp".to_string());
    fs.fail_on.insert("/cache".to_string());
    fs.fail_on.insert("/cache/com.example.draw".to_string());
    fs.fail_on.insert("/cache/com.example.draw/write_test.tmp".to_string());
    let report = fs.diagnose(Some("/data"), Some("/cache"), ID);
    assert!(report.contains("  - Directory is NOT writable: read-only\n"));
    assert!(report.contains("  - Failed to create directory: permission denied\n"));
    assert!(report.contains("  - Failed to create app-specific cache directory: permission denied\n"));
    assert!(report.contains("  - App-specific cache is NOT writable: read-only\n"));
    assert!(report.ends_with("  - File does NOT exist yet\n"));
}

#[test]
fn diagnostics_without_directories() {
    let mut fs = MemFs::default();
    let report = fs.diagnose(None, None, ID);
    assert_eq!(report, "Failed to get app data directory\nFailed to get app cache directory\n");
    assert!(fs.requests.is_empty());
}

#[test]
fn diagnostics_escapes_quoted_paths() {
    let mut fs = MemFs::default();
    fs.dirs.insert("/my \"data\"".to_string());
    let report = fs.diagnose(Some("/my \"data\""), None, ID);
    assert!(report.starts_with("App data directory: \"/my \\\"data\\\"\"\n"));
}
