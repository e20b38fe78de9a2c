use file_uploader::database::{Process, ProcessRecorder, RecordAction, RecordEvent, RecordStage};
use file_uploader::loadfile::{
    index, upload_status_text, FileData, UploadAction, UploadEvent, UploadSession, UploadStage,
};

#[test]
fn record_when_table_exists() {
    let (mut r, a) = ProcessRecorder::start("files/a.txt", "uploaded file successfully");
    assert_eq!(a, RecordAction::CheckTable);
    assert_eq!(r.step(RecordEvent::TableChecked(true)), RecordAction::InsertRow);
    assert_eq!(r.name(), "files/a.txt");
    assert_eq!(r.status(), "uploaded file successfully");
    assert_eq!(r.step(RecordEvent::Inserted), RecordAction::Report);
    assert_eq!(r.stage(), RecordStage::Recorded);
}

#[test]
fn record_creates_missing_table() {
    let (mut r, _) = ProcessRecorder::start("n", "s");
    assert_eq!(r.step(RecordEvent::TableChecked(false)), RecordAction::CreateTable);
    assert_eq!(r.step(RecordEvent::TableCreated), RecordAction::InsertRow);
    assert_eq!(r.step(RecordEvent::Inserted), RecordAction::Report);
}

#[test]
fn record_failure_is_final() {
    let (mut r, _) = ProcessRecorder::start("n", "s");
    assert_eq!(r.step(RecordEvent::TableChecked(false)), RecordAction::CreateTable);
    assert_eq!(r.step(RecordEvent::QueryFailed), RecordAction::Abort);
    assert_eq!(r.step(RecordEvent::TableCreated), RecordAction::Abort);
    assert_eq!(r.step(RecordEvent::Inserted), RecordAction::Abort);
    assert_eq!(r.stage(), RecordStage::Failed);
}

#[test]
fn record_ignores_unexpected_answer() {
    let (mut r, _) = ProcessRecorder::start("n", "s");
    assert_eq!(r.step(RecordEvent::Inserted), RecordAction::CheckTable);
    assert_eq!(r.step(RecordEvent::TableCreated), RecordAction::CheckTable);
    assert_eq!(r.stage(), RecordStage::CheckingTable);
}

#[test]
fn process_columns() {
    let p = Process::new(7, "files/a".to_string(), "done".to_string());
    assert_eq!(p.id(), 7);
    assert_eq!(p.name(), "files/a");
    assert_eq!(p.status(), "done");
}

#[test]
fn upload_records_then_saves_each_file() {
    let names = vec!["a.txt".to_string(), "b.txt".to_string()];
    let (mut s, a) = UploadSession::start(&names);
    assert_eq!(s.len(), 2);
    assert_eq!(s.path(0), "files/a.txt");
    assert_eq!(s.path(1), "files/b.txt");
    assert_eq!(a, UploadAction::RecordProcess(0));
    assert_eq!(s.step(UploadEvent::ProcessRecorded), UploadAction::SaveFile(0));
    assert_eq!(s.step(UploadEvent::SaveStarted), UploadAction::RecordProcess(1));
    assert_eq!(s.step(UploadEvent::ProcessRecorded), UploadAction::SaveFile(1));
    assert_eq!(s.step(UploadEvent::SaveStarted), UploadAction::AwaitSaves);
    assert_eq!(s.step(UploadEvent::SavesFinished), UploadAction::CompressAll);
    assert_eq!(s.paths(), vec!["files/a.txt".to_string(), "files/b.txt".to_string()]);
    assert_eq!(s.step(UploadEvent::CompressionStarted), UploadAction::Finish);
    assert_eq!(s.stage(), UploadStage::Finished);
}

#[test]
fn upload_of_nothing_compresses_nothing() {
    let (mut s, a) = UploadSession::start(&Vec::new());
    assert_eq!(a, UploadAction::AwaitSaves);
    assert_eq!(s.step(UploadEvent::SavesFinished), UploadAction::CompressAll);
    assert!(s.paths().is_empty());
}

#[test]
fn upload_stops_on_failed_record() {
    let names = vec!["a".to_string(), "b".to_string()];
    let (mut s, _) = UploadSession::start(&names);
    assert_eq!(s.step(UploadEvent::ProcessRecorded), UploadAction::SaveFile(0));
    assert_eq!(s.step(UploadEvent::SaveStarted), UploadAction::RecordProcess(1));
    assert_eq!(s.step(UploadEvent::StepFailed), UploadAction::Abort);
    assert_eq!(s.step(UploadEvent::SavesFinished), UploadAction::Abort);
    assert_eq!(s.step(UploadEvent::CompressionStarted), UploadAction::Abort);
    assert_eq!(s.stage(), UploadStage::Failed);
}

#[test]
fn upload_stops_on_failed_save() {
    let names = vec!["a".to_string()];
    let (mut s, _) = UploadSession::start(&names);
    s.step(UploadEvent::ProcessRecorded);
    assert_eq!(s.step(UploadEvent::SaveStarted), UploadAction::AwaitSaves);
    assert_eq!(s.step(UploadEvent::StepFailed), UploadAction::Abort);
}

#[test]
fn upload_does_not_save_before_record() {
    let names = vec!["a".to_string()];
    let (mut s, _) = UploadSession::start(&names);
    assert_eq!(s.step(UploadEvent::SaveStarted), UploadAction::RecordProcess(0));
    assert_eq!(s.step(UploadEvent::SavesFinished), UploadAction::RecordProcess(0));
}

#[test]
fn upload_status_and_page() {
    assert_eq!(upload_status_text(), "uploaded file successfully");
    let page = index();
    assert!(page.contains("<h1>File Uploader</h1>"));
    assert!(page.contains("enctype='multipart/form-data'"));
    assert!(page.contains("name='fileupload' multiple required"));
}

#[test]
fn file_data_clones() {
    let f = FileData { file_data: vec![1, 2, 3], file_name: "x".to_string() };
    let g = f.clone();
    assert_eq!(g.file_data, vec![1, 2, 3]);
    assert_eq!(g.file_name, "x");
}
