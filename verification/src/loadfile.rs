//! Uploading files: the upload form, the files handed to an upload, and the
//! order of the steps of an upload (record each file in the process table,
//! then save it; once every file is saved, compress them all). The steps
//! themselves run outside the library; each outcome comes back as an event.

use crate::paths::{join, storage_dir, stored_path};
use crate::text::{push_str, views};
use vstd::prelude::*;

verus! {

/// The HTML of the upload form that the server shows at `/`.
pub open spec fn index_page() -> Seq<char> {
    "
    <html>
        <body>
            <h1>File Uploader</h1>
            <form method='POST' enctype='multipart/form-data'>
                <input type='file' name='fileupload' multiple required>
                <button type='submit'>Upload File(s)</button>
            </form>
        </body>
    </html>
    "@
}

/// The upload form page.
pub fn index() -> (r: String)
    ensures
        r@ == index_page(),
{
    let mut r = String::new();
    push_str(
        &mut r,
        "
    <html>
        <body>
            <h1>File Uploader</h1>
            <form method='POST' enctype='multipart/form-data'>
                <input type='file' name='fileupload' multiple required>
                <button type='submit'>Upload File(s)</button>
            </form>
        </body>
    </html>
    ",
    );
    r
}

/// A file handed to an upload: its contents and its name.
#[derive(Clone)]
pub struct FileData {
    pub file_data: Vec<u8>,
    pub file_name: String,
}

/// The status text recorded in the process table for each uploaded file.
pub open spec fn upload_status() -> Seq<char> {
    "uploaded file successfully"@
}

/// The status text recorded in the process table for each uploaded file.
pub fn upload_status_text() -> (r: String)
    ensures
        r@ == upload_status(),
{
    let mut r = String::new();
    push_str(&mut r, "uploaded file successfully");
    r
}

/// Where an upload stands.
#[derive(PartialEq, Eq, Structural, Clone, Copy, Debug)]
pub enum UploadStage {
    /// Waiting for the row of file `i` to be recorded.
    Recording(usize),
    /// Waiting for the saving of file `i` to be started.
    Saving(usize),
    /// Every file is being saved; waiting for all the saves to end.
    AwaitingSaves,
    /// Waiting for the compression of the stored files to be started.
    Compressing,
    /// The upload is done.
    Finished,
    /// A step failed; the upload stops with its error.
    Failed,
}

/// The outcome of the last action of an upload.
#[derive(PartialEq, Eq, Structural, Clone, Copy, Debug)]
pub enum UploadEvent {
    /// The file's row is in the process table.
    ProcessRecorded,
    /// Saving the file has been started in the background.
    SaveStarted,
    /// Every save has ended well.
    SavesFinished,
    /// Compressing the stored files has been started in the background.
    CompressionStarted,
    /// The last step failed.
    StepFailed,
}

/// What to do next in an upload.
#[derive(PartialEq, Eq, Structural, Clone, Copy, Debug)]
pub enum UploadAction {
    /// Record file `index` in the process table, under its stored path and
    /// the upload status.
    RecordProcess(usize),
    /// Start saving file `index` at its stored path.
    SaveFile(usize),
    /// Wait for every save to end.
    AwaitSaves,
    /// Start compressing every stored path.
    CompressAll,
    /// The upload succeeded.
    Finish,
    /// Stop with the error of the failed step.
    Abort,
}

/// The stage an upload of `n` files starts in.
pub open spec fn upload_start_stage(n: nat) -> UploadStage {
    if n > 0 {
        UploadStage::Recording(0)
    } else {
        UploadStage::AwaitingSaves
    }
}

/// The stage that follows `stage` on `event` in an upload of `n` files. An
/// event that does not answer the pending action leaves the stage as it is.
pub open spec fn upload_transition(stage: UploadStage, n: nat, event: UploadEvent) -> UploadStage {
    match (stage, event) {
        (UploadStage::Recording(i), UploadEvent::ProcessRecorded) => UploadStage::Saving(i),
        (UploadStage::Saving(i), UploadEvent::SaveStarted) => if i + 1 < n {
            UploadStage::Recording((i + 1) as usize)
        } else {
            UploadStage::AwaitingSaves
        },
        (UploadStage::AwaitingSaves, UploadEvent::SavesFinished) => UploadStage::Compressing,
        (UploadStage::Compressing, UploadEvent::CompressionStarted) => UploadStage::Finished,
        (UploadStage::Recording(_), UploadEvent::StepFailed) => UploadStage::Failed,
        (UploadStage::Saving(_), UploadEvent::StepFailed) => UploadStage::Failed,
        (UploadStage::AwaitingSaves, UploadEvent::StepFailed) => UploadStage::Failed,
        _ => stage,
    }
}

/// The action pending in `stage`.
pub open spec fn upload_action(stage: UploadStage) -> UploadAction {
    match stage {
        UploadStage::Recording(i) => UploadAction::RecordProcess(i),
        UploadStage::Saving(i) => UploadAction::SaveFile(i),
        UploadStage::AwaitingSaves => UploadAction::AwaitSaves,
        UploadStage::Compressing => UploadAction::CompressAll,
        UploadStage::Finished => UploadAction::Finish,
        UploadStage::Failed => UploadAction::Abort,
    }
}

/// Whether the file that `stage` is busy with is one of `n` files.
pub open spec fn stage_fits(stage: UploadStage, n: nat) -> bool {
    match stage {
        UploadStage::Recording(i) => i < n,
        UploadStage::Saving(i) => i < n,
        _ => true,
    }
}

/// The stored paths of files with names `names`, in order.
pub open spec fn stored_paths(names: Seq<Seq<char>>) -> Seq<Seq<char>> {
    names.map_values(|n: Seq<char>| join(storage_dir(), n))
}

/// An upload in progress: the stored path of each file and the stage.
pub struct UploadSession {
    paths: Vec<String>,
    stage: UploadStage,
}

impl UploadSession {
    #[verifier::type_invariant]
    spec fn stage_in_range(self) -> bool {
        stage_fits(self.stage, self.paths.len() as nat)
    }

    /// The stored path of each file, in the order the files were given.
    pub closed spec fn spec_paths(&self) -> Seq<Seq<char>> {
        views(self.paths@)
    }

    /// Where the upload stands.
    pub closed spec fn spec_stage(&self) -> UploadStage {
        self.stage
    }

    /// Starts uploading files named `names`; returns the session and its
    /// first action.
    pub fn start(names: &Vec<String>) -> (r: (UploadSession, UploadAction))
        ensures
            r.0.spec_paths() == stored_paths(views(names@)),
            r.0.spec_stage() == upload_start_stage(names.len() as nat),
            stage_fits(r.0.spec_stage(), r.0.spec_paths().len()),
            r.1 == upload_action(r.0.spec_stage()),
    {
        let ghost wanted = stored_paths(views(names@));
        let mut paths: Vec<String> = Vec::new();
        let mut i: usize = 0;
        while i < names.len()
            invariant
                i <= names.len(),
                paths.len() == i,
                wanted == stored_paths(views(names@)),
                views(paths@) == wanted.take(i as int),
            decreases names.len() - i,
        {
            let p = stored_path(names[i].as_str());
            proof {
                assert(wanted[i as int] == join(storage_dir(), names@[i as int]@));
            }
            let ghost before = paths@;
            paths.push(p);
            proof {
                assert forall|j: int| 0 <= j < i + 1 implies #[trigger] views(paths@)[j] == wanted.take(i + 1)[j] by {
                    if j < i {
                        assert(paths@[j] == before[j]);
                        assert(views(before)[j] == wanted.take(i as int)[j]);
                    }
                }
                assert(views(paths@) =~= wanted.take(i + 1));
            }
            i = i + 1;
        }
        proof {
            assert(wanted.take(i as int) =~= wanted);
        }
        let stage = if names.len() > 0 {
            UploadStage::Recording(0)
        } else {
            UploadStage::AwaitingSaves
        };
        let action = if names.len() > 0 {
            UploadAction::RecordProcess(0)
        } else {
            UploadAction::AwaitSaves
        };
        (UploadSession { paths, stage }, action)
    }

    /// The number of files in the upload.
    pub fn len(&self) -> (r: usize)
        ensures
            r == self.spec_paths().len(),
    {
        self.paths.len()
    }

    /// The stored path of file `i`.
    pub fn path(&self, i: usize) -> (r: &str)
        requires
            i < self.spec_paths().len(),
        ensures
            r@ == self.spec_paths()[i as int],
    {
        self.paths[i].as_str()
    }

    /// The stored paths of all the files, in order.
    pub fn paths(&self) -> (r: Vec<String>)
        ensures
            views(r@) == self.spec_paths(),
    {
        let mut r: Vec<String> = Vec::new();
        let mut i: usize = 0;
        while i < self.paths.len()
            invariant
                i <= self.paths.len(),
                r.len() == i,
                views(r@) == self.spec_paths().take(i as int),
            decreases self.paths.len() - i,
        {
            let mut p = String::new();
            push_str(&mut p, self.paths[i].as_str());
            let ghost before = r@;
            r.push(p);
            proof {
                assert forall|j: int| 0 <= j < i + 1 implies #[trigger] views(r@)[j] == self.spec_paths().take(i + 1)[j] by {
                    if j < i {
                        assert(r@[j] == before[j]);
                        assert(views(before)[j] == self.spec_paths().take(i as int)[j]);
                    }
                }
                assert(views(r@) =~= self.spec_paths().take(i + 1));
            }
            i = i + 1;
        }
        proof {
            assert(self.spec_paths().take(i as int) =~= self.spec_paths());
        }
        r
    }

    /// Where the upload stands.
    pub fn stage(&self) -> (r: UploadStage)
        ensures
            r == self.spec_stage(),
    {
        self.stage
    }

    /// Takes the outcome of the last action and returns the next one.
    pub fn step(&mut self, event: UploadEvent) -> (a: UploadAction)
        ensures
            final(self).spec_paths() == old(self).spec_paths(),
            final(self).spec_stage() == upload_transition(
                old(self).spec_stage(),
                old(self).spec_paths().len(),
                event,
            ),
            stage_fits(final(self).spec_stage(), final(self).spec_paths().len()),
            a == upload_action(final(self).spec_stage()),
    {
        proof {
            use_type_invariant(&*self);
        }
        let n = self.paths.len();
        let next = match (self.stage, event) {
            (UploadStage::Recording(i), UploadEvent::ProcessRecorded) => UploadStage::Saving(i),
            (UploadStage::Saving(i), UploadEvent::SaveStarted) => if i + 1 < n {
                UploadStage::Recording(i + 1)
            } else {
                UploadStage::AwaitingSaves
            },
            (UploadStage::AwaitingSaves, UploadEvent::SavesFinished) => UploadStage::Compressing,
            (UploadStage::Compressing, UploadEvent::CompressionStarted) => UploadStage::Finished,
            (UploadStage::Recording(_), UploadEvent::StepFailed) => UploadStage::Failed,
            (UploadStage::Saving(_), UploadEvent::StepFailed) => UploadStage::Failed,
            (UploadStage::AwaitingSaves, UploadEvent::StepFailed) => UploadStage::Failed,
            _ => self.stage,
        };
        self.stage = next;
        match next {
            UploadStage::Recording(i) => UploadAction::RecordProcess(i),
            UploadStage::Saving(i) => UploadAction::SaveFile(i),
            UploadStage::AwaitingSaves => UploadAction::AwaitSaves,
            UploadStage::Compressing => UploadAction::CompressAll,
            UploadStage::Finished => UploadAction::Finish,
            UploadStage::Failed => UploadAction::Abort,
        }
    }
}


/// The stage an upload of `n` files reaches from `stage` on `events`, taken
/// in order.
pub open spec fn upload_run(stage: UploadStage, n: nat, events: Seq<UploadEvent>) -> UploadStage
    decreases events.len(),
{
    if events.len() == 0 {
        stage
    } else {
        upload_run(upload_transition(stage, n, events[0]), n, events.drop_first())
    }
}

/// The events of `k` files that are each recorded and then saved.
pub open spec fn file_events(k: nat) -> Seq<UploadEvent>
    decreases k,
{
    if k == 0 {
        Seq::empty()
    } else {
        seq![UploadEvent::ProcessRecorded, UploadEvent::SaveStarted] + file_events((k - 1) as nat)
    }
}

/// The events of an upload of `n` files in which every step succeeds.
pub open spec fn successful_upload_events(n: nat) -> Seq<UploadEvent> {
    file_events(n) + seq![UploadEvent::SavesFinished, UploadEvent::CompressionStarted]
}

proof fn lemma_upload_run_append(stage: UploadStage, n: nat, a: Seq<UploadEvent>, b: Seq<UploadEvent>)
    ensures
        upload_run(stage, n, a + b) == upload_run(upload_run(stage, n, a), n, b),
    decreases a.len(),
{
    if a.len() > 0 {
        assert((a + b).drop_first() =~= a.drop_first() + b);
        assert((a + b)[0] == a[0]);
        lemma_upload_run_append(upload_transition(stage, n, a[0]), n, a.drop_first(), b);
    } else {
        assert(a + b =~= b);
    }
}

proof fn lemma_files_saved_in_order(i: usize, n: nat)
    requires
        i < n <= usize::MAX,
    ensures
        upload_run(UploadStage::Recording(i), n, file_events((n - i) as nat)) == UploadStage::AwaitingSaves,
    decreases n - i,
{
    let k = (n - i) as nat;
    let rest = file_events((k - 1) as nat);
    let es = file_events(k);
    assert(es == seq![UploadEvent::ProcessRecorded, UploadEvent::SaveStarted] + rest);
    assert(es.drop_first() =~= seq![UploadEvent::SaveStarted] + rest);
    assert(es.drop_first().drop_first() =~= rest);
    assert(es[0] == UploadEvent::ProcessRecorded);
    assert(es.drop_first()[0] == UploadEvent::SaveStarted);
    assert(upload_run(UploadStage::Recording(i), n, es) == upload_run(UploadStage::Saving(i), n, es.drop_first()));
    let next = upload_transition(UploadStage::Saving(i), n, UploadEvent::SaveStarted);
    assert(upload_run(UploadStage::Saving(i), n, es.drop_first()) == upload_run(next, n, rest));
    if i + 1 < n {
        lemma_files_saved_in_order((i + 1) as usize, n);
    } else {
        assert(rest == Seq::<UploadEvent>::empty());
    }
}

/// Law: an upload in which every step succeeds records and saves the files
/// one after the other, waits for every save, starts the compression and
/// finishes.
pub proof fn law_successful_upload_finishes(n: nat)
    requires
        n <= usize::MAX,
    ensures
        upload_run(upload_start_stage(n), n, file_events(n)) == UploadStage::AwaitingSaves,
        upload_run(upload_start_stage(n), n, successful_upload_events(n)) == UploadStage::Finished,
{
    if n > 0 {
        lemma_files_saved_in_order(0, n);
    } else {
        assert(file_events(0) == Seq::<UploadEvent>::empty());
    }
    lemma_upload_run_append(
        upload_start_stage(n),
        n,
        file_events(n),
        seq![UploadEvent::SavesFinished, UploadEvent::CompressionStarted],
    );
    let tail = seq![UploadEvent::SavesFinished, UploadEvent::CompressionStarted];
    assert(tail.drop_first() =~= seq![UploadEvent::CompressionStarted]);
    assert(tail.drop_first().drop_first() =~= Seq::<UploadEvent>::empty());
    assert(upload_run(UploadStage::AwaitingSaves, n, tail) == upload_run(UploadStage::Compressing, n, tail.drop_first()));
    assert(upload_run(UploadStage::Compressing, n, tail.drop_first()) == upload_run(UploadStage::Finished, n, tail.drop_first().drop_first()));
}

/// Law: each file is saved only once its row is recorded: the saving of
/// file `i` is asked for only right after the row of file `i` was recorded.
pub proof fn law_save_follows_record(stage: UploadStage, n: nat, event: UploadEvent, i: usize)
    ensures
        upload_transition(stage, n, event) == UploadStage::Saving(i) && stage != UploadStage::Saving(i)
            ==> stage == UploadStage::Recording(i) && event == UploadEvent::ProcessRecorded,
{
}

/// Law: files are taken in order: the row of file `i` is asked for only at
/// the start (file 0) or right after the saving of file `i - 1` started.
pub proof fn law_files_in_order(stage: UploadStage, n: nat, event: UploadEvent, i: usize)
    requires
        n <= usize::MAX,
    ensures
        upload_transition(stage, n, event) == UploadStage::Recording(i) && stage != UploadStage::Recording(i)
            ==> i > 0 && stage == UploadStage::Saving((i - 1) as usize) && event == UploadEvent::SaveStarted,
{
}

/// Law: compression starts only after every save has ended: the stage that
/// asks for it is entered only from waiting for the saves, on their
/// success, and waiting for the saves only after the saving of the last
/// file started (or at once when there is no file).
pub proof fn law_compress_after_all_saves(stage: UploadStage, n: nat, event: UploadEvent)
    requires
        stage_fits(stage, n),
    ensures
        upload_transition(stage, n, event) == UploadStage::Compressing && stage != UploadStage::Compressing
            ==> stage == UploadStage::AwaitingSaves && event == UploadEvent::SavesFinished,
        upload_transition(stage, n, event) == UploadStage::AwaitingSaves && stage != UploadStage::AwaitingSaves
            ==> event == UploadEvent::SaveStarted && stage == UploadStage::Saving((n - 1) as usize),
{
}

/// Law: a failed step ends the upload: nothing that comes after moves it,
/// so nothing is compressed.
pub proof fn law_failed_upload_stays_failed(n: nat, events: Seq<UploadEvent>)
    ensures
        upload_run(UploadStage::Failed, n, events) == UploadStage::Failed,
    decreases events.len(),
{
    if events.len() > 0 {
        law_failed_upload_stays_failed(n, events.drop_first());
    }
}


/// Law: an upload finishes only after the compression of its files was
/// started: `Finished` is entered only from `Compressing` on
/// `CompressionStarted`.
pub proof fn law_finished_only_after_compression(stage: UploadStage, n: nat, event: UploadEvent)
    ensures
        upload_transition(stage, n, event) == UploadStage::Finished && stage != UploadStage::Finished
            ==> stage == UploadStage::Compressing && event == UploadEvent::CompressionStarted,
        upload_action(upload_transition(stage, n, event)) == UploadAction::Finish
            ==> upload_transition(stage, n, event) == UploadStage::Finished,
{
}

/// Law: a failed step while a file is recorded or saved, or while the saves
/// are awaited, aborts the upload.
pub proof fn law_failed_step_aborts(stage: UploadStage, n: nat)
    ensures
        (stage is Recording || stage is Saving || stage == UploadStage::AwaitingSaves) ==> {
            &&& upload_transition(stage, n, UploadEvent::StepFailed) == UploadStage::Failed
            &&& upload_action(upload_transition(stage, n, UploadEvent::StepFailed)) == UploadAction::Abort
        },
{
}

proof fn lemma_files_advance(j: usize, k: nat, n: nat)
    requires
        j + k < n <= usize::MAX,
    ensures
        upload_run(UploadStage::Recording(j), n, file_events(k)) == UploadStage::Recording((j + k) as usize),
    decreases k,
{
    if k > 0 {
        let rest = file_events((k - 1) as nat);
        let es = file_events(k);
        assert(es.drop_first() =~= seq![UploadEvent::SaveStarted] + rest);
        assert(es.drop_first().drop_first() =~= rest);
        assert(es[0] == UploadEvent::ProcessRecorded);
        assert(es.drop_first()[0] == UploadEvent::SaveStarted);
        assert(upload_run(UploadStage::Recording(j), n, es) == upload_run(UploadStage::Saving(j), n, es.drop_first()));
        assert(upload_run(UploadStage::Saving(j), n, es.drop_first()) == upload_run(
            UploadStage::Recording((j + 1) as usize),
            n,
            rest,
        ));
        lemma_files_advance((j + 1) as usize, (k - 1) as nat, n);
    } else {
        assert(file_events(0) == Seq::<UploadEvent>::empty());
    }
}

/// Law: in an upload whose steps succeed, file `i` is the one recorded once
/// the files before it are recorded and saved, and it is the one saved right
/// after: each file is recorded and saved in turn, under its own index.
pub proof fn law_each_file_handled_in_turn(n: nat, i: nat)
    requires
        i < n <= usize::MAX,
    ensures
        upload_action(upload_run(upload_start_stage(n), n, file_events(i))) == UploadAction::RecordProcess(
            i as usize,
        ),
        upload_action(
            upload_run(upload_start_stage(n), n, file_events(i) + seq![UploadEvent::ProcessRecorded]),
        ) == UploadAction::SaveFile(i as usize),
{
    lemma_files_advance(0, i, n);
    lemma_upload_run_append(upload_start_stage(n), n, file_events(i), seq![UploadEvent::ProcessRecorded]);
    let one = seq![UploadEvent::ProcessRecorded];
    assert(one.drop_first() =~= Seq::<UploadEvent>::empty());
    assert(one[0] == UploadEvent::ProcessRecorded);
    assert(upload_start_stage(n) == UploadStage::Recording(0));
    assert(upload_run(UploadStage::Recording(i as usize), n, one) == upload_run(
        UploadStage::Saving(i as usize),
        n,
        one.drop_first(),
    ));
}

/// Law: the upload page holds a form that posts the chosen files as
/// multipart form data, with a file input that takes several files.
pub proof fn law_index_page_posts_files()
    ensures
        index_page().subrange(74, 124int)
            == "<form method='POST' enctype='multipart/form-data'>"@,
        index_page().subrange(
            141,
            196int,
        ) == "<input type='file' name='fileupload' multiple required>"@,
{
    reveal_strlit("<form method='POST' enctype='multipart/form-data'>");
    reveal_strlit("<input type='file' name='fileupload' multiple required>");
    reveal_strlit(
        "
    <html>
        <body>
            <h1>File Uploader</h1>
            <form method='POST' enctype='multipart/form-data'>
                <input type='file' name='fileupload' multiple required>
                <button type='submit'>Upload File(s)</button>
            </form>
        </body>
    </html>
    ",
    );
    assert(index_page().subrange(74, 124int)
        =~= "<form method='POST' enctype='multipart/form-data'>"@);
    assert(index_page().subrange(
        141,
        196int,
    ) =~= "<input type='file' name='fileupload' multiple required>"@);
}

} // verus!
