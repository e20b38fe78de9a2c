//! The process table: the rows that record each upload, and the decisions of
//! recording one (look for the table, create it when it is missing, then
//! insert the row). The queries themselves run outside the library; each
//! answer comes back as an event.

use vstd::prelude::*;

verus! {

/// One row of the `processes` table.
#[derive(Debug)]
pub struct Process {
    id: i32,
    name: String,
    status: String,
}

impl Process {
    /// The row's serial id.
    pub closed spec fn spec_id(&self) -> i32 {
        self.id
    }

    /// The row's name: the path of the uploaded file.
    pub closed spec fn spec_name(&self) -> Seq<char> {
        self.name@
    }

    /// The row's status text.
    pub closed spec fn spec_status(&self) -> Seq<char> {
        self.status@
    }

    /// The row with the given columns.
    pub fn new(id: i32, name: String, status: String) -> (p: Process)
        ensures
            p.spec_id() == id,
            p.spec_name() == name@,
            p.spec_status() == status@,
    {
        Process { id, name, status }
    }

    /// The row's serial id.
    pub fn id(&self) -> (r: i32)
        ensures
            r == self.spec_id(),
    {
        self.id
    }

    /// The row's name.
    pub fn name(&self) -> (r: &str)
        ensures
            r@ == self.spec_name(),
    {
        self.name.as_str()
    }

    /// The row's status text.
    pub fn status(&self) -> (r: &str)
        ensures
            r@ == self.spec_status(),
    {
        self.status.as_str()
    }
}

/// Where the recording of one process row stands.
#[derive(PartialEq, Eq, Structural, Clone, Copy, Debug)]
pub enum RecordStage {
    /// Waiting to learn whether the `processes` table exists.
    CheckingTable,
    /// Waiting for the table to be created.
    CreatingTable,
    /// Waiting for the row to be inserted.
    Inserting,
    /// The row is in the table.
    Recorded,
    /// A query failed; nothing more is done.
    Failed,
}

/// What the outside world answers to the last action.
#[derive(PartialEq, Eq, Structural, Clone, Copy, Debug)]
pub enum RecordEvent {
    /// The table lookup answered whether the table exists.
    TableChecked(bool),
    /// The table was created.
    TableCreated,
    /// The row was inserted.
    Inserted,
    /// The last query failed.
    QueryFailed,
}

/// What to do next while recording a process row.
#[derive(PartialEq, Eq, Structural, Clone, Copy, Debug)]
pub enum RecordAction {
    /// Ask whether the `processes` table exists.
    CheckTable,
    /// Create the `processes` table.
    CreateTable,
    /// Insert the row with the recorder's name and status.
    InsertRow,
    /// Done: the inserted row is the result.
    Report,
    /// Stop and hand back the failed query's error.
    Abort,
}

/// The stage that follows `stage` on `event`. An event that does not answer
/// the stage's pending action leaves the stage as it is.
pub open spec fn record_transition(stage: RecordStage, event: RecordEvent) -> RecordStage {
    match (stage, event) {
        (RecordStage::CheckingTable, RecordEvent::TableChecked(true)) => RecordStage::Inserting,
        (RecordStage::CheckingTable, RecordEvent::TableChecked(false)) => RecordStage::CreatingTable,
        (RecordStage::CreatingTable, RecordEvent::TableCreated) => RecordStage::Inserting,
        (RecordStage::Inserting, RecordEvent::Inserted) => RecordStage::Recorded,
        (RecordStage::CheckingTable, RecordEvent::QueryFailed) => RecordStage::Failed,
        (RecordStage::CreatingTable, RecordEvent::QueryFailed) => RecordStage::Failed,
        (RecordStage::Inserting, RecordEvent::QueryFailed) => RecordStage::Failed,
        _ => stage,
    }
}

/// The action pending in `stage`.
pub open spec fn record_action(stage: RecordStage) -> RecordAction {
    match stage {
        RecordStage::CheckingTable => RecordAction::CheckTable,
        RecordStage::CreatingTable => RecordAction::CreateTable,
        RecordStage::Inserting => RecordAction::InsertRow,
        RecordStage::Recorded => RecordAction::Report,
        RecordStage::Failed => RecordAction::Abort,
    }
}

/// Records one process row: the decisions of storing an upload's name and
/// status in the `processes` table.
pub struct ProcessRecorder {
    name: String,
    status: String,
    stage: RecordStage,
}

impl ProcessRecorder {
    /// The name the row is inserted with.
    pub closed spec fn spec_name(&self) -> Seq<char> {
        self.name@
    }

    /// The status the row is inserted with.
    pub closed spec fn spec_status(&self) -> Seq<char> {
        self.status@
    }

    /// Where the recording stands.
    pub closed spec fn spec_stage(&self) -> RecordStage {
        self.stage
    }

    /// Starts recording a row for `name` with `status`; the first action is
    /// to look for the table.
    pub fn start(name: &str, status: &str) -> (r: (ProcessRecorder, RecordAction))
        ensures
            r.0.spec_name() == name@,
            r.0.spec_status() == status@,
            r.0.spec_stage() == RecordStage::CheckingTable,
            r.1 == RecordAction::CheckTable,
    {
        let rec = ProcessRecorder {
            name: name.to_owned(),
            status: status.to_owned(),
            stage: RecordStage::CheckingTable,
        };
        (rec, RecordAction::CheckTable)
    }

    /// Where the recording stands.
    pub fn stage(&self) -> (r: RecordStage)
        ensures
            r == self.spec_stage(),
    {
        self.stage
    }

    /// The name the row is inserted with.
    pub fn name(&self) -> (r: &str)
        ensures
            r@ == self.spec_name(),
    {
        self.name.as_str()
    }

    /// The status the row is inserted with.
    pub fn status(&self) -> (r: &str)
        ensures
            r@ == self.spec_status(),
    {
        self.status.as_str()
    }

    /// Takes the answer to the last action and returns the next one.
    pub fn step(&mut self, event: RecordEvent) -> (a: RecordAction)
        ensures
            final(self).spec_stage() == record_transition(old(self).spec_stage(), event),
            final(self).spec_name() == old(self).spec_name(),
            final(self).spec_status() == old(self).spec_status(),
            a == record_action(final(self).spec_stage()),
    {
        let next = match (self.stage, event) {
            (RecordStage::CheckingTable, RecordEvent::TableChecked(true)) => RecordStage::Inserting,
            (RecordStage::CheckingTable, RecordEvent::TableChecked(false)) => RecordStage::CreatingTable,
            (RecordStage::CreatingTable, RecordEvent::TableCreated) => RecordStage::Inserting,
            (RecordStage::Inserting, RecordEvent::Inserted) => RecordStage::Recorded,
            (RecordStage::CheckingTable, RecordEvent::QueryFailed) => RecordStage::Failed,
            (RecordStage::CreatingTable, RecordEvent::QueryFailed) => RecordStage::Failed,
            (RecordStage::Inserting, RecordEvent::QueryFailed) => RecordStage::Failed,
            _ => self.stage,
        };
        self.stage = next;
        match next {
            RecordStage::CheckingTable => RecordAction::CheckTable,
            RecordStage::CreatingTable => RecordAction::CreateTable,
            RecordStage::Inserting => RecordAction::InsertRow,
            RecordStage::Recorded => RecordAction::Report,
            RecordStage::Failed => RecordAction::Abort,
        }
    }
}


/// The stage that recording reaches from `stage` on `events`, in order.
pub open spec fn record_run(stage: RecordStage, events: Seq<RecordEvent>) -> RecordStage
    decreases events.len(),
{
    if events.len() == 0 {
        stage
    } else {
        record_run(record_transition(stage, events[0]), events.drop_first())
    }
}

/// The answers of a recording in which every query succeeds, when the table
/// exists already (`table_exists`) or not.
pub open spec fn successful_record_events(table_exists: bool) -> Seq<RecordEvent> {
    if table_exists {
        seq![RecordEvent::TableChecked(true), RecordEvent::Inserted]
    } else {
        seq![RecordEvent::TableChecked(false), RecordEvent::TableCreated, RecordEvent::Inserted]
    }
}

/// Law: when every query succeeds the row gets recorded, whether or not the
/// table existed.
pub proof fn law_record_succeeds(table_exists: bool)
    ensures
        record_run(RecordStage::CheckingTable, successful_record_events(table_exists)) == RecordStage::Recorded,
{
    let es = successful_record_events(table_exists);
    if table_exists {
        assert(es.drop_first() =~= seq![RecordEvent::Inserted]);
        assert(es.drop_first().drop_first() =~= Seq::<RecordEvent>::empty());
        assert(record_run(RecordStage::CheckingTable, es) == record_run(RecordStage::Inserting, es.drop_first()));
        assert(record_run(RecordStage::Inserting, es.drop_first()) == record_run(
            RecordStage::Recorded,
            es.drop_first().drop_first(),
        ));
    } else {
        assert(es.drop_first() =~= seq![RecordEvent::TableCreated, RecordEvent::Inserted]);
        assert(es.drop_first().drop_first() =~= seq![RecordEvent::Inserted]);
        assert(es.drop_first().drop_first().drop_first() =~= Seq::<RecordEvent>::empty());
        assert(record_run(RecordStage::CheckingTable, es) == record_run(RecordStage::CreatingTable, es.drop_first()));
        assert(record_run(RecordStage::CreatingTable, es.drop_first()) == record_run(
            RecordStage::Inserting,
            es.drop_first().drop_first(),
        ));
        assert(record_run(RecordStage::Inserting, es.drop_first().drop_first()) == record_run(
            RecordStage::Recorded,
            es.drop_first().drop_first().drop_first(),
        ));
    }
}

/// Law: the row is inserted only once the table is known to exist: either
/// the lookup found it, or it was just created.
pub proof fn law_insert_needs_table(stage: RecordStage, event: RecordEvent)
    ensures
        record_transition(stage, event) == RecordStage::Inserting && stage != RecordStage::Inserting ==> {
            ||| stage == RecordStage::CheckingTable && event == RecordEvent::TableChecked(true)
            ||| stage == RecordStage::CreatingTable && event == RecordEvent::TableCreated
        },
{
}

/// Law: the table is created only when the lookup found it missing.
pub proof fn law_create_only_when_missing(stage: RecordStage, event: RecordEvent)
    ensures
        record_transition(stage, event) == RecordStage::CreatingTable && stage != RecordStage::CreatingTable
            ==> stage == RecordStage::CheckingTable && event == RecordEvent::TableChecked(false),
{
}

/// Law: a recording that failed, or that is done, stays so whatever comes.
pub proof fn law_record_end_is_final(events: Seq<RecordEvent>)
    ensures
        record_run(RecordStage::Failed, events) == RecordStage::Failed,
        record_run(RecordStage::Recorded, events) == RecordStage::Recorded,
    decreases events.len(),
{
    if events.len() > 0 {
        law_record_end_is_final(events.drop_first());
    }
}


/// Law: a failed query never counts as a recorded row: from any stage but
/// `Recorded` itself, a failed query ends the recording as failed.
pub proof fn law_failed_query_never_records(stage: RecordStage)
    ensures
        stage != RecordStage::Recorded ==> record_transition(stage, RecordEvent::QueryFailed)
            == RecordStage::Failed,
        record_action(record_transition(stage, RecordEvent::QueryFailed)) == RecordAction::Report
            ==> stage == RecordStage::Recorded,
{
}

/// Law: a row is reported as recorded only right after its insert
/// succeeded: `Recorded` is entered only from `Inserting` on `Inserted`.
pub proof fn law_recorded_only_after_insert(stage: RecordStage, event: RecordEvent)
    ensures
        record_transition(stage, event) == RecordStage::Recorded && stage != RecordStage::Recorded
            ==> stage == RecordStage::Inserting && event == RecordEvent::Inserted,
        record_action(record_transition(stage, event)) == RecordAction::Report
            ==> record_transition(stage, event) == RecordStage::Recorded,
{
}

} // verus!
