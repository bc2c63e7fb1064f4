//! One run of the generator, as the decisions between its outside steps.
//!
//! The program around this library lists the schema directory, runs the
//! schema compiler, reads the identifier table, writes the generated source
//! and runs the formatter. After each step it reports what came back, and
//! [`advance`] says what to do next.

use vstd::prelude::*;
use crate::document::json_reading;
use crate::emit::source_text;
use crate::generator::{generate_identifier_source, refuses};
use crate::locate::{locate, Filter, FilterSpec};
use crate::table::{conforms, entries_of, MalformedIdentifierTable};
use crate::text::string_views;

verus! {

/// Under the data directory: the directory of schema files.
pub const SCHEMA_DIRECTORY: &'static str = "proto";

/// The ending of a schema file's name.
pub const SCHEMA_SUFFIX: &'static str = ".proto";

/// Under the data directory: the file of the identifier table.
pub const TABLE_FILE: &'static str = "packetIds.json";

/// Under the library directory: the directory for the generated bindings.
pub const BINDINGS_DIRECTORY: &'static str = "src/network/command/proto";

/// Under the library directory: the file for the generated source unit.
pub const SOURCE_FILE: &'static str = "src/network/command/command_id.rs";

/// Why a run failed. Every failure ends the run.
#[derive(Debug, Clone, Copy, PartialEq, Eq, Structural)]
pub enum Failure {
    /// Fewer than two arguments were given.
    Usage,
    /// The schema directory could not be listed, or the table not be read.
    DirectoryUnreadable,
    /// The schema compiler reported an error.
    SchemaCompilation,
    /// The table file does not hold an identifier table.
    MalformedIdentifierTable(MalformedIdentifierTable),
    /// The generated source could not be written.
    Write,
    /// The formatter could not be started or reported an error.
    Formatter,
}

/// An outside step of a run, in the order in which a run takes them.
#[derive(Debug, Clone, Copy, PartialEq, Eq, Structural)]
pub enum Step {
    /// The program is started with its arguments.
    Invocation,
    /// The schema directory is listed.
    SchemaListing,
    /// The schema compiler writes the bindings.
    SchemaCompilation,
    /// The table file is read.
    TableReading,
    /// The generated source is written.
    SourceWriting,
    /// The formatter rewrites the generated source. Where it fails the run
    /// fails, and what was written stays as it is: no action takes it back.
    SourceFormatting,
}

/// Where a run stands: waiting for an outside step, or ended.
#[derive(Debug, Clone, Copy, PartialEq, Eq, Structural)]
pub enum Stage {
    /// The run waits for this step.
    Waiting(Step),
    /// Every step went through.
    Succeeded,
    /// A step was refused, or the table was malformed.
    Failed(Failure),
}

/// What came back from the outside step that the run waited for.
#[derive(Debug, Clone, PartialEq, Eq)]
pub enum Event {
    /// The program was started with this many arguments after its name.
    Invoked { arguments: usize },
    /// The schema directory holds the files of these names.
    Listed(Vec<String>),
    /// The schema compiler wrote the bindings.
    Compiled,
    /// The table file holds these bytes.
    TableRead(Vec<u8>),
    /// The generated source is on disk.
    Written,
    /// The formatter has rewritten the generated source.
    Formatted,
    /// The step failed.
    Refused,
}

/// Mathematical model of an [`Event`].
pub enum EventSpec {
    Invoked { arguments: usize },
    Listed(Seq<Seq<char>>),
    Compiled,
    TableRead(Seq<u8>),
    Written,
    Formatted,
    Refused,
}

impl View for Event {
    type V = EventSpec;

    open spec fn view(&self) -> EventSpec {
        match self {
            Event::Invoked { arguments } => EventSpec::Invoked { arguments: *arguments },
            Event::Listed(names) => EventSpec::Listed(string_views(names@)),
            Event::Compiled => EventSpec::Compiled,
            Event::TableRead(bytes) => EventSpec::TableRead(bytes@),
            Event::Written => EventSpec::Written,
            Event::Formatted => EventSpec::Formatted,
            Event::Refused => EventSpec::Refused,
        }
    }
}

/// The next thing for the program to do.
#[derive(Debug, Clone, PartialEq, Eq)]
pub enum Action {
    /// List the schema directory.
    ListSchemas,
    /// Compile the schema files of these names, which may be none.
    CompileSchemas(Vec<String>),
    /// Read the table file.
    ReadTable,
    /// Write this text to the source file.
    WriteSource(String),
    /// Run the formatter on the source file.
    FormatSource,
    /// End the run as a success.
    Succeed,
    /// End the run as a failure.
    Fail(Failure),
}

/// Mathematical model of an [`Action`].
pub enum ActionSpec {
    ListSchemas,
    CompileSchemas(Seq<Seq<char>>),
    ReadTable,
    WriteSource(Seq<char>),
    FormatSource,
    Succeed,
    Fail(Failure),
}

impl View for Action {
    type V = ActionSpec;

    open spec fn view(&self) -> ActionSpec {
        match self {
            Action::ListSchemas => ActionSpec::ListSchemas,
            Action::CompileSchemas(names) => ActionSpec::CompileSchemas(string_views(names@)),
            Action::ReadTable => ActionSpec::ReadTable,
            Action::WriteSource(text) => ActionSpec::WriteSource(text@),
            Action::FormatSource => ActionSpec::FormatSource,
            Action::Succeed => ActionSpec::Succeed,
            Action::Fail(failure) => ActionSpec::Fail(*failure),
        }
    }
}

/// The filter that keeps schema files.
pub open spec fn schema_filter_spec() -> FilterSpec {
    FilterSpec::Suffix(SCHEMA_SUFFIX@)
}

/// Whether the run ends with `failure` here.
pub open spec fn fails_with(failure: Failure, next: Stage, action: ActionSpec) -> bool {
    next == Stage::Failed(failure) && action == ActionSpec::Fail(failure)
}

/// The failure that a run ends with when `step` is refused.
pub open spec fn refusal(step: Step) -> Failure {
    match step {
        Step::Invocation => Failure::Usage,
        Step::SchemaListing => Failure::DirectoryUnreadable,
        Step::SchemaCompilation => Failure::SchemaCompilation,
        Step::TableReading => Failure::DirectoryUnreadable,
        Step::SourceWriting => Failure::Write,
        Step::SourceFormatting => Failure::Formatter,
    }
}

/// Whether a run that waits for `step` and is told `event` goes on to `next`
/// with `action`.
///
/// An event that answers `step` takes the run one step on: the schema
/// bindings come before the identifier source, and the source is written
/// only for a table that conforms. Any other event counts as `step` refused
/// and ends the run with the failure of that step.
pub open spec fn answers(step: Step, event: EventSpec, next: Stage, action: ActionSpec) -> bool {
    match (step, event) {
        (Step::Invocation, EventSpec::Invoked { arguments }) if arguments >= 2 => {
            next == Stage::Waiting(Step::SchemaListing) && action == ActionSpec::ListSchemas
        },
        (Step::SchemaListing, EventSpec::Listed(names)) => {
            &&& next == Stage::Waiting(Step::SchemaCompilation)
            &&& action == ActionSpec::CompileSchemas(
                names.filter(schema_filter_spec().predicate()),
            )
        },
        (Step::SchemaCompilation, EventSpec::Compiled) => {
            next == Stage::Waiting(Step::TableReading) && action == ActionSpec::ReadTable
        },
        (Step::TableReading, EventSpec::TableRead(bytes)) => match json_reading(bytes) {
            Some(document) if conforms(document) => {
                &&& next == Stage::Waiting(Step::SourceWriting)
                &&& action == ActionSpec::WriteSource(
                    source_text(entries_of(document.members())),
                )
            },
            reading => {
                &&& next matches Stage::Failed(Failure::MalformedIdentifierTable(error))
                &&& refuses(reading, error)
                &&& action == ActionSpec::Fail(Failure::MalformedIdentifierTable(error))
            },
        },
        (Step::SourceWriting, EventSpec::Written) => {
            next == Stage::Waiting(Step::SourceFormatting) && action == ActionSpec::FormatSource
        },
        (Step::SourceFormatting, EventSpec::Formatted) => {
            next == Stage::Succeeded && action == ActionSpec::Succeed
        },
        _ => fails_with(refusal(step), next, action),
    }
}

/// Whether a run in `stage` that is told `event` goes on to `next` with
/// `action`. A run that has ended stays as it ended, whatever it is told.
pub open spec fn follows(stage: Stage, event: EventSpec, next: Stage, action: ActionSpec) -> bool {
    match stage {
        Stage::Waiting(step) => answers(step, event, next, action),
        Stage::Succeeded => next == Stage::Succeeded && action == ActionSpec::Succeed,
        Stage::Failed(failure) => fails_with(failure, next, action),
    }
}

/// The filter that keeps schema files: names that end in `.proto`.
pub fn schema_filter() -> (filter: Filter)
    ensures
        filter@ == schema_filter_spec(),
{
    Filter::Suffix(String::from_str(SCHEMA_SUFFIX))
}

/// The stage in which every run begins.
pub fn begin() -> (stage: Stage)
    ensures
        stage == Stage::Waiting(Step::Invocation),
{
    Stage::Waiting(Step::Invocation)
}

/// The failure that a run ends with when `step` is refused.
pub fn refusal_of(step: Step) -> (failure: Failure)
    ensures
        failure == refusal(step),
{
    match step {
        Step::Invocation => Failure::Usage,
        Step::SchemaListing => Failure::DirectoryUnreadable,
        Step::SchemaCompilation => Failure::SchemaCompilation,
        Step::TableReading => Failure::DirectoryUnreadable,
        Step::SourceWriting => Failure::Write,
        Step::SourceFormatting => Failure::Formatter,
    }
}

/// Decides what a run in `stage` does when it is told `event`.
pub fn advance(stage: Stage, event: Event) -> (decision: (Stage, Action))
    ensures
        follows(stage, event@, decision.0, decision.1@),
{
    let pending = match stage {
        Stage::Waiting(pending) => pending,
        Stage::Succeeded => {
            return (Stage::Succeeded, Action::Succeed);
        },
        Stage::Failed(failure) => {
            return (Stage::Failed(failure), Action::Fail(failure));
        },
    };
    match (pending, event) {
        (Step::Invocation, Event::Invoked { arguments }) if arguments >= 2 => {
            (Stage::Waiting(Step::SchemaListing), Action::ListSchemas)
        },
        (Step::SchemaListing, Event::Listed(names)) => {
            let schemas = locate(&names, &schema_filter());
            (Stage::Waiting(Step::SchemaCompilation), Action::CompileSchemas(schemas))
        },
        (Step::SchemaCompilation, Event::Compiled) => {
            (Stage::Waiting(Step::TableReading), Action::ReadTable)
        },
        (Step::TableReading, Event::TableRead(bytes)) => {
            match generate_identifier_source(bytes.as_slice()) {
                Ok(source) => (Stage::Waiting(Step::SourceWriting), Action::WriteSource(source)),
                Err(error) => {
                    let failure = Failure::MalformedIdentifierTable(error);
                    (Stage::Failed(failure), Action::Fail(failure))
                },
            }
        },
        (Step::SourceWriting, Event::Written) => {
            (Stage::Waiting(Step::SourceFormatting), Action::FormatSource)
        },
        (Step::SourceFormatting, Event::Formatted) => (Stage::Succeeded, Action::Succeed),
        (pending, _) => {
            let failure = refusal_of(pending);
            (Stage::Failed(failure), Action::Fail(failure))
        },
    }
}

/// What a run does next is decided by where it stands and what it is told:
/// the same stage and event never lead to two different answers.
pub proof fn lemma_one_way_on(
    stage: Stage,
    event: EventSpec,
    next: Stage,
    action: ActionSpec,
    other_next: Stage,
    other_action: ActionSpec,
)
    requires
        follows(stage, event, next, action),
        follows(stage, event, other_next, other_action),
    ensures
        next == other_next,
        action == other_action,
{
}

/// The place of `step` in a run, counted from zero.
pub open spec fn position(step: Step) -> int {
    match step {
        Step::Invocation => 0,
        Step::SchemaListing => 1,
        Step::SchemaCompilation => 2,
        Step::TableReading => 3,
        Step::SourceWriting => 4,
        Step::SourceFormatting => 5,
    }
}

/// Whether `stages`, `events` and `actions` record a run from its beginning:
/// the stage before each event, the stage after the last, and the action that
/// followed each event.
pub open spec fn is_run(
    stages: Seq<Stage>,
    events: Seq<EventSpec>,
    actions: Seq<ActionSpec>,
) -> bool {
    &&& stages.len() == events.len() + 1
    &&& actions.len() == events.len()
    &&& stages[0] == Stage::Waiting(Step::Invocation)
    &&& forall|k: int|
        0 <= k < events.len() ==> follows(stages[k], events[k], stages[k + 1], #[trigger] actions[k])
}

/// A run takes its steps in their one order, one for each event: while it
/// waits, it waits for the step whose place is the number of events so far.
pub proof fn lemma_steps_in_order(
    stages: Seq<Stage>,
    events: Seq<EventSpec>,
    actions: Seq<ActionSpec>,
    k: int,
)
    requires
        is_run(stages, events, actions),
        0 <= k <= events.len(),
    ensures
        stages[k] matches Stage::Waiting(step) ==> position(step) == k,
    decreases k,
{
    if k > 0 {
        lemma_steps_in_order(stages, events, actions, k - 1);
        assert(follows(stages[k - 1], events[k - 1], stages[k], actions[k - 1]));
    }
}

/// The outside step that `action` asks the program to take, if any.
pub open spec fn asked(action: ActionSpec) -> Option<Step> {
    match action {
        ActionSpec::ListSchemas => Some(Step::SchemaListing),
        ActionSpec::CompileSchemas(_) => Some(Step::SchemaCompilation),
        ActionSpec::ReadTable => Some(Step::TableReading),
        ActionSpec::WriteSource(_) => Some(Step::SourceWriting),
        ActionSpec::FormatSource => Some(Step::SourceFormatting),
        ActionSpec::Succeed => None,
        ActionSpec::Fail(_) => None,
    }
}

/// A run asks for an outside step only in its turn and only while nothing
/// has failed: the step asked for after the event at `k` is the one whose
/// place is `k + 1`, the run then waits for it, and it was waiting, not
/// ended, at every stage before. So nothing is listed, compiled, read,
/// written or formatted after a failure, nor out of turn.
pub proof fn lemma_asks_in_turn(
    stages: Seq<Stage>,
    events: Seq<EventSpec>,
    actions: Seq<ActionSpec>,
    k: int,
)
    requires
        is_run(stages, events, actions),
        0 <= k < events.len(),
        asked(actions[k]) is Some,
    ensures
        position(asked(actions[k])->0) == k + 1,
        stages[k + 1] == Stage::Waiting(asked(actions[k])->0),
        forall|j: int| 0 <= j <= k ==> (#[trigger] stages[j]) is Waiting,
{
    lemma_steps_in_order(stages, events, actions, k + 1);
    assert(follows(stages[k], events[k], stages[k + 1], actions[k]));
    assert forall|j: int| 0 <= j <= k implies (#[trigger] stages[j]) is Waiting by {
        if !(stages[j] is Waiting) {
            lemma_ended_run_stays(stages, events, actions, j, k);
        }
    }
}

/// A run that has ended stays as it ended, whatever it is told.
pub proof fn lemma_ended_run_stays(
    stages: Seq<Stage>,
    events: Seq<EventSpec>,
    actions: Seq<ActionSpec>,
    k: int,
    j: int,
)
    requires
        is_run(stages, events, actions),
        0 <= k <= j <= events.len(),
        !(stages[k] is Waiting),
    ensures
        stages[j] == stages[k],
    decreases j - k,
{
    if k < j {
        lemma_ended_run_stays(stages, events, actions, k, j - 1);
        assert(follows(stages[j - 1], events[j - 1], stages[j], actions[j - 1]));
    }
}

/// The source is written only for a table that conforms, and only after
/// the schema bindings: a run asks for the write as its fourth decision
/// alone, when the listing and the compilation went through and the bytes
/// read hold a conforming table, and it asks to write that table's source.
/// So a missing directory, a missing or malformed table and a failed
/// compilation each end the run with nothing written.
pub proof fn lemma_source_written_for_conforming_table(
    stages: Seq<Stage>,
    events: Seq<EventSpec>,
    actions: Seq<ActionSpec>,
    k: int,
)
    requires
        is_run(stages, events, actions),
        0 <= k < events.len(),
        actions[k] is WriteSource,
    ensures
        k == 3,
        events[0] matches EventSpec::Invoked { arguments } && arguments >= 2,
        events[1] is Listed,
        events[2] is Compiled,
        events[3] matches EventSpec::TableRead(bytes) && json_reading(bytes) matches Some(document)
            && conforms(document) && actions[k] == ActionSpec::WriteSource(
            source_text(entries_of(document.members())),
        ),
{
    lemma_steps_in_order(stages, events, actions, k);
    assert(follows(stages[2], events[2], stages[3], actions[2]));
    assert(follows(stages[1], events[1], stages[2], actions[1]));
    assert(follows(stages[0], events[0], stages[1], actions[0]));
}

/// Every failure is final: once a run has failed, whatever it is told, it
/// stays failed with the same failure and asks for nothing but to end.
pub proof fn lemma_failure_is_final(
    stages: Seq<Stage>,
    events: Seq<EventSpec>,
    actions: Seq<ActionSpec>,
    k: int,
    j: int,
)
    requires
        is_run(stages, events, actions),
        0 <= k <= j < events.len(),
        stages[k] is Failed,
    ensures
        stages[j + 1] == stages[k],
        actions[j] == ActionSpec::Fail(stages[k]->Failed_0),
{
    lemma_ended_run_stays(stages, events, actions, k, j);
    assert(follows(stages[j], events[j], stages[j + 1], actions[j]));
}

} // verus!
