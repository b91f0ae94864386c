//! The transform pipeline: its progress events, the checks before it starts,
//! the order of its steps as a state machine, and its closing summary.
use vstd::prelude::*;
use vstd::string::StringExecFns;

verus! {

/// An event pushed to the GUI or printed by the CLI: a level and a message.
#[derive(Debug, Clone)]
pub struct LogEvent {
    pub level: String,
    pub message: String,
}

impl LogEvent {
    /// An `INFO` event.
    pub fn info(msg: String) -> (r: Self)
        ensures
            r.level@ == "INFO"@,
            r.message@ == msg@,
    {
        Self { level: String::from_str("INFO"), message: msg }
    }

    /// A `WARN` event.
    pub fn warn(msg: String) -> (r: Self)
        ensures
            r.level@ == "WARN"@,
            r.message@ == msg@,
    {
        Self { level: String::from_str("WARN"), message: msg }
    }

    /// An `ERROR` event.
    pub fn error(msg: String) -> (r: Self)
        ensures
            r.level@ == "ERROR"@,
            r.message@ == msg@,
    {
        Self { level: String::from_str("ERROR"), message: msg }
    }

    /// A `SUCCESS` event.
    pub fn success(msg: String) -> (r: Self)
        ensures
            r.level@ == "SUCCESS"@,
            r.message@ == msg@,
    {
        Self { level: String::from_str("SUCCESS"), message: msg }
    }
}

// ---------------------------------------------------------------------------
// Before the run
// ---------------------------------------------------------------------------

/// Why a run does not start: the parameters' validation message, else an
/// empty output directory; `None` when it may start.
pub open spec fn precheck_error(validation: Option<Seq<char>>, output_dir: Seq<char>) -> Option<Seq<char>> {
    match validation {
        Some(e) => Some(e),
        None => if output_dir.len() == 0 {
            Some("输出目录不能为空"@)
        } else {
            None
        },
    }
}

/// The checks before a run (see `precheck_error`); `validation` is what the
/// parameters' own validation reported.
pub fn run_precheck(validation: Option<&str>, output_dir: &str) -> (r: Option<String>)
    ensures
        match precheck_error(match validation { Some(v) => Some(v@), None => None }, output_dir@) {
            Some(e) => r matches Some(x) && x@ == e,
            None => r is None,
        },
{
    match validation {
        Some(v) => Some(String::from_str(v)),
        None => if output_dir.unicode_len() == 0 {
            Some(String::from_str("输出目录不能为空"))
        } else {
            None
        },
    }
}

// ---------------------------------------------------------------------------
// The order of the steps
// ---------------------------------------------------------------------------

/// Where a run stands.
#[derive(Debug, Clone, Copy, PartialEq, Eq)]
pub enum RunState {
    /// Nothing done yet.
    Start,
    /// Unpacking the archive or copying the project.
    Preparing,
    /// Moving the project into the output directory.
    Moving,
    /// Loading the template and detecting the project.
    Detecting,
    /// Planning and executing the tasks.
    Running,
    /// Validating the result; `failed` tasks failed.
    Checking { failed: usize },
    /// Writing the report; `failed` tasks failed.
    Reporting { failed: usize },
    /// Over.
    Done,
}

/// What the outside work reports back.
#[derive(Debug, Clone)]
pub enum StepEvent {
    /// Start a run: the parameters' validation message, the output directory,
    /// and whether the source is a zip archive.
    Begin { validation: Option<String>, output_dir: String, zip: bool },
    /// The project was unpacked or copied.
    Prepared,
    /// The project is in the output directory.
    Moved,
    /// The project was detected; `refusal` is why it cannot be transformed
    /// (an unsupported database dialect, a new module clashing with the project).
    Detected { refusal: Option<String> },
    /// The tasks ran; `failed` of them failed.
    Executed { failed: usize },
    /// The result was validated.
    Checked,
    /// The report was written (or its failure logged).
    Reported,
    /// A step's file work failed.
    Failed { message: String },
}

/// What to do next.
#[derive(Debug, Clone)]
pub enum StepAction {
    /// End with an unsuccessful response carrying `message`; `at_output` says
    /// whether the response names the output directory.
    Stop { message: String, at_output: bool },
    /// End with the error `message`.
    Abort { message: String },
    /// Unpack the archive into the temporary directory.
    Extract,
    /// Copy the project into the temporary directory.
    Copy,
    /// Move the project into the output directory.
    MoveToOutput,
    /// Load the template and detect the project.
    Detect,
    /// Plan the tasks and execute them.
    PlanAndExecute,
    /// Validate the result.
    Validate,
    /// Write the report.
    Report,
    /// End with the closing summary for `failed` failed tasks.
    Finish { failed: usize },
    /// The event does not fit the state: nothing to do.
    Ignore,
}

/// A step action as plain values: its kind, its message and its flag or count.
pub open spec fn action_view(a: StepAction) -> (int, Seq<char>, bool, int) {
    match a {
        StepAction::Stop { message, at_output } => (0, message@, at_output, 0),
        StepAction::Abort { message } => (1, message@, false, 0),
        StepAction::Extract => (2, Seq::empty(), false, 0),
        StepAction::Copy => (3, Seq::empty(), false, 0),
        StepAction::MoveToOutput => (4, Seq::empty(), false, 0),
        StepAction::Detect => (5, Seq::empty(), false, 0),
        StepAction::PlanAndExecute => (6, Seq::empty(), false, 0),
        StepAction::Validate => (7, Seq::empty(), false, 0),
        StepAction::Report => (8, Seq::empty(), false, 0),
        StepAction::Finish { failed } => (9, Seq::empty(), false, failed as int),
        StepAction::Ignore => (10, Seq::empty(), false, 0),
    }
}

/// The next state and action of a run: check, unpack or copy, move, detect,
/// plan and execute, validate, report, finish; a failed file step aborts, a
/// refused project stops; an event that does not fit the state changes nothing.
pub open spec fn step_of(s: RunState, e: StepEvent) -> (RunState, (int, Seq<char>, bool, int)) {
    match e {
        StepEvent::Failed { message } => (RunState::Done, (1, message@, false, 0)),
        StepEvent::Begin { validation, output_dir, zip } => if s == RunState::Start {
            match precheck_error(match validation { Some(v) => Some(v@), None => None }, output_dir@) {
                Some(m) => (RunState::Done, (0, m, false, 0)),
                None => (RunState::Preparing, (if zip { 2 } else { 3 }, Seq::empty(), false, 0)),
            }
        } else {
            (s, (10, Seq::empty(), false, 0))
        },
        StepEvent::Prepared => if s == RunState::Preparing {
            (RunState::Moving, (4, Seq::empty(), false, 0))
        } else {
            (s, (10, Seq::empty(), false, 0))
        },
        StepEvent::Moved => if s == RunState::Moving {
            (RunState::Detecting, (5, Seq::empty(), false, 0))
        } else {
            (s, (10, Seq::empty(), false, 0))
        },
        StepEvent::Detected { refusal } => if s == RunState::Detecting {
            match refusal {
                Some(m) => (RunState::Done, (0, m@, true, 0)),
                None => (RunState::Running, (6, Seq::empty(), false, 0)),
            }
        } else {
            (s, (10, Seq::empty(), false, 0))
        },
        StepEvent::Executed { failed } => if s == RunState::Running {
            (RunState::Checking { failed }, (7, Seq::empty(), false, 0))
        } else {
            (s, (10, Seq::empty(), false, 0))
        },
        StepEvent::Checked => match s {
            RunState::Checking { failed } => (RunState::Reporting { failed }, (8, Seq::empty(), false, 0)),
            _ => (s, (10, Seq::empty(), false, 0)),
        },
        StepEvent::Reported => match s {
            RunState::Reporting { failed } => (RunState::Done, (9, Seq::empty(), false, failed as int)),
            _ => (s, (10, Seq::empty(), false, 0)),
        },
    }
}

/// The next state and action of a run (see `step_of`).
pub fn next_step(state: &RunState, event: &StepEvent) -> (r: (RunState, StepAction))
    ensures
        (r.0, action_view(r.1)) == step_of(*state, *event),
{
    match event {
        StepEvent::Failed { message } => (RunState::Done, StepAction::Abort { message: String::from_str(message.as_str()) }),
        StepEvent::Begin { validation, output_dir, zip } => match state {
            RunState::Start => {
                let v = match validation {
                    Some(x) => Some(x.as_str()),
                    None => None,
                };
                match run_precheck(v, output_dir.as_str()) {
                    Some(m) => (RunState::Done, StepAction::Stop { message: m, at_output: false }),
                    None => (RunState::Preparing, if *zip { StepAction::Extract } else { StepAction::Copy }),
                }
            },
            _ => (*state, StepAction::Ignore),
        },
        StepEvent::Prepared => match state {
            RunState::Preparing => (RunState::Moving, StepAction::MoveToOutput),
            _ => (*state, StepAction::Ignore),
        },
        StepEvent::Moved => match state {
            RunState::Moving => (RunState::Detecting, StepAction::Detect),
            _ => (*state, StepAction::Ignore),
        },
        StepEvent::Detected { refusal } => match state {
            RunState::Detecting => match refusal {
                Some(m) => (RunState::Done, StepAction::Stop { message: String::from_str(m.as_str()), at_output: true }),
                None => (RunState::Running, StepAction::PlanAndExecute),
            },
            _ => (*state, StepAction::Ignore),
        },
        StepEvent::Executed { failed } => match state {
            RunState::Running => (RunState::Checking { failed: *failed }, StepAction::Validate),
            _ => (*state, StepAction::Ignore),
        },
        StepEvent::Checked => match state {
            RunState::Checking { failed } => (RunState::Reporting { failed: *failed }, StepAction::Report),
            _ => (*state, StepAction::Ignore),
        },
        StepEvent::Reported => match state {
            RunState::Reporting { failed } => (RunState::Done, StepAction::Finish { failed: *failed }),
            _ => (*state, StepAction::Ignore),
        },
    }
}

// ---------------------------------------------------------------------------
// After the run
// ---------------------------------------------------------------------------

/// The closing message of a run with `failed` failed tasks whose result is at `root`.
pub open spec fn finish_message(failed: nat, root: Seq<char>) -> Seq<char> {
    if failed == 0 {
        "改造完成，输出目录："@ + root
    } else {
        "改造完成但有 "@ + crate::text::decimal(failed) + " 个任务失败，详见报告"@
    }
}

/// The closing event of a run: `SUCCESS` when no task failed, else `WARN`,
/// with the closing message.
pub fn finish_event(failed: usize, root: &str) -> (r: LogEvent)
    ensures
        r.level@ == (if failed == 0 { "SUCCESS"@ } else { "WARN"@ }),
        r.message@ == finish_message(failed as nat, root@),
{
    let mut m: Vec<char> = Vec::new();
    if failed == 0 {
        crate::text::extend_str(&mut m, "改造完成，输出目录：");
        crate::text::extend_str(&mut m, root);
        LogEvent::success(crate::text::string_of(&m))
    } else {
        crate::text::extend_str(&mut m, "改造完成但有 ");
        crate::text::push_decimal(&mut m, failed as u64);
        crate::text::extend_str(&mut m, " 个任务失败，详见报告");
        LogEvent::warn(crate::text::string_of(&m))
    }
}

/// How many results failed.
pub open spec fn failed_in(rs: Seq<crate::task::TaskResult>) -> nat
    decreases rs.len(),
{
    if rs.len() == 0 {
        0
    } else {
        failed_in(rs.drop_last()) + (if rs.last().status == crate::task::TaskStatus::Failed { 1nat } else { 0nat })
    }
}

/// How many task results failed.
pub fn failed_count(results: &Vec<crate::task::TaskResult>) -> (r: usize)
    ensures
        r == failed_in(results@),
{
    let mut n: usize = 0;
    let mut i: usize = 0;
    while i < results.len()
        invariant
            i <= results.len(),
            n == failed_in(results@.take(i as int)),
            n <= i,
        decreases results.len() - i,
    {
        assert(results@.take(i + 1).drop_last() =~= results@.take(i as int));
        if matches!(results[i].status, crate::task::TaskStatus::Failed) {
            n = n + 1;
        }
        i = i + 1;
    }
    assert(results@.take(results.len() as int) =~= results@);
    n
}

} // verus!
