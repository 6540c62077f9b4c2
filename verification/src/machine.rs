use vstd::prelude::*;
use crate::creds::Credentials;
use crate::creds::spec_creds_view;
use crate::creds::spec_opt_view;
use crate::creds::spec_resolve3;
use crate::creds::spec_resolve_entries;
use crate::creds::resolve_from_entries;
use crate::creds::resolve_from_values;
use crate::envfile::spec_parse;
use crate::envfile::parse_env_file;
use crate::errors::ErrorClass;
use crate::errors::RunError;
use crate::errors::error_message;
use crate::errors::detail_message;
use crate::errors::connected_message;
use crate::errors::version_message;
use crate::errors::version_warning;
use crate::errors::exit_code;
use crate::errors::spec_exit_code;
use crate::errors::spec_msg_detail;
use crate::errors::spec_msg_query_file_read;
use crate::errors::spec_msg_config_file_read;
use crate::errors::spec_msg_config_parse;
use crate::errors::spec_msg_missing_var;
use crate::errors::spec_msg_connected;
use crate::errors::spec_msg_version;
use crate::errors::spec_msg_version_warning;
use crate::format::spec_join;
use crate::format::spec_output_lines;
use crate::format::join_fields;

verus! {

/// Where a run stands between two pieces of outside work. Each state
/// waits for the answer to the action the machine last asked for.
pub enum State {
    /// The query file is being read.
    AwaitQuery { query_path: String, config_path: Option<String> },
    /// The env-file named by the config option is being read.
    AwaitConfig { query: String },
    /// The three credential variables are being read from the ambient
    /// process environment.
    AwaitEnv { query: String },
    /// The session is being opened.
    AwaitConnect { query: String },
    /// The client driver version is being looked up.
    AwaitVersion { query: String },
    /// The statement is being prepared from the query text.
    AwaitPrepare,
    /// The prepared statement is being executed.
    AwaitExecute,
    /// Rows are being fetched one at a time, in cursor order.
    Streaming,
    /// The connection is being closed.
    AwaitClose,
    /// The run is over; the process exits with this code.
    Done { code: u8 },
    /// The run hit a fault it does not map to an exit code: the process
    /// aborts.
    Aborted,
}

/// The answer to one piece of outside work, handed back to the machine.
/// Every `Err` carries the failing operation's own diagnostic text.
pub enum Event {
    /// A file was read — the query file or the env-file, whichever the
    /// machine asked for.
    FileRead(Result<String, String>),
    /// The three credential variables as the ambient process
    /// environment holds them.
    EnvRead { user: Option<String>, password: Option<String>, address: Option<String> },
    /// The attempt to open the session.
    ConnectDone(Result<(), String>),
    /// The attempt to read the client driver version.
    VersionDone(Result<String, String>),
    /// The attempt to prepare the statement.
    PrepareDone(Result<(), String>),
    /// The attempt to execute the statement; success carries the column
    /// names in cursor order.
    ExecuteDone(Result<Vec<String>, String>),
    /// The next row's values in column order, `Ok(None)` once the cursor
    /// is exhausted — an irreversible transition — and `Err` for a row
    /// whose values could not be materialized.
    RowRead(Result<Option<Vec<String>>, String>),
    /// The attempt to close the connection.
    CloseDone(Result<(), String>),
}

/// The one piece of outside work the machine asks for next.
pub enum Action {
    ReadQueryFile { path: String },
    ReadConfigFile { path: String },
    ReadEnvironment,
    Connect { creds: Credentials },
    QueryClientVersion,
    Prepare { query: String },
    Execute,
    NextRow,
    Close,
    Exit { code: u8 },
    Abort,
}

/// What one step of the machine hands back: at most one line for each
/// output stream, and the next action.
pub struct StepOut {
    pub stdout_line: Option<String>,
    pub stderr_line: Option<String>,
    pub action: Action,
}

/// The view of a state: the same shape over character sequences.
pub enum StateV {
    AwaitQuery { query_path: Seq<char>, config_path: Option<Seq<char>> },
    AwaitConfig { query: Seq<char> },
    AwaitEnv { query: Seq<char> },
    AwaitConnect { query: Seq<char> },
    AwaitVersion { query: Seq<char> },
    AwaitPrepare,
    AwaitExecute,
    Streaming,
    AwaitClose,
    Done { code: u8 },
    Aborted,
}

/// The view of an event.
pub enum EventV {
    FileRead(Result<Seq<char>, Seq<char>>),
    EnvRead {
        user: Option<Seq<char>>,
        password: Option<Seq<char>>,
        address: Option<Seq<char>>,
    },
    ConnectDone(Result<(), Seq<char>>),
    VersionDone(Result<Seq<char>, Seq<char>>),
    PrepareDone(Result<(), Seq<char>>),
    ExecuteDone(Result<Seq<Seq<char>>, Seq<char>>),
    RowRead(Result<Option<Seq<Seq<char>>>, Seq<char>>),
    CloseDone(Result<(), Seq<char>>),
}

/// The view of an action.
pub enum ActionV {
    ReadQueryFile { path: Seq<char> },
    ReadConfigFile { path: Seq<char> },
    ReadEnvironment,
    Connect { creds: (Seq<char>, Seq<char>, Seq<char>) },
    QueryClientVersion,
    Prepare { query: Seq<char> },
    Execute,
    NextRow,
    Close,
    Exit { code: u8 },
    Abort,
}

/// The view of a step's outcome.
pub struct StepOutV {
    pub stdout_line: Option<Seq<char>>,
    pub stderr_line: Option<Seq<char>>,
    pub action: ActionV,
}

impl View for State {
    type V = StateV;

    open spec fn view(&self) -> StateV {
        match self {
            State::AwaitQuery { query_path, config_path } => StateV::AwaitQuery {
                query_path: query_path@,
                config_path: spec_opt_view(*config_path),
            },
            State::AwaitConfig { query } => StateV::AwaitConfig { query: query@ },
            State::AwaitEnv { query } => StateV::AwaitEnv { query: query@ },
            State::AwaitConnect { query } => StateV::AwaitConnect { query: query@ },
            State::AwaitVersion { query } => StateV::AwaitVersion { query: query@ },
            State::AwaitPrepare => StateV::AwaitPrepare,
            State::AwaitExecute => StateV::AwaitExecute,
            State::Streaming => StateV::Streaming,
            State::AwaitClose => StateV::AwaitClose,
            State::Done { code } => StateV::Done { code: *code },
            State::Aborted => StateV::Aborted,
        }
    }
}

/// The view of a read or attempted operation's answer.
pub open spec fn spec_res_view(r: Result<String, String>) -> Result<Seq<char>, Seq<char>> {
    match r {
        Ok(s) => Ok(s@),
        Err(s) => Err(s@),
    }
}

/// The view of an attempted operation's answer that carries no value.
pub open spec fn spec_unit_res_view(r: Result<(), String>) -> Result<(), Seq<char>> {
    match r {
        Ok(u) => Ok(u),
        Err(s) => Err(s@),
    }
}

/// The view of a list of field texts.
pub open spec fn spec_fields_view(v: Seq<String>) -> Seq<Seq<char>> {
    v.map_values(|f: String| f@)
}

impl View for Event {
    type V = EventV;

    open spec fn view(&self) -> EventV {
        match self {
            Event::FileRead(r) => EventV::FileRead(spec_res_view(*r)),
            Event::EnvRead { user, password, address } => EventV::EnvRead {
                user: spec_opt_view(*user),
                password: spec_opt_view(*password),
                address: spec_opt_view(*address),
            },
            Event::ConnectDone(r) => EventV::ConnectDone(spec_unit_res_view(*r)),
            Event::VersionDone(r) => EventV::VersionDone(spec_res_view(*r)),
            Event::PrepareDone(r) => EventV::PrepareDone(spec_unit_res_view(*r)),
            Event::ExecuteDone(r) => EventV::ExecuteDone(
                match r {
                    Ok(names) => Ok(spec_fields_view(names@)),
                    Err(s) => Err(s@),
                },
            ),
            Event::RowRead(r) => EventV::RowRead(
                match r {
                    Ok(Some(vals)) => Ok(Some(spec_fields_view(vals@))),
                    Ok(None) => Ok(None),
                    Err(s) => Err(s@),
                },
            ),
            Event::CloseDone(r) => EventV::CloseDone(spec_unit_res_view(*r)),
        }
    }
}

impl View for Action {
    type V = ActionV;

    open spec fn view(&self) -> ActionV {
        match self {
            Action::ReadQueryFile { path } => ActionV::ReadQueryFile { path: path@ },
            Action::ReadConfigFile { path } => ActionV::ReadConfigFile { path: path@ },
            Action::ReadEnvironment => ActionV::ReadEnvironment,
            Action::Connect { creds } => ActionV::Connect { creds: spec_creds_view(creds) },
            Action::QueryClientVersion => ActionV::QueryClientVersion,
            Action::Prepare { query } => ActionV::Prepare { query: query@ },
            Action::Execute => ActionV::Execute,
            Action::NextRow => ActionV::NextRow,
            Action::Close => ActionV::Close,
            Action::Exit { code } => ActionV::Exit { code: *code },
            Action::Abort => ActionV::Abort,
        }
    }
}

impl View for StepOut {
    type V = StepOutV;

    open spec fn view(&self) -> StepOutV {
        StepOutV {
            stdout_line: match self.stdout_line {
                Some(ref s) => Some(s@),
                None => None,
            },
            stderr_line: match self.stderr_line {
                Some(ref s) => Some(s@),
                None => None,
            },
            action: self.action@,
        }
    }
}

/// A step's outcome, in one term.
pub open spec fn spec_out(
    stdout_line: Option<Seq<char>>,
    stderr_line: Option<Seq<char>>,
    action: ActionV,
) -> StepOutV {
    StepOutV { stdout_line, stderr_line, action }
}

/// The run ends here: the diagnostic line and the exit action of a
/// failure class.
pub open spec fn spec_fail(message: Seq<char>, class: ErrorClass) -> (StateV, StepOutV) {
    (
        StateV::Done { code: spec_exit_code(class) },
        spec_out(None, Some(message), ActionV::Exit { code: spec_exit_code(class) }),
    )
}

/// The whole control flow of a run, one step at a time: what the machine
/// answers, asks for next, and prints, for every state and every event.
/// An event that answers something the state never asked for aborts the
/// run.
pub open spec fn spec_step(s: StateV, e: EventV) -> (StateV, StepOutV) {
    match (s, e) {
        (StateV::AwaitQuery { query_path, config_path }, EventV::FileRead(res)) => match res {
            Err(detail) => spec_fail(
                spec_msg_query_file_read(query_path, detail),
                ErrorClass::UsageOrIo,
            ),
            Ok(query) => match config_path {
                Some(path) => (
                    StateV::AwaitConfig { query },
                    spec_out(None, None, ActionV::ReadConfigFile { path }),
                ),
                None => (
                    StateV::AwaitEnv { query },
                    spec_out(None, None, ActionV::ReadEnvironment),
                ),
            },
        },
        (StateV::AwaitConfig { query }, EventV::FileRead(res)) => match res {
            Err(detail) => spec_fail(spec_msg_config_file_read(detail), ErrorClass::Config),
            Ok(text) => match spec_parse(text) {
                None => spec_fail(spec_msg_config_parse(), ErrorClass::Config),
                Some(entries) => match spec_resolve_entries(entries) {
                    Err(name) => spec_fail(spec_msg_missing_var(name), ErrorClass::Config),
                    Ok(creds) => (
                        StateV::AwaitConnect { query },
                        spec_out(None, None, ActionV::Connect { creds }),
                    ),
                },
            },
        },
        (StateV::AwaitEnv { query }, EventV::EnvRead { user, password, address }) => match
        spec_resolve3(user, password, address) {
            Err(name) => spec_fail(spec_msg_missing_var(name), ErrorClass::Config),
            Ok(creds) => (
                StateV::AwaitConnect { query },
                spec_out(None, None, ActionV::Connect { creds }),
            ),
        },
        (StateV::AwaitConnect { query }, EventV::ConnectDone(res)) => match res {
            Err(detail) => spec_fail(spec_msg_detail(detail), ErrorClass::Connectivity),
            Ok(_) => (
                StateV::AwaitVersion { query },
                spec_out(None, Some(spec_msg_connected()), ActionV::QueryClientVersion),
            ),
        },
        (StateV::AwaitVersion { query }, EventV::VersionDone(res)) => match res {
            Ok(version) => (
                StateV::AwaitPrepare,
                spec_out(None, Some(spec_msg_version(version)), ActionV::Prepare { query }),
            ),
            Err(detail) => (
                StateV::AwaitPrepare,
                spec_out(
                    None,
                    Some(spec_msg_version_warning(detail)),
                    ActionV::Prepare { query },
                ),
            ),
        },
        (StateV::AwaitPrepare, EventV::PrepareDone(res)) => match res {
            Err(detail) => spec_fail(spec_msg_detail(detail), ErrorClass::Query),
            Ok(_) => (StateV::AwaitExecute, spec_out(None, None, ActionV::Execute)),
        },
        (StateV::AwaitExecute, EventV::ExecuteDone(res)) => match res {
            Err(detail) => spec_fail(spec_msg_detail(detail), ErrorClass::Query),
            Ok(names) => (
                StateV::Streaming,
                spec_out(Some(spec_join(names)), None, ActionV::NextRow),
            ),
        },
        (StateV::Streaming, EventV::RowRead(res)) => match res {
            Err(detail) => (
                StateV::Aborted,
                spec_out(None, Some(spec_msg_detail(detail)), ActionV::Abort),
            ),
            Ok(None) => (StateV::AwaitClose, spec_out(None, None, ActionV::Close)),
            Ok(Some(vals)) => (
                StateV::Streaming,
                spec_out(Some(spec_join(vals)), None, ActionV::NextRow),
            ),
        },
        (StateV::AwaitClose, EventV::CloseDone(res)) => match res {
            Err(detail) => (
                StateV::Aborted,
                spec_out(None, Some(spec_msg_detail(detail)), ActionV::Abort),
            ),
            Ok(_) => (
                StateV::Done { code: 0 },
                spec_out(None, None, ActionV::Exit { code: 0 }),
            ),
        },
        _ => (StateV::Aborted, spec_out(None, None, ActionV::Abort)),
    }
}

/// Opens a run: the machine first asks for the query file, whose path
/// came from the command line.
pub fn start(query_path: String, config_path: Option<String>) -> (r: (State, Action))
    ensures
        r.0@ == (StateV::AwaitQuery {
            query_path: query_path@,
            config_path: spec_opt_view(config_path),
        }),
        r.1@ == (ActionV::ReadQueryFile { path: query_path@ }),
{
    let action = Action::ReadQueryFile { path: query_path.clone() };
    (State::AwaitQuery { query_path, config_path }, action)
}

/// Drives the run one step: answers the event that the outside work
/// produced with the next state, the next action, and at most one line
/// for each output stream — exactly as `spec_step` says.
pub fn step(state: State, event: Event) -> (r: (State, StepOut))
    ensures
        (r.0@, r.1@) == spec_step(state@, event@),
{
    match (state, event) {
        (State::AwaitQuery { query_path, config_path }, Event::FileRead(res)) => match res {
            Err(detail) => fail_step(RunError::QueryFileRead { path: query_path, detail }),
            Ok(query) => match config_path {
                Some(path) => (
                    State::AwaitConfig { query },
                    StepOut {
                        stdout_line: None,
                        stderr_line: None,
                        action: Action::ReadConfigFile { path },
                    },
                ),
                None => (
                    State::AwaitEnv { query },
                    StepOut {
                        stdout_line: None,
                        stderr_line: None,
                        action: Action::ReadEnvironment,
                    },
                ),
            },
        },
        (State::AwaitConfig { query }, Event::FileRead(res)) => match res {
            Err(detail) => fail_step(RunError::ConfigFileRead { detail }),
            Ok(text) => match parse_env_file(text.as_str()) {
                None => fail_step(RunError::ConfigParse),
                Some(entries) => {
                    match resolve_from_entries(&entries) {
                        Err(name) => fail_step(RunError::MissingVar { name }),
                        Ok(creds) => (
                            State::AwaitConnect { query },
                            StepOut {
                                stdout_line: None,
                                stderr_line: None,
                                action: Action::Connect { creds },
                            },
                        ),
                    }
                },
            },
        },
        (State::AwaitEnv { query }, Event::EnvRead { user, password, address }) => match
        resolve_from_values(user, password, address) {
            Err(name) => fail_step(RunError::MissingVar { name }),
            Ok(creds) => (
                State::AwaitConnect { query },
                StepOut {
                    stdout_line: None,
                    stderr_line: None,
                    action: Action::Connect { creds },
                },
            ),
        },
        (State::AwaitConnect { query }, Event::ConnectDone(res)) => match res {
            Err(detail) => fail_step(RunError::Connect { detail }),
            Ok(_) => (
                State::AwaitVersion { query },
                StepOut {
                    stdout_line: None,
                    stderr_line: Some(connected_message()),
                    action: Action::QueryClientVersion,
                },
            ),
        },
        (State::AwaitVersion { query }, Event::VersionDone(res)) => match res {
            Ok(version) => (
                State::AwaitPrepare,
                StepOut {
                    stdout_line: None,
                    stderr_line: Some(version_message(version.as_str())),
                    action: Action::Prepare { query },
                },
            ),
            Err(detail) => (
                State::AwaitPrepare,
                StepOut {
                    stdout_line: None,
                    stderr_line: Some(version_warning(detail.as_str())),
                    action: Action::Prepare { query },
                },
            ),
        },
        (State::AwaitPrepare, Event::PrepareDone(res)) => match res {
            Err(detail) => fail_step(RunError::Prepare { detail }),
            Ok(_) => (
                State::AwaitExecute,
                StepOut { stdout_line: None, stderr_line: None, action: Action::Execute },
            ),
        },
        (State::AwaitExecute, Event::ExecuteDone(res)) => match res {
            Err(detail) => fail_step(RunError::Execute { detail }),
            Ok(names) => {
                let line = join_fields(&names);
                (
                    State::Streaming,
                    StepOut {
                        stdout_line: Some(line),
                        stderr_line: None,
                        action: Action::NextRow,
                    },
                )
            },
        },
        (State::Streaming, Event::RowRead(res)) => match res {
            Err(detail) => (
                State::Aborted,
                StepOut {
                    stdout_line: None,
                    stderr_line: Some(detail_message(detail.as_str())),
                    action: Action::Abort,
                },
            ),
            Ok(None) => (
                State::AwaitClose,
                StepOut { stdout_line: None, stderr_line: None, action: Action::Close },
            ),
            Ok(Some(vals)) => {
                let line = join_fields(&vals);
                (
                    State::Streaming,
                    StepOut {
                        stdout_line: Some(line),
                        stderr_line: None,
                        action: Action::NextRow,
                    },
                )
            },
        },
        (State::AwaitClose, Event::CloseDone(res)) => match res {
            Err(detail) => (
                State::Aborted,
                StepOut {
                    stdout_line: None,
                    stderr_line: Some(detail_message(detail.as_str())),
                    action: Action::Abort,
                },
            ),
            Ok(_) => (
                State::Done { code: 0 },
                StepOut {
                    stdout_line: None,
                    stderr_line: None,
                    action: Action::Exit { code: 0 },
                },
            ),
        },
        (_, _) => (
            State::Aborted,
            StepOut { stdout_line: None, stderr_line: None, action: Action::Abort },
        ),
    }
}

/// Ends the run on an error: its diagnostic line, its exit action, and
/// the final state.
fn fail_step(e: RunError) -> (r: (State, StepOut))
    ensures
        r.0@ == (StateV::Done { code: spec_exit_code(crate::errors::spec_class(&e)) }),
        r.1@ == spec_out(
            None,
            Some(crate::errors::spec_error_message(&e)),
            ActionV::Exit { code: spec_exit_code(crate::errors::spec_class(&e)) },
        ),
{
    let code = exit_code(&e);
    let message = error_message(&e);
    (
        State::Done { code },
        StepOut { stdout_line: None, stderr_line: Some(message), action: Action::Exit { code } },
    )
}

/// Standard output is touched only while the result set streams: the
/// only steps that emit a stdout line are the header step, taken in
/// answer to a successful execution, and the row steps. Every run that
/// fails before its statement executes therefore prints no result line
/// at all.
pub proof fn lemma_stdout_only_while_streaming(s: StateV, e: EventV)
    ensures
        spec_step(s, e).1.stdout_line is Some ==> (s is AwaitExecute || s is Streaming),
{
}

/// A connection is asked for only from the two credential-loading
/// states, and only once resolution has succeeded there: no step ever
/// asks to connect out of a failed or unfinished credential load.
pub proof fn lemma_connect_needs_credentials(s: StateV, e: EventV)
    ensures
        spec_step(s, e).1.action is Connect ==> (s is AwaitConfig || s is AwaitEnv),
{
}

/// An unreadable query file ends the run at once: the I/O exit code,
/// one diagnostic line, no line of standard output, and no further
/// action than exiting.
pub proof fn lemma_query_read_failure_stops_run(
    query_path: Seq<char>,
    config_path: Option<Seq<char>>,
    detail: Seq<char>,
)
    ensures
        spec_step(
            StateV::AwaitQuery { query_path, config_path },
            EventV::FileRead(Err(detail)),
        ) == spec_fail(spec_msg_query_file_read(query_path, detail), ErrorClass::UsageOrIo),
        spec_exit_code(ErrorClass::UsageOrIo) == 1,
{
}

/// An unreadable env-file ends the run at once with the configuration
/// exit code; in particular the step's action is to exit, so no
/// connection is ever attempted in that run.
pub proof fn lemma_config_read_failure_stops_run(query: Seq<char>, detail: Seq<char>)
    ensures
        spec_step(StateV::AwaitConfig { query }, EventV::FileRead(Err(detail))) == spec_fail(
            spec_msg_config_file_read(detail),
            ErrorClass::Config,
        ),
        spec_exit_code(ErrorClass::Config) == 3,
{
}

/// A credential variable left unset by ambient credential loading ends
/// the run at once: the configuration exit code, a diagnostic naming the
/// first absent variable, and no connection attempt.
pub proof fn lemma_missing_var_stops_run(
    query: Seq<char>,
    user: Option<Seq<char>>,
    password: Option<Seq<char>>,
    address: Option<Seq<char>>,
    name: crate::errors::VarName,
)
    requires
        spec_resolve3(user, password, address) == Err::<
            (Seq<char>, Seq<char>, Seq<char>),
            crate::errors::VarName,
        >(name),
    ensures
        spec_step(
            StateV::AwaitEnv { query },
            EventV::EnvRead { user, password, address },
        ) == spec_fail(spec_msg_missing_var(name), ErrorClass::Config),
{
}

/// An env-file that leaves a credential variable unset ends the run the
/// same way, however the file was otherwise formed.
pub proof fn lemma_missing_var_in_config_stops_run(
    query: Seq<char>,
    text: Seq<char>,
    entries: Seq<(Seq<char>, Seq<char>)>,
    name: crate::errors::VarName,
)
    requires
        spec_parse(text) == Some(entries),
        spec_resolve_entries(entries) == Err::<
            (Seq<char>, Seq<char>, Seq<char>),
            crate::errors::VarName,
        >(name),
    ensures
        spec_step(StateV::AwaitConfig { query }, EventV::FileRead(Ok(text))) == spec_fail(
            spec_msg_missing_var(name),
            ErrorClass::Config,
        ),
{
}

/// The credentials a config-run connects with come from the env-file's
/// assignments alone: once the file is read, the step that asks to
/// connect carries exactly what resolving the file's assignments gives,
/// and nothing of the ambient environment — which this step never even
/// sees — can reach it.
pub proof fn lemma_config_credentials_come_from_file(
    query: Seq<char>,
    text: Seq<char>,
    entries: Seq<(Seq<char>, Seq<char>)>,
    creds: (Seq<char>, Seq<char>, Seq<char>),
)
    requires
        spec_parse(text) == Some(entries),
        spec_resolve_entries(entries) == Ok::<
            (Seq<char>, Seq<char>, Seq<char>),
            crate::errors::VarName,
        >(creds),
    ensures
        spec_step(StateV::AwaitConfig { query }, EventV::FileRead(Ok(text))).1.action == (
        ActionV::Connect { creds }),
        spec_step(StateV::AwaitConfig { query }, EventV::FileRead(Ok(text))).0 == (
        StateV::AwaitConnect { query }),
{
}

/// A statement that fails to prepare or to execute ends the run with the
/// query exit code and without a line of standard output.
pub proof fn lemma_query_failure_stops_run(detail: Seq<char>)
    ensures
        spec_step(StateV::AwaitPrepare, EventV::PrepareDone(Err(detail))) == spec_fail(
            spec_msg_detail(detail),
            ErrorClass::Query,
        ),
        spec_step(StateV::AwaitExecute, EventV::ExecuteDone(Err(detail))) == spec_fail(
            spec_msg_detail(detail),
            ErrorClass::Query,
        ),
        spec_exit_code(ErrorClass::Query) == 4,
{
}

/// The cursor is forward-only and never rewound: the only steps that
/// leave the machine streaming are the one that opens the stream after
/// a successful execution and the row steps themselves. Once the cursor
/// reports itself exhausted — or anything else ends the stream — no
/// step of that run streams again.
pub proof fn lemma_stream_never_restarts(s: StateV, e: EventV)
    ensures
        spec_step(s, e).0 is Streaming ==> ((s is AwaitExecute) || (s is Streaming
            && e matches EventV::RowRead(Ok(Some(_))))),
{
}

/// A finished run stays finished: out of the final states no step
/// prints, and nothing but an abort can follow.
pub proof fn lemma_done_is_final(s: StateV, e: EventV)
    requires
        s is Done || s is Aborted,
    ensures
        spec_step(s, e).1.stdout_line is None,
        spec_step(s, e).1.stderr_line is None,
        spec_step(s, e).0 is Aborted,
{
}

/// Everything a whole run leaves behind: where it ended, the lines it
/// printed to each stream in order, and the actions it asked for.
pub struct RunV {
    pub state: StateV,
    pub stdout: Seq<Seq<char>>,
    pub stderr: Seq<Seq<char>>,
    pub actions: Seq<ActionV>,
}

/// A step's optional output line as a sequence of zero or one lines.
pub open spec fn spec_opt_line(o: Option<Seq<char>>) -> Seq<Seq<char>> {
    match o {
        None => Seq::empty(),
        Some(line) => seq![line],
    }
}

/// A whole run: the machine stepped over a sequence of events, its
/// printed lines and its actions collected in order.
pub open spec fn spec_run(s: StateV, events: Seq<EventV>) -> RunV
    decreases events.len(),
{
    if events.len() == 0 {
        RunV { state: s, stdout: Seq::empty(), stderr: Seq::empty(), actions: Seq::empty() }
    } else {
        let first = spec_step(s, events[0]);
        let rest = spec_run(first.0, events.drop_first());
        RunV {
            state: rest.state,
            stdout: spec_opt_line(first.1.stdout_line) + rest.stdout,
            stderr: spec_opt_line(first.1.stderr_line) + rest.stderr,
            actions: seq![first.1.action] + rest.actions,
        }
    }
}

/// Out of a final state a run stays silent, whatever else happens:
/// nothing is printed on either stream and every further step only
/// aborts.
pub proof fn lemma_final_runs_stay_silent(s: StateV, events: Seq<EventV>)
    requires
        s is Done || s is Aborted,
    ensures
        spec_run(s, events).stdout =~= Seq::<Seq<char>>::empty(),
        spec_run(s, events).stderr =~= Seq::<Seq<char>>::empty(),
        forall|i: int|
            0 <= i < spec_run(s, events).actions.len() ==> spec_run(
                s,
                events,
            ).actions[i] is Abort,
    decreases events.len(),
{
    if events.len() > 0 {
        lemma_done_is_final(s, events[0]);
        lemma_final_runs_stay_silent(spec_step(s, events[0]).0, events.drop_first());
    }
}

/// For every run whose query file cannot be read, nothing at all reaches
/// standard output — whatever events follow — and the first step already
/// exits with the I/O code.
pub proof fn lemma_query_read_failure_run(
    query_path: Seq<char>,
    config_path: Option<Seq<char>>,
    detail: Seq<char>,
    rest: Seq<EventV>,
)
    ensures
        ({
            let events = seq![EventV::FileRead(Err(detail))] + rest;
            let run = spec_run(StateV::AwaitQuery { query_path, config_path }, events);
            &&& run.stdout =~= Seq::<Seq<char>>::empty()
            &&& run.actions[0] == (ActionV::Exit {
                code: spec_exit_code(ErrorClass::UsageOrIo),
            })
            &&& run.stderr =~= seq![spec_msg_query_file_read(query_path, detail)]
        }),
{
    let events = seq![EventV::FileRead(Err(detail))] + rest;
    assert(events[0] == EventV::FileRead(Err::<Seq<char>, Seq<char>>(detail)));
    assert(events.drop_first() =~= rest);
    let first = spec_step(StateV::AwaitQuery { query_path, config_path }, events[0]);
    lemma_final_runs_stay_silent(first.0, rest);
}

/// For every run where a credential variable is absent after ambient
/// credential loading, the run stops with the configuration exit code
/// before any connection: no step of it ever asks to connect, and no
/// row reaches standard output — whatever events follow.
pub proof fn lemma_missing_var_run(
    query_path: Seq<char>,
    query: Seq<char>,
    user: Option<Seq<char>>,
    password: Option<Seq<char>>,
    address: Option<Seq<char>>,
    name: crate::errors::VarName,
    rest: Seq<EventV>,
)
    requires
        spec_resolve3(user, password, address) == Err::<
            (Seq<char>, Seq<char>, Seq<char>),
            crate::errors::VarName,
        >(name),
    ensures
        ({
            let events = seq![
                EventV::FileRead(Ok(query)),
                EventV::EnvRead { user, password, address },
            ] + rest;
            let run = spec_run(
                StateV::AwaitQuery { query_path, config_path: None },
                events,
            );
            &&& run.stdout =~= Seq::<Seq<char>>::empty()
            &&& run.actions[1] == (ActionV::Exit { code: spec_exit_code(ErrorClass::Config) })
            &&& forall|i: int| 0 <= i < run.actions.len() ==> !(run.actions[i] is Connect)
        }),
{
    let s0 = StateV::AwaitQuery { query_path, config_path: None };
    let e0 = EventV::FileRead(Ok::<Seq<char>, Seq<char>>(query));
    let e1 = EventV::EnvRead { user, password, address };
    let events = seq![e0, e1] + rest;
    assert(events[0] == e0);
    let tail1 = events.drop_first();
    assert(tail1 =~= seq![e1] + rest);
    assert(tail1[0] == e1);
    assert(tail1.drop_first() =~= rest);
    let st1 = spec_step(s0, e0);
    let s1 = st1.0;
    assert(s1 == (StateV::AwaitEnv { query }));
    let st2 = spec_step(s1, e1);
    let s2 = st2.0;
    lemma_final_runs_stay_silent(s2, rest);
    let run2 = spec_run(s2, rest);
    let run1 = spec_run(s1, tail1);
    assert(run1.stdout == spec_opt_line(st2.1.stdout_line) + run2.stdout);
    assert(run1.actions == seq![st2.1.action] + run2.actions);
    let run = spec_run(s0, events);
    assert(run.stdout == spec_opt_line(st1.1.stdout_line) + run1.stdout);
    assert(run.actions == seq![st1.1.action] + run1.actions);
    assert(st2.1.action == (ActionV::Exit { code: spec_exit_code(ErrorClass::Config) }));
    assert(run.actions[1] == run1.actions[0]);
    assert forall|i: int| 0 <= i < run.actions.len() implies !(run.actions[i] is Connect) by {
        if i >= 1 {
            assert(run.actions[i] == run1.actions[i - 1]);
            if i >= 2 {
                assert(run1.actions[i - 1] == run2.actions[i - 2]);
            }
        }
    }
    assert(run.stdout =~= Seq::<Seq<char>>::empty());
}

/// For every run whose config option names an unreadable env-file, the
/// run stops with the configuration exit code, never asks to connect,
/// and prints no row — whatever events follow.
pub proof fn lemma_config_read_failure_run(
    query_path: Seq<char>,
    config_path: Seq<char>,
    query: Seq<char>,
    detail: Seq<char>,
    rest: Seq<EventV>,
)
    ensures
        ({
            let events = seq![EventV::FileRead(Ok(query)), EventV::FileRead(Err(detail))]
                + rest;
            let run = spec_run(
                StateV::AwaitQuery { query_path, config_path: Some(config_path) },
                events,
            );
            &&& run.stdout =~= Seq::<Seq<char>>::empty()
            &&& run.actions[0] == (ActionV::ReadConfigFile { path: config_path })
            &&& run.actions[1] == (ActionV::Exit { code: spec_exit_code(ErrorClass::Config) })
            &&& forall|i: int| 0 <= i < run.actions.len() ==> !(run.actions[i] is Connect)
            &&& forall|i: int|
                0 <= i < run.actions.len() ==> !(run.actions[i] is ReadEnvironment)
        }),
{
    let s0 = StateV::AwaitQuery { query_path, config_path: Some(config_path) };
    let e0 = EventV::FileRead(Ok::<Seq<char>, Seq<char>>(query));
    let e1 = EventV::FileRead(Err::<Seq<char>, Seq<char>>(detail));
    let events = seq![e0, e1] + rest;
    assert(events[0] == e0);
    let tail1 = events.drop_first();
    assert(tail1 =~= seq![e1] + rest);
    assert(tail1[0] == e1);
    assert(tail1.drop_first() =~= rest);
    let st1 = spec_step(s0, e0);
    let s1 = st1.0;
    assert(s1 == (StateV::AwaitConfig { query }));
    let st2 = spec_step(s1, e1);
    let s2 = st2.0;
    lemma_final_runs_stay_silent(s2, rest);
    let run2 = spec_run(s2, rest);
    let run1 = spec_run(s1, tail1);
    assert(run1.stdout == spec_opt_line(st2.1.stdout_line) + run2.stdout);
    assert(run1.actions == seq![st2.1.action] + run2.actions);
    let run = spec_run(s0, events);
    assert(run.stdout == spec_opt_line(st1.1.stdout_line) + run1.stdout);
    assert(run.actions == seq![st1.1.action] + run1.actions);
    assert(st1.1.action == (ActionV::ReadConfigFile { path: config_path }));
    assert(st2.1.action == (ActionV::Exit { code: spec_exit_code(ErrorClass::Config) }));
    assert(run.actions[0] == st1.1.action);
    assert(run.actions[1] == run1.actions[0]);
    assert forall|i: int|
        0 <= i < run.actions.len() implies !(run.actions[i] is Connect) && !(run.actions[i]
        is ReadEnvironment) by {
        if i >= 1 {
            assert(run.actions[i] == run1.actions[i - 1]);
            if i >= 2 {
                assert(run1.actions[i - 1] == run2.actions[i - 2]);
            }
        }
    }
    assert(run.stdout =~= Seq::<Seq<char>>::empty());
}

/// The one non-fatal condition of a run: whether the client version
/// lookup succeeds or fails, the run goes on to prepare its statement —
/// only the line put on standard error differs.
pub proof fn lemma_version_failure_is_not_fatal(query: Seq<char>, answer: Result<
    Seq<char>,
    Seq<char>,
>)
    ensures
        spec_step(StateV::AwaitVersion { query }, EventV::VersionDone(answer)).0
            == StateV::AwaitPrepare,
        spec_step(StateV::AwaitVersion { query }, EventV::VersionDone(answer)).1.action
            == (ActionV::Prepare { query }),
        spec_step(StateV::AwaitVersion { query }, EventV::VersionDone(answer)).1.stdout_line
            is None,
{
}

/// For every run whose statement fails to prepare — an invalid query
/// text, say — nothing at all reaches standard output, whatever events
/// follow, and the failing step exits with the query error code.
pub proof fn lemma_invalid_statement_run(
    query_path: Seq<char>,
    query: Seq<char>,
    user: Seq<char>,
    password: Seq<char>,
    address: Seq<char>,
    version: Result<Seq<char>, Seq<char>>,
    detail: Seq<char>,
    rest: Seq<EventV>,
)
    ensures
        ({
            let events = seq![
                EventV::FileRead(Ok(query)),
                EventV::EnvRead {
                    user: Some(user),
                    password: Some(password),
                    address: Some(address),
                },
                EventV::ConnectDone(Ok(())),
                EventV::VersionDone(version),
                EventV::PrepareDone(Err(detail)),
            ] + rest;
            let run = spec_run(StateV::AwaitQuery { query_path, config_path: None }, events);
            &&& run.stdout =~= Seq::<Seq<char>>::empty()
            &&& run.actions[4] == (ActionV::Exit { code: spec_exit_code(ErrorClass::Query) })
        }),
{
    let e0 = EventV::FileRead(Ok::<Seq<char>, Seq<char>>(query));
    let e1 = EventV::EnvRead { user: Some(user), password: Some(password), address: Some(address) };
    let e2 = EventV::ConnectDone(Ok::<(), Seq<char>>(()));
    let e3 = EventV::VersionDone(version);
    let e4 = EventV::PrepareDone(Err::<(), Seq<char>>(detail));
    let events = seq![e0, e1, e2, e3, e4] + rest;
    let s0 = StateV::AwaitQuery { query_path, config_path: None };

    assert(events[0] == e0);
    let t1 = events.drop_first();
    assert(t1 =~= seq![e1, e2, e3, e4] + rest);
    let st0 = spec_step(s0, e0);
    let s1 = st0.0;
    assert(s1 == (StateV::AwaitEnv { query }));

    assert(t1[0] == e1);
    let t2 = t1.drop_first();
    assert(t2 =~= seq![e2, e3, e4] + rest);
    let st1 = spec_step(s1, e1);
    let s2 = st1.0;
    assert(s2 == (StateV::AwaitConnect { query }));

    assert(t2[0] == e2);
    let t3 = t2.drop_first();
    assert(t3 =~= seq![e3, e4] + rest);
    let st2 = spec_step(s2, e2);
    let s3 = st2.0;
    assert(s3 == (StateV::AwaitVersion { query }));

    assert(t3[0] == e3);
    let t4 = t3.drop_first();
    assert(t4 =~= seq![e4] + rest);
    let st3 = spec_step(s3, e3);
    let s4 = st3.0;
    assert(s4 == StateV::AwaitPrepare);

    assert(t4[0] == e4);
    let t5 = t4.drop_first();
    assert(t5 =~= rest);
    let st4 = spec_step(s4, e4);
    let s5 = st4.0;
    lemma_final_runs_stay_silent(s5, rest);

    let run5 = spec_run(s5, t5);
    let run4 = spec_run(s4, t4);
    assert(run4.stdout == spec_opt_line(st4.1.stdout_line) + run5.stdout);
    assert(run4.actions == seq![st4.1.action] + run5.actions);
    let run3 = spec_run(s3, t3);
    assert(run3.stdout == spec_opt_line(st3.1.stdout_line) + run4.stdout);
    assert(run3.actions == seq![st3.1.action] + run4.actions);
    let run2 = spec_run(s2, t2);
    assert(run2.stdout == spec_opt_line(st2.1.stdout_line) + run3.stdout);
    assert(run2.actions == seq![st2.1.action] + run3.actions);
    let run1 = spec_run(s1, t1);
    assert(run1.stdout == spec_opt_line(st1.1.stdout_line) + run2.stdout);
    assert(run1.actions == seq![st1.1.action] + run2.actions);
    let run = spec_run(s0, events);
    assert(run.stdout == spec_opt_line(st0.1.stdout_line) + run1.stdout);
    assert(run.actions == seq![st0.1.action] + run1.actions);
    assert(st4.1.action == (ActionV::Exit { code: spec_exit_code(ErrorClass::Query) }));
    assert(run.actions[4] == run1.actions[3]);
    assert(run1.actions[3] == run2.actions[2]);
    assert(run2.actions[2] == run3.actions[1]);
    assert(run3.actions[1] == run4.actions[0]);
    assert(run.stdout =~= Seq::<Seq<char>>::empty());
}

/// One row event per row of the result set, in cursor order.
pub open spec fn spec_row_events(rows: Seq<Seq<Seq<char>>>) -> Seq<EventV> {
    rows.map_values(|r: Seq<Seq<char>>| EventV::RowRead(Ok(Some(r))))
}

/// The streaming tail of a successful run: each row arrives in turn,
/// then the cursor reports itself exhausted and the connection closes.
/// The lines printed are exactly the rows, joined, in cursor order.
proof fn lemma_streaming_run(rows: Seq<Seq<Seq<char>>>)
    ensures
        ({
            let events = spec_row_events(rows) + seq![
                EventV::RowRead(Ok(None)),
                EventV::CloseDone(Ok(())),
            ];
            let run = spec_run(StateV::Streaming, events);
            &&& run.state == (StateV::Done { code: 0 })
            &&& run.stdout =~~= rows.map_values(|r: Seq<Seq<char>>| spec_join(r))
            &&& run.stderr =~= Seq::<Seq<char>>::empty()
        }),
    decreases rows.len(),
{
    let tailev = seq![
        EventV::RowRead(Ok::<Option<Seq<Seq<char>>>, Seq<char>>(None)),
        EventV::CloseDone(Ok::<(), Seq<char>>(())),
    ];
    let events = spec_row_events(rows) + tailev;
    if rows.len() == 0 {
        assert(events =~= tailev);
        assert(events[0] == tailev[0]);
        let st1 = spec_step(StateV::Streaming, events[0]);
        assert(st1.0 == StateV::AwaitClose);
        let t1 = events.drop_first();
        assert(t1 =~= seq![EventV::CloseDone(Ok::<(), Seq<char>>(()))]);
        let st2 = spec_step(st1.0, t1[0]);
        assert(st2.0 == (StateV::Done { code: 0 }));
        let t2 = t1.drop_first();
        assert(t2 =~= Seq::<EventV>::empty());
        let run2 = spec_run(st2.0, t2);
        let run1 = spec_run(st1.0, t1);
        assert(run1.stdout == spec_opt_line(st2.1.stdout_line) + run2.stdout);
        let run = spec_run(StateV::Streaming, events);
        assert(run.stdout == spec_opt_line(st1.1.stdout_line) + run1.stdout);
        assert(run.stdout =~~= rows.map_values(|r: Seq<Seq<char>>| spec_join(r)));
        assert(run.stderr =~= Seq::<Seq<char>>::empty());
    } else {
        let e0 = EventV::RowRead(Ok::<Option<Seq<Seq<char>>>, Seq<char>>(Some(rows[0])));
        assert(spec_row_events(rows)[0] == e0);
        assert(events[0] == e0);
        let st1 = spec_step(StateV::Streaming, e0);
        assert(st1.0 == StateV::Streaming);
        assert(st1.1.stdout_line == Some(spec_join(rows[0])));
        let t1 = events.drop_first();
        assert(t1 =~= spec_row_events(rows.drop_first()) + tailev);
        lemma_streaming_run(rows.drop_first());
        let run1 = spec_run(StateV::Streaming, t1);
        let run = spec_run(StateV::Streaming, events);
        assert(run.stdout == spec_opt_line(st1.1.stdout_line) + run1.stdout);
        assert(run.stdout =~~= rows.map_values(|r: Seq<Seq<char>>| spec_join(r)));
        assert(run.stderr =~= Seq::<Seq<char>>::empty());
    }
}

/// A successful run prints, in order, exactly the output lines of its
/// result set: the header line first, then one line per row in cursor
/// order, and nothing else ever reaches standard output. Two runs that
/// see the same column names and rows therefore print byte-identical
/// result output, and the run exits with code 0.
pub proof fn lemma_successful_run_output(
    query_path: Seq<char>,
    query: Seq<char>,
    user: Seq<char>,
    password: Seq<char>,
    address: Seq<char>,
    version: Result<Seq<char>, Seq<char>>,
    names: Seq<Seq<char>>,
    rows: Seq<Seq<Seq<char>>>,
)
    ensures
        ({
            let events = seq![
                EventV::FileRead(Ok(query)),
                EventV::EnvRead {
                    user: Some(user),
                    password: Some(password),
                    address: Some(address),
                },
                EventV::ConnectDone(Ok(())),
                EventV::VersionDone(version),
                EventV::PrepareDone(Ok(())),
                EventV::ExecuteDone(Ok(names)),
            ] + spec_row_events(rows) + seq![
                EventV::RowRead(Ok(None)),
                EventV::CloseDone(Ok(())),
            ];
            let run = spec_run(StateV::AwaitQuery { query_path, config_path: None }, events);
            &&& run.state == (StateV::Done { code: 0 })
            &&& run.stdout =~~= spec_output_lines(names, rows)
        }),
{
    let e0 = EventV::FileRead(Ok::<Seq<char>, Seq<char>>(query));
    let e1 = EventV::EnvRead { user: Some(user), password: Some(password), address: Some(address) };
    let e2 = EventV::ConnectDone(Ok::<(), Seq<char>>(()));
    let e3 = EventV::VersionDone(version);
    let e4 = EventV::PrepareDone(Ok::<(), Seq<char>>(()));
    let e5 = EventV::ExecuteDone(Ok::<Seq<Seq<char>>, Seq<char>>(names));
    let streamev = spec_row_events(rows) + seq![
        EventV::RowRead(Ok::<Option<Seq<Seq<char>>>, Seq<char>>(None)),
        EventV::CloseDone(Ok::<(), Seq<char>>(())),
    ];
    let events = seq![e0, e1, e2, e3, e4, e5] + streamev;

    let s0 = StateV::AwaitQuery { query_path, config_path: None };
    assert(events[0] == e0);
    let t1 = events.drop_first();
    assert(t1 =~= seq![e1, e2, e3, e4, e5] + streamev);
    let st0 = spec_step(s0, e0);
    let s1 = st0.0;
    assert(s1 == (StateV::AwaitEnv { query }));

    assert(t1[0] == e1);
    let t2 = t1.drop_first();
    assert(t2 =~= seq![e2, e3, e4, e5] + streamev);
    let st1 = spec_step(s1, e1);
    let s2 = st1.0;
    assert(s2 == (StateV::AwaitConnect { query }));

    assert(t2[0] == e2);
    let t3 = t2.drop_first();
    assert(t3 =~= seq![e3, e4, e5] + streamev);
    let st2 = spec_step(s2, e2);
    let s3 = st2.0;
    assert(s3 == (StateV::AwaitVersion { query }));

    assert(t3[0] == e3);
    let t4 = t3.drop_first();
    assert(t4 =~= seq![e4, e5] + streamev);
    let st3 = spec_step(s3, e3);
    let s4 = st3.0;
    assert(s4 == StateV::AwaitPrepare);

    assert(t4[0] == e4);
    let t5 = t4.drop_first();
    assert(t5 =~= seq![e5] + streamev);
    let st4 = spec_step(s4, e4);
    let s5 = st4.0;
    assert(s5 == StateV::AwaitExecute);

    assert(t5[0] == e5);
    let t6 = t5.drop_first();
    assert(t6 =~= streamev);
    let st5 = spec_step(s5, e5);
    let s6 = st5.0;
    assert(s6 == StateV::Streaming);
    assert(st5.1.stdout_line == Some(spec_join(names)));

    lemma_streaming_run(rows);
    let run6 = spec_run(s6, t6);
    let run5 = spec_run(s5, t5);
    assert(run5.stdout == spec_opt_line(st5.1.stdout_line) + run6.stdout);
    let run4 = spec_run(s4, t4);
    assert(run4.stdout == spec_opt_line(st4.1.stdout_line) + run5.stdout);
    let run3 = spec_run(s3, t3);
    assert(run3.stdout == spec_opt_line(st3.1.stdout_line) + run4.stdout);
    let run2 = spec_run(s2, t2);
    assert(run2.stdout == spec_opt_line(st2.1.stdout_line) + run3.stdout);
    let run1 = spec_run(s1, t1);
    assert(run1.stdout == spec_opt_line(st1.1.stdout_line) + run2.stdout);
    let run = spec_run(s0, events);
    assert(run.stdout == spec_opt_line(st0.1.stdout_line) + run1.stdout);
    assert(run.state == run6.state);
    assert(run.stdout =~~= spec_output_lines(names, rows));
    assert(seq![e0, e1, e2, e3, e4, e5] + spec_row_events(rows) + seq![
        EventV::RowRead(Ok::<Option<Seq<Seq<char>>>, Seq<char>>(None)),
        EventV::CloseDone(Ok::<(), Seq<char>>(())),
    ] =~= events);
}

} // verus!
