use vstd::prelude::*;
use vstd::string::StringExecFns;

verus! {

/// The three credential variables that must be resolvable before a
/// connection is attempted, in the order in which they are checked.
#[derive(PartialEq, Eq, Structural, Clone, Copy, Debug)]
pub enum VarName {
    User,
    Password,
    Address,
}

/// The name under which a credential variable is looked up, in the
/// environment or in an env-file.
pub open spec fn spec_var_key(n: VarName) -> Seq<char> {
    match n {
        VarName::User => "ORACLE_USER"@,
        VarName::Password => "ORACLE_PASSWORD"@,
        VarName::Address => "ORACLE_ADRES"@,
    }
}

/// Returns the environment-variable name of a credential variable.
pub fn var_key(n: VarName) -> (r: String)
    ensures
        r@ == spec_var_key(n),
{
    match n {
        VarName::User => String::from_str("ORACLE_USER"),
        VarName::Password => String::from_str("ORACLE_PASSWORD"),
        VarName::Address => String::from_str("ORACLE_ADRES"),
    }
}

/// Every way a run can fail. Each variant carries the detail text that the
/// diagnostic line reports; the text plays no part in choosing the exit code.
pub enum RunError {
    /// A required command-line option was absent or unusable.
    Usage { detail: String },
    /// The query file could not be read.
    QueryFileRead { path: String, detail: String },
    /// The env-file named by the config option could not be read.
    ConfigFileRead { detail: String },
    /// A line of the env-file is neither blank, a comment, nor a
    /// key=value pair.
    ConfigParse,
    /// A credential variable was still unset after credential loading.
    MissingVar { name: VarName },
    /// The database session could not be opened.
    Connect { detail: String },
    /// The statement could not be prepared from the query text.
    Prepare { detail: String },
    /// The prepared statement failed to execute.
    Execute { detail: String },
}

/// The four failure classes that scripts can branch on: each maps to its
/// own exit code.
#[derive(PartialEq, Eq, Structural, Clone, Copy, Debug)]
pub enum ErrorClass {
    /// Usage errors and query-file read errors.
    UsageOrIo,
    /// Env-file loading errors and missing credential variables.
    Config,
    /// Connection failures.
    Connectivity,
    /// Statement preparation or execution failures.
    Query,
}

/// The failure class of an error.
pub open spec fn spec_class(e: &RunError) -> ErrorClass {
    match e {
        RunError::Usage { .. } => ErrorClass::UsageOrIo,
        RunError::QueryFileRead { .. } => ErrorClass::UsageOrIo,
        RunError::ConfigFileRead { .. } => ErrorClass::Config,
        RunError::ConfigParse => ErrorClass::Config,
        RunError::MissingVar { .. } => ErrorClass::Config,
        RunError::Connect { .. } => ErrorClass::Connectivity,
        RunError::Prepare { .. } => ErrorClass::Query,
        RunError::Execute { .. } => ErrorClass::Query,
    }
}

/// The process exit code of a failure class. Success exits with 0; every
/// failure class has its own nonzero code.
pub open spec fn spec_exit_code(c: ErrorClass) -> u8 {
    match c {
        ErrorClass::UsageOrIo => 1,
        ErrorClass::Connectivity => 2,
        ErrorClass::Config => 3,
        ErrorClass::Query => 4,
    }
}

/// Maps an error to the exit code of its class.
pub fn exit_code(e: &RunError) -> (c: u8)
    ensures
        c == spec_exit_code(spec_class(e)),
{
    match e {
        RunError::Usage { .. } => 1,
        RunError::QueryFileRead { .. } => 1,
        RunError::ConfigFileRead { .. } => 3,
        RunError::ConfigParse => 3,
        RunError::MissingVar { .. } => 3,
        RunError::Connect { .. } => 2,
        RunError::Prepare { .. } => 4,
        RunError::Execute { .. } => 4,
    }
}

/// Exit codes are internally consistent: every failure class has a nonzero
/// code, and distinct classes have distinct codes, so a caller of the
/// program can branch on the code alone.
pub proof fn lemma_exit_codes_distinct(a: ErrorClass, b: ErrorClass)
    ensures
        spec_exit_code(a) != 0,
        a != b ==> spec_exit_code(a) != spec_exit_code(b),
{
}

/// An error line that reports nothing but the failing operation's own
/// text.
pub open spec fn spec_msg_detail(detail: Seq<char>) -> Seq<char> {
    "E! "@ + detail
}

/// The error line of a query file that could not be read.
pub open spec fn spec_msg_query_file_read(path: Seq<char>, detail: Seq<char>) -> Seq<char> {
    "E! ["@ + path + "]: "@ + detail
}

/// The error line of an env-file that could not be read.
pub open spec fn spec_msg_config_file_read(detail: Seq<char>) -> Seq<char> {
    "E! In loading environment variables: "@ + detail
}

/// The error line of an env-file with a malformed line.
pub open spec fn spec_msg_config_parse() -> Seq<char> {
    "E! In loading environment variables: a line is not a key=value pair"@
}

/// The error line of a credential variable that is still unset after
/// credential loading.
pub open spec fn spec_msg_missing_var(name: VarName) -> Seq<char> {
    "E! \""@ + spec_var_key(name) + "\" not found in environment variables"@
}

/// The informational line reporting that the session is open.
pub open spec fn spec_msg_connected() -> Seq<char> {
    "I! Successfully connected to DB."@
}

/// The informational line reporting the client driver version.
pub open spec fn spec_msg_version(version: Seq<char>) -> Seq<char> {
    "I! Oracle Client Version: "@ + version
}

/// The warning line of the one non-fatal condition: the client driver
/// version could not be read.
pub open spec fn spec_msg_version_warning(detail: Seq<char>) -> Seq<char> {
    "W! Couldn't get Oracle Client Version: "@ + detail
}

/// The diagnostic line that an error puts on standard error, prefixed by
/// the error severity marker.
pub open spec fn spec_error_message(e: &RunError) -> Seq<char> {
    match e {
        RunError::Usage { detail } => spec_msg_detail(detail@),
        RunError::QueryFileRead { path, detail } => spec_msg_query_file_read(path@, detail@),
        RunError::ConfigFileRead { detail } => spec_msg_config_file_read(detail@),
        RunError::ConfigParse => spec_msg_config_parse(),
        RunError::MissingVar { name } => spec_msg_missing_var(*name),
        RunError::Connect { detail } => spec_msg_detail(detail@),
        RunError::Prepare { detail } => spec_msg_detail(detail@),
        RunError::Execute { detail } => spec_msg_detail(detail@),
    }
}

/// Renders the diagnostic line of an error.
pub fn error_message(e: &RunError) -> (r: String)
    ensures
        r@ == spec_error_message(e),
{
    match e {
        RunError::Usage { detail } => {
            let mut s = String::from_str("E! ");
            s.append(detail.as_str());
            s
        },
        RunError::QueryFileRead { path, detail } => {
            let mut s = String::from_str("E! [");
            s.append(path.as_str());
            s.append("]: ");
            s.append(detail.as_str());
            s
        },
        RunError::ConfigFileRead { detail } => {
            let mut s = String::from_str("E! In loading environment variables: ");
            s.append(detail.as_str());
            s
        },
        RunError::ConfigParse => String::from_str(
            "E! In loading environment variables: a line is not a key=value pair",
        ),
        RunError::MissingVar { name } => {
            let mut s = String::from_str("E! \"");
            let key = var_key(*name);
            s.append(key.as_str());
            s.append("\" not found in environment variables");
            s
        },
        RunError::Connect { detail } => {
            let mut s = String::from_str("E! ");
            s.append(detail.as_str());
            s
        },
        RunError::Prepare { detail } => {
            let mut s = String::from_str("E! ");
            s.append(detail.as_str());
            s
        },
        RunError::Execute { detail } => {
            let mut s = String::from_str("E! ");
            s.append(detail.as_str());
            s
        },
    }
}

/// Renders an error line that reports nothing but the failing
/// operation's own text.
pub fn detail_message(detail: &str) -> (r: String)
    ensures
        r@ == spec_msg_detail(detail@),
{
    let mut s = String::from_str("E! ");
    s.append(detail);
    s
}

/// Renders the informational line reporting that the session is open.
pub fn connected_message() -> (r: String)
    ensures
        r@ == spec_msg_connected(),
{
    String::from_str("I! Successfully connected to DB.")
}

/// Renders the informational line reporting the client driver version.
pub fn version_message(version: &str) -> (r: String)
    ensures
        r@ == spec_msg_version(version@),
{
    let mut s = String::from_str("I! Oracle Client Version: ");
    s.append(version);
    s
}

/// Renders the warning line of a failed client-version lookup.
pub fn version_warning(detail: &str) -> (r: String)
    ensures
        r@ == spec_msg_version_warning(detail@),
{
    let mut s = String::from_str("W! Couldn't get Oracle Client Version: ");
    s.append(detail);
    s
}

} // verus!
