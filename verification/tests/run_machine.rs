use sql_printer::machine::Action;
use sql_printer::machine::Event;
use sql_printer::machine::start;
use sql_printer::machine::step;

struct Run {
    stdout: Vec<String>,
    stderr: Vec<String>,
    actions: Vec<&'static str>,
    exit: Option<u8>,
    aborted: bool,
    connected_with: Option<(String, String, String)>,
}

fn tag(a: &Action) -> &'static str {
    match a {
        Action::ReadQueryFile { .. } => "read_query_file",
        Action::ReadConfigFile { .. } => "read_config_file",
        Action::ReadEnvironment => "read_environment",
        Action::Connect { .. } => "connect",
        Action::QueryClientVersion => "query_client_version",
        Action::Prepare { .. } => "prepare",
        Action::Execute => "execute",
        Action::NextRow => "next_row",
        Action::Close => "close",
        Action::Exit { .. } => "exit",
        Action::Abort => "abort",
    }
}

fn drive(query_path: &str, config_path: Option<&str>, events: Vec<Event>) -> Run {
    let (mut state, first) = start(String::from(query_path), config_path.map(String::from));
    let mut run = Run {
        stdout: Vec::new(),
        stderr: Vec::new(),
        actions: vec![tag(&first)],
        exit: None,
        aborted: false,
        connected_with: None,
    };
    for event in events {
        let (next, out) = step(state, event);
        state = next;
        if let Some(line) = out.stdout_line {
            run.stdout.push(line);
        }
        if let Some(line) = out.stderr_line {
            run.stderr.push(line);
        }
        run.actions.push(tag(&out.action));
        match out.action {
            Action::Exit { code } => run.exit = Some(code),
            Action::Abort => run.aborted = true,
            Action::Connect { creds } => {
                run.connected_with = Some((creds.user, creds.password, creds.address));
            }
            _ => {}
        }
    }
    run
}

fn env_all_set() -> Event {
    Event::EnvRead {
        user: Some(String::from("scott")),
        password: Some(String::from("tiger")),
        address: Some(String::from("db/XE")),
    }
}

#[test]
fn single_row_single_column_prints_two_lines() {
    let run = drive(
        "q.sql",
        None,
        vec![
            Event::FileRead(Ok(String::from("SELECT 1 AS A FROM DUAL"))),
            env_all_set(),
            Event::ConnectDone(Ok(())),
            Event::VersionDone(Ok(String::from("21.3"))),
            Event::PrepareDone(Ok(())),
            Event::ExecuteDone(Ok(vec![String::from("A")])),
            Event::RowRead(Ok(Some(vec![String::from("1")]))),
            Event::RowRead(Ok(None)),
            Event::CloseDone(Ok(())),
        ],
    );
    assert_eq!(run.stdout, vec!["A", "1"]);
    assert_eq!(run.exit, Some(0));
    assert!(!run.aborted);
    assert!(run.stderr.iter().any(|l| l == "I! Successfully connected to DB."));
}

#[test]
fn same_result_set_prints_byte_identical_output() {
    let events = || {
        vec![
            Event::FileRead(Ok(String::from("SELECT * FROM T"))),
            env_all_set(),
            Event::ConnectDone(Ok(())),
            Event::VersionDone(Ok(String::from("21.3"))),
            Event::PrepareDone(Ok(())),
            Event::ExecuteDone(Ok(vec![String::from("A"), String::from("B")])),
            Event::RowRead(Ok(Some(vec![String::from("1"), String::from("x")]))),
            Event::RowRead(Ok(Some(vec![String::from("2"), String::from("y")]))),
            Event::RowRead(Ok(None)),
            Event::CloseDone(Ok(())),
        ]
    };
    let first = drive("q.sql", None, events());
    let second = drive("q.sql", None, events());
    assert_eq!(first.stdout, second.stdout);
    assert_eq!(first.stdout, vec!["A,B", "1,x", "2,y"]);
}

#[test]
fn unreadable_query_file_exits_one_with_no_rows() {
    let run = drive(
        "missing.sql",
        None,
        vec![Event::FileRead(Err(String::from("No such file or directory")))],
    );
    assert_eq!(run.exit, Some(1));
    assert!(run.stdout.is_empty());
    assert_eq!(run.stderr, vec!["E! [missing.sql]: No such file or directory"]);
    assert!(!run.actions.contains(&"connect"));
}

#[test]
fn missing_credential_exits_three_before_any_connection() {
    let run = drive(
        "q.sql",
        None,
        vec![
            Event::FileRead(Ok(String::from("SELECT 1 FROM DUAL"))),
            Event::EnvRead {
                user: Some(String::from("scott")),
                password: None,
                address: Some(String::from("db/XE")),
            },
        ],
    );
    assert_eq!(run.exit, Some(3));
    assert!(run.stdout.is_empty());
    assert_eq!(run.stderr, vec!["E! \"ORACLE_PASSWORD\" not found in environment variables"]);
    assert!(!run.actions.contains(&"connect"));
}

#[test]
fn config_file_replaces_ambient_credentials() {
    // With a config option the machine never reads the ambient
    // environment: the credentials it connects with come from the
    // env-file's assignments alone.
    let run = drive(
        "q.sql",
        Some("creds.env"),
        vec![
            Event::FileRead(Ok(String::from("SELECT 1 FROM DUAL"))),
            Event::FileRead(Ok(String::from(
                "ORACLE_USER=file_user\nORACLE_PASSWORD=file_pass\nORACLE_ADRES=file_db/XE",
            ))),
        ],
    );
    assert!(!run.actions.contains(&"read_environment"));
    assert!(run.actions.contains(&"read_config_file"));
    assert_eq!(
        run.connected_with,
        Some((
            String::from("file_user"),
            String::from("file_pass"),
            String::from("file_db/XE"),
        )),
    );
}

#[test]
fn config_file_missing_variable_exits_three() {
    let run = drive(
        "q.sql",
        Some("creds.env"),
        vec![
            Event::FileRead(Ok(String::from("SELECT 1 FROM DUAL"))),
            Event::FileRead(Ok(String::from("ORACLE_USER=u\nORACLE_PASSWORD=p"))),
        ],
    );
    assert_eq!(run.exit, Some(3));
    assert_eq!(run.stderr, vec!["E! \"ORACLE_ADRES\" not found in environment variables"]);
    assert!(!run.actions.contains(&"connect"));
}

#[test]
fn nonexistent_config_file_exits_three_without_connecting() {
    let run = drive(
        "q.sql",
        Some("nowhere.env"),
        vec![
            Event::FileRead(Ok(String::from("SELECT 1 FROM DUAL"))),
            Event::FileRead(Err(String::from("No such file or directory"))),
        ],
    );
    assert_eq!(run.exit, Some(3));
    assert!(run.stdout.is_empty());
    assert_eq!(
        run.stderr,
        vec!["E! In loading environment variables: No such file or directory"],
    );
    assert!(!run.actions.contains(&"connect"));
}

#[test]
fn malformed_config_file_exits_three() {
    let run = drive(
        "q.sql",
        Some("creds.env"),
        vec![
            Event::FileRead(Ok(String::from("SELECT 1 FROM DUAL"))),
            Event::FileRead(Ok(String::from("ORACLE_USER u"))),
        ],
    );
    assert_eq!(run.exit, Some(3));
    assert_eq!(
        run.stderr,
        vec!["E! In loading environment variables: a line is not a key=value pair"],
    );
}

#[test]
fn invalid_sql_exits_four_with_no_output_rows() {
    let run = drive(
        "q.sql",
        None,
        vec![
            Event::FileRead(Ok(String::from("SELEKT 1"))),
            env_all_set(),
            Event::ConnectDone(Ok(())),
            Event::VersionDone(Err(String::from("no client"))),
            Event::PrepareDone(Err(String::from("ORA-00900: invalid SQL statement"))),
        ],
    );
    assert_eq!(run.exit, Some(4));
    assert!(run.stdout.is_empty());
    assert!(run.stderr.contains(&String::from("E! ORA-00900: invalid SQL statement")));
}

#[test]
fn execution_failure_exits_four() {
    let run = drive(
        "q.sql",
        None,
        vec![
            Event::FileRead(Ok(String::from("SELECT * FROM MISSING_TABLE"))),
            env_all_set(),
            Event::ConnectDone(Ok(())),
            Event::VersionDone(Ok(String::from("21.3"))),
            Event::PrepareDone(Ok(())),
            Event::ExecuteDone(Err(String::from("ORA-00942: table or view does not exist"))),
        ],
    );
    assert_eq!(run.exit, Some(4));
    assert!(run.stdout.is_empty());
}

#[test]
fn connect_failure_exits_two() {
    let run = drive(
        "q.sql",
        None,
        vec![
            Event::FileRead(Ok(String::from("SELECT 1 FROM DUAL"))),
            env_all_set(),
            Event::ConnectDone(Err(String::from("ORA-01017: invalid username/password"))),
        ],
    );
    assert_eq!(run.exit, Some(2));
    assert_eq!(run.stderr, vec!["E! ORA-01017: invalid username/password"]);
}

#[test]
fn version_lookup_failure_is_not_fatal() {
    let run = drive(
        "q.sql",
        None,
        vec![
            Event::FileRead(Ok(String::from("SELECT 1 AS A FROM DUAL"))),
            env_all_set(),
            Event::ConnectDone(Ok(())),
            Event::VersionDone(Err(String::from("no client"))),
            Event::PrepareDone(Ok(())),
            Event::ExecuteDone(Ok(vec![String::from("A")])),
            Event::RowRead(Ok(None)),
            Event::CloseDone(Ok(())),
        ],
    );
    assert_eq!(run.exit, Some(0));
    assert!(run.stderr.contains(&String::from("W! Couldn't get Oracle Client Version: no client")));
}

#[test]
fn row_extraction_failure_aborts() {
    let run = drive(
        "q.sql",
        None,
        vec![
            Event::FileRead(Ok(String::from("SELECT 1 AS A FROM DUAL"))),
            env_all_set(),
            Event::ConnectDone(Ok(())),
            Event::VersionDone(Ok(String::from("21.3"))),
            Event::PrepareDone(Ok(())),
            Event::ExecuteDone(Ok(vec![String::from("A")])),
            Event::RowRead(Err(String::from("ORA-01455: value too large"))),
        ],
    );
    assert!(run.aborted);
    assert_eq!(run.exit, None);
}

#[test]
fn close_failure_aborts() {
    let run = drive(
        "q.sql",
        None,
        vec![
            Event::FileRead(Ok(String::from("SELECT 1 AS A FROM DUAL"))),
            env_all_set(),
            Event::ConnectDone(Ok(())),
            Event::VersionDone(Ok(String::from("21.3"))),
            Event::PrepareDone(Ok(())),
            Event::ExecuteDone(Ok(vec![String::from("A")])),
            Event::RowRead(Ok(None)),
            Event::CloseDone(Err(String::from("ORA-01089: shutdown in progress"))),
        ],
    );
    assert!(run.aborted);
}
