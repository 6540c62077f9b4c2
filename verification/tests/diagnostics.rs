use sql_printer::errors::RunError;
use sql_printer::errors::VarName;
use sql_printer::errors::connected_message;
use sql_printer::errors::detail_message;
use sql_printer::errors::error_message;
use sql_printer::errors::exit_code;
use sql_printer::errors::var_key;
use sql_printer::errors::version_message;
use sql_printer::errors::version_warning;

#[test]
fn exit_codes_are_distinct_per_class() {
    let codes = vec![
        exit_code(&RunError::Usage { detail: String::from("x") }),
        exit_code(&RunError::Connect { detail: String::from("x") }),
        exit_code(&RunError::ConfigParse),
        exit_code(&RunError::Prepare { detail: String::from("x") }),
    ];
    assert_eq!(codes, vec![1, 2, 3, 4]);
}

#[test]
fn same_class_shares_a_code() {
    assert_eq!(
        exit_code(&RunError::Usage { detail: String::from("x") }),
        exit_code(&RunError::QueryFileRead {
            path: String::from("q.sql"),
            detail: String::from("x"),
        }),
    );
    assert_eq!(
        exit_code(&RunError::ConfigFileRead { detail: String::from("x") }),
        exit_code(&RunError::MissingVar { name: VarName::User }),
    );
    assert_eq!(
        exit_code(&RunError::Prepare { detail: String::from("x") }),
        exit_code(&RunError::Execute { detail: String::from("x") }),
    );
}

#[test]
fn variable_names_are_the_fixed_contract() {
    assert_eq!(var_key(VarName::User), "ORACLE_USER");
    assert_eq!(var_key(VarName::Password), "ORACLE_PASSWORD");
    assert_eq!(var_key(VarName::Address), "ORACLE_ADRES");
}

#[test]
fn query_file_error_line_names_the_path() {
    let e = RunError::QueryFileRead {
        path: String::from("q.sql"),
        detail: String::from("No such file or directory (os error 2)"),
    };
    assert_eq!(error_message(&e), "E! [q.sql]: No such file or directory (os error 2)");
}

#[test]
fn missing_var_error_line_names_the_variable() {
    let e = RunError::MissingVar { name: VarName::Password };
    assert_eq!(error_message(&e), "E! \"ORACLE_PASSWORD\" not found in environment variables");
}

#[test]
fn config_error_lines() {
    let e = RunError::ConfigFileRead { detail: String::from("No such file or directory") };
    assert_eq!(error_message(&e), "E! In loading environment variables: No such file or directory");
    assert_eq!(
        error_message(&RunError::ConfigParse),
        "E! In loading environment variables: a line is not a key=value pair",
    );
}

#[test]
fn plain_detail_lines() {
    assert_eq!(error_message(&RunError::Connect { detail: String::from("ORA-01017") }), "E! ORA-01017");
    assert_eq!(detail_message("boom"), "E! boom");
}

#[test]
fn informational_and_warning_lines() {
    assert_eq!(connected_message(), "I! Successfully connected to DB.");
    assert_eq!(version_message("21.3.0.0.0"), "I! Oracle Client Version: 21.3.0.0.0");
    assert_eq!(
        version_warning("no client"),
        "W! Couldn't get Oracle Client Version: no client",
    );
}
