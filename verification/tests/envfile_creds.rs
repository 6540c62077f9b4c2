use sql_printer::creds::lookup;
use sql_printer::creds::resolve_from_entries;
use sql_printer::creds::resolve_from_values;
use sql_printer::envfile::find_char;
use sql_printer::envfile::parse_env_file;
use sql_printer::envfile::split_on;
use sql_printer::errors::VarName;

fn entry(k: &str, v: &str) -> (String, String) {
    (String::from(k), String::from(v))
}

#[test]
fn parse_simple_assignments() {
    let parsed = parse_env_file("ORACLE_USER=scott\nORACLE_PASSWORD=tiger").unwrap();
    assert_eq!(parsed, vec![entry("ORACLE_USER", "scott"), entry("ORACLE_PASSWORD", "tiger")]);
}

#[test]
fn parse_skips_blank_and_comment_lines() {
    let parsed = parse_env_file("\n# credentials\nA=1\n\n#B=2\nC=3\n").unwrap();
    assert_eq!(parsed, vec![entry("A", "1"), entry("C", "3")]);
}

#[test]
fn parse_rejects_line_without_equals() {
    assert!(parse_env_file("A=1\nnot an assignment\nB=2").is_none());
}

#[test]
fn parse_empty_text_is_empty() {
    assert_eq!(parse_env_file("").unwrap(), Vec::<(String, String)>::new());
}

#[test]
fn parse_splits_at_first_equals_only() {
    let parsed = parse_env_file("ORACLE_ADRES=db.example.com/XE?x=1").unwrap();
    assert_eq!(parsed, vec![entry("ORACLE_ADRES", "db.example.com/XE?x=1")]);
}

#[test]
fn parse_keeps_empty_values() {
    let parsed = parse_env_file("A=").unwrap();
    assert_eq!(parsed, vec![entry("A", "")]);
}

#[test]
fn split_on_counts_pieces() {
    let pieces = split_on("a\nb\n", '\n');
    assert_eq!(pieces, vec!["a".to_string(), "b".to_string(), "".to_string()]);
    assert_eq!(split_on("", '\n'), vec!["".to_string()]);
}

#[test]
fn find_char_first_occurrence() {
    assert_eq!(find_char("k=v=w", '='), 1);
    assert_eq!(find_char("kvw", '='), 3);
}

#[test]
fn lookup_first_assignment_wins() {
    let entries = vec![entry("A", "first"), entry("A", "second")];
    assert_eq!(lookup(&entries, &String::from("A")), Some(String::from("first")));
    assert_eq!(lookup(&entries, &String::from("B")), None);
}

#[test]
fn resolve_names_first_missing_variable() {
    let r = resolve_from_values(None, Some(String::from("p")), Some(String::from("a")));
    assert!(matches!(r, Err(VarName::User)));
    let r = resolve_from_values(Some(String::from("u")), None, None);
    assert!(matches!(r, Err(VarName::Password)));
    let r = resolve_from_values(Some(String::from("u")), Some(String::from("p")), None);
    assert!(matches!(r, Err(VarName::Address)));
}

#[test]
fn resolve_succeeds_with_all_three() {
    let r = resolve_from_values(
        Some(String::from("u")),
        Some(String::from("p")),
        Some(String::from("a")),
    )
    .unwrap();
    assert_eq!(r.user, "u");
    assert_eq!(r.password, "p");
    assert_eq!(r.address, "a");
}

#[test]
fn resolve_from_entries_reads_the_three_keys() {
    let entries = vec![
        entry("ORACLE_USER", "scott"),
        entry("ORACLE_PASSWORD", "tiger"),
        entry("ORACLE_ADRES", "db/XE"),
    ];
    let c = resolve_from_entries(&entries).unwrap();
    assert_eq!(c.user, "scott");
    assert_eq!(c.password, "tiger");
    assert_eq!(c.address, "db/XE");
}

#[test]
fn resolve_from_entries_misses_absent_key() {
    let entries = vec![entry("ORACLE_USER", "scott"), entry("ORACLE_ADRES", "db/XE")];
    assert!(matches!(resolve_from_entries(&entries), Err(VarName::Password)));
}
