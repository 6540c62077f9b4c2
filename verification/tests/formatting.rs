use sql_printer::format::join_fields;

#[test]
fn join_two_fields() {
    let fields = vec![String::from("A"), String::from("B")];
    assert_eq!(join_fields(&fields), "A,B");
}

#[test]
fn join_single_field() {
    let fields = vec![String::from("A")];
    assert_eq!(join_fields(&fields), "A");
}

#[test]
fn join_no_fields() {
    let fields: Vec<String> = Vec::new();
    assert_eq!(join_fields(&fields), "");
}

#[test]
fn join_keeps_empty_fields() {
    let fields = vec![String::new(), String::from("x"), String::new()];
    assert_eq!(join_fields(&fields), ",x,");
}

#[test]
fn header_and_row_field_counts_agree() {
    let names = vec![String::from("ID"), String::from("NAME"), String::from("CITY")];
    let row = vec![String::from("1"), String::from("ada"), String::from("oslo")];
    let header_line = join_fields(&names);
    let row_line = join_fields(&row);
    assert_eq!(header_line.split(',').count(), names.len());
    assert_eq!(row_line.split(',').count(), header_line.split(',').count());
}

#[test]
fn joining_twice_is_byte_identical() {
    let names = vec![String::from("A"), String::from("B")];
    let row = vec![String::from("1"), String::from("2")];
    let first = (join_fields(&names), join_fields(&row));
    let second = (join_fields(&names), join_fields(&row));
    assert_eq!(first, second);
}

#[test]
fn unescaped_separator_corrupts_field_count() {
    // The known limitation: a value holding the separator is not quoted,
    // so the line splits into more fields than the row has values.
    let row = vec![String::from("a,b"), String::from("c")];
    let line = join_fields(&row);
    assert_eq!(line, "a,b,c");
    assert_eq!(line.split(',').count(), 3);
}
