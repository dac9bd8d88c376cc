use surello::{plan_csv, plan_json_lines, LoadError};

fn pair(k: &str, v: &str) -> (String, String) {
    (k.to_string(), v.to_string())
}

#[test]
fn csv_rows_become_records_for_the_file_collection() {
    let plan = plan_csv("surello_data/b.csv", b"id,name\n1,ada\n2,bob\n").unwrap();
    assert_eq!(plan.collection, "file_b_csv");
    assert_eq!(plan.records.len(), 2);
    assert_eq!(plan.records[0], vec![pair("id", "1"), pair("name", "ada")]);
    assert_eq!(plan.records[1], vec![pair("id", "2"), pair("name", "bob")]);
}

#[test]
fn csv_with_header_only_has_no_records() {
    let plan = plan_csv("orders.csv", b"id,name\n").unwrap();
    assert_eq!(plan.collection, "file_orders_csv");
    assert!(plan.records.is_empty());
}

#[test]
fn csv_row_of_wrong_width_is_a_parse_error() {
    let r = plan_csv("orders.csv", b"id,name\n1,ada,extra\n");
    assert!(matches!(r, Err(LoadError::Parse(_))));
}

#[test]
fn json_lines_become_records_for_the_file_collection() {
    let text = b"{\"name\":\"ada\",\"id\":\"1\"}\n{\"id\":\"2\",\"name\":\"bob\"}\n";
    let plan = plan_json_lines("surello_data/people.jsonl", text).unwrap();
    assert_eq!(plan.collection, "file_people_jsonl");
    assert_eq!(plan.records.len(), 2);
    assert_eq!(plan.records[0], vec![pair("id", "1"), pair("name", "ada")]);
    assert_eq!(plan.records[1], vec![pair("id", "2"), pair("name", "bob")]);
}

#[test]
fn json_line_that_is_not_an_object_of_strings_is_a_parse_error() {
    let r = plan_json_lines("p.jsonl", b"{\"id\":1}\n");
    assert!(matches!(r, Err(LoadError::Parse(_))));
    let r = plan_json_lines("p.jsonl", b"not json\n");
    assert!(matches!(r, Err(LoadError::Parse(_))));
}

#[test]
fn empty_json_lines_file_has_no_records() {
    let plan = plan_json_lines("p.jsonl", b"").unwrap();
    assert!(plan.records.is_empty());
}
