use surello::{collection_name, determine_target, file_extension, SurelloSourceType};

#[test]
fn known_extensions_are_classified() {
    assert_eq!(determine_target("surello_data/a.surql"), Some(SurelloSourceType::Surql));
    assert_eq!(determine_target("surello_data/b.csv"), Some(SurelloSourceType::Csv));
    assert_eq!(determine_target("surello_data/deep/c.jsonl"), Some(SurelloSourceType::JsonLines));
}

#[test]
fn other_extensions_are_unsupported() {
    assert_eq!(determine_target("surello_data/c.unknown"), None);
    assert_eq!(determine_target("surello_data/d.parquet"), None);
    assert_eq!(determine_target("surello_data/e.CSV"), None);
    assert_eq!(determine_target("surello_data/f.csv.bak"), None);
}

#[test]
fn missing_extension_is_unsupported() {
    assert_eq!(determine_target("surello_data/README"), None);
    assert_eq!(determine_target("surello_data/.csv"), None);
    assert_eq!(determine_target("surello.d/notes"), None);
    assert_eq!(determine_target(""), None);
}

#[test]
fn extension_is_taken_from_the_file_name() {
    assert_eq!(file_extension("a/b.tar.gz"), Some("gz".to_string()));
    assert_eq!(file_extension("dir.csv/file"), None);
    assert_eq!(file_extension("a/name."), Some(String::new()));
    assert_eq!(file_extension("x/.hidden.jsonl"), Some("jsonl".to_string()));
    assert_eq!(determine_target("x/.hidden.jsonl"), Some(SurelloSourceType::JsonLines));
}

#[test]
fn collection_name_of_orders_csv() {
    assert_eq!(collection_name("orders.csv"), "file_orders_csv");
    assert_eq!(collection_name("surello_data/orders.csv"), "file_orders_csv");
}

#[test]
fn collection_name_is_the_same_across_calls_and_directories() {
    let first = collection_name("surello_data/2024/sales.v2.jsonl");
    let second = collection_name("other/root/sales.v2.jsonl");
    assert_eq!(first, "file_sales_v2_jsonl");
    assert_eq!(first, second);
    assert_eq!(collection_name("data/plain"), "file_plain");
}
