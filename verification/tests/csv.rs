use first_cli::process::csv_generate::{
    process_toml, read_csv_data, record_from_row, Record, RowError,
};

fn strings(items: &[&str]) -> Vec<String> {
    items.iter().map(|s| s.to_string()).collect()
}

fn cells(record: &Record) -> Vec<(String, String)> {
    record.fields.iter().map(|f| (f.name.clone(), f.value.clone())).collect()
}

fn pairs(items: &[(&str, &str)]) -> Vec<(String, String)> {
    items.iter().map(|(n, v)| (n.to_string(), v.to_string())).collect()
}

#[test]
fn record_has_a_cell_for_each_column() {
    let record = record_from_row(&strings(&["id", "name"]), &strings(&["1", "Ada"]));
    assert_eq!(cells(&record), pairs(&[("id", "1"), ("name", "Ada")]));
}

#[test]
fn short_row_is_filled_with_empty_cells() {
    let record = record_from_row(&strings(&["id", "name", "city"]), &strings(&["1"]));
    assert_eq!(cells(&record), pairs(&[("id", "1"), ("name", ""), ("city", "")]));
}

#[test]
fn long_row_is_cut_to_the_header() {
    let record = record_from_row(&strings(&["id"]), &strings(&["1", "extra"]));
    assert_eq!(cells(&record), pairs(&[("id", "1")]));
}

#[test]
fn empty_header_gives_empty_records() {
    let record = record_from_row(&strings(&[]), &strings(&["1"]));
    assert!(record.fields.is_empty());
}

#[test]
fn columns_of_one_name_are_both_kept() {
    let record = record_from_row(&strings(&["a", "a"]), &strings(&["1", "2"]));
    assert_eq!(cells(&record), pairs(&[("a", "1"), ("a", "2")]));
}

#[test]
fn all_rows_become_records_in_order() {
    let headers = strings(&["id", "name"]);
    let rows = vec![Some(strings(&["1", "Ada"])), Some(strings(&["2"])), Some(strings(&[]))];
    let records = read_csv_data(&headers, &rows).unwrap();
    assert_eq!(records.len(), 3);
    assert_eq!(cells(&records[0]), pairs(&[("id", "1"), ("name", "Ada")]));
    assert_eq!(cells(&records[1]), pairs(&[("id", "2"), ("name", "")]));
    assert_eq!(cells(&records[2]), pairs(&[("id", ""), ("name", "")]));
}

#[test]
fn no_rows_give_no_records() {
    let records = read_csv_data(&strings(&["id"]), &vec![]).unwrap();
    assert!(records.is_empty());
}

#[test]
fn first_unreadable_row_is_named_by_its_line() {
    let headers = strings(&["id"]);
    let rows = vec![None];
    assert_eq!(read_csv_data(&headers, &rows).err(), Some(RowError { line: 2 }));

    let rows = vec![Some(strings(&["1"])), Some(strings(&["2"])), None, None, Some(strings(&["5"]))];
    assert_eq!(read_csv_data(&headers, &rows).err(), Some(RowError { line: 4 }));
}

#[test]
fn toml_document_keeps_records_under_its_key() {
    let records = vec![record_from_row(&strings(&["id"]), &strings(&["1"]))];
    let root = process_toml(records, "items".to_string());
    assert_eq!(root.key, "items");
    assert_eq!(root.records.len(), 1);
    assert_eq!(cells(&root.records[0]), pairs(&[("id", "1")]));
}
