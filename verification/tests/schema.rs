use pgnotes::schema::{first_mismatch, structure_valid, Column};

fn column(name: &str, data_type: &str) -> Column {
    Column::new(name.to_string(), data_type.to_string())
}

fn text_column(name: &str) -> Column {
    column(name, "character varying")
}

#[test]
fn the_three_text_columns_conform() {
    assert!(text_column("title").conforms());
    assert!(text_column("details").conforms());
    assert!(text_column("time").conforms());
}

#[test]
fn an_unknown_name_does_not_conform() {
    assert!(!text_column("author").conforms());
    assert!(!text_column("Title").conforms());
    assert!(!text_column("").conforms());
}

#[test]
fn another_type_does_not_conform() {
    assert!(!column("title", "text").conforms());
    assert!(!column("time", "timestamp without time zone").conforms());
    assert!(!column("details", "integer").conforms());
}

#[test]
fn the_number_column_does_not_conform() {
    assert!(!column("id", "integer").conforms());
}

#[test]
fn a_table_of_the_three_columns_is_valid() {
    let columns = vec![text_column("title"), text_column("details"), text_column("time")];
    assert_eq!(first_mismatch(&columns), None);
    assert!(structure_valid(&columns));
}

#[test]
fn a_table_of_some_of_the_columns_is_valid() {
    let columns = vec![text_column("time")];
    assert!(structure_valid(&columns));
}

#[test]
fn a_table_without_columns_is_not_valid() {
    let columns: Vec<Column> = Vec::new();
    assert_eq!(first_mismatch(&columns), None);
    assert!(!structure_valid(&columns));
}

#[test]
fn an_extra_column_makes_the_table_invalid() {
    let columns = vec![
        text_column("title"),
        text_column("details"),
        text_column("time"),
        text_column("author"),
    ];
    assert_eq!(first_mismatch(&columns), Some(3));
    assert!(!structure_valid(&columns));
}

#[test]
fn a_wrongly_typed_column_makes_the_table_invalid() {
    let columns = vec![text_column("title"), column("details", "integer"), text_column("time")];
    assert_eq!(first_mismatch(&columns), Some(1));
    assert!(!structure_valid(&columns));
}

#[test]
fn the_first_mismatch_is_the_one_reported() {
    let columns = vec![
        text_column("title"),
        column("id", "integer"),
        text_column("details"),
        column("time", "text"),
    ];
    assert_eq!(first_mismatch(&columns), Some(1));
}

#[test]
fn a_mismatch_in_the_first_place_rejects_the_table() {
    let columns = vec![column("id", "integer"), text_column("title")];
    assert_eq!(first_mismatch(&columns), Some(0));
    assert!(!structure_valid(&columns));
}

#[test]
fn conforming_columns_after_a_mismatch_do_not_save_the_table() {
    let columns = vec![column("title", "text"), text_column("details"), text_column("time")];
    assert!(!structure_valid(&columns));
}
