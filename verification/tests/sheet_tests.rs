use calamine::{Data, Range};
use curated_review_file_utils::sheet::{is_header_row, parse_headers, InputError};

fn text(s: &str) -> Data {
    Data::String(s.to_string())
}

fn sheet(rows: &[&[&str]]) -> Range<Data> {
    let height = rows.len() as u32;
    let width = rows[0].len() as u32;
    let mut range: Range<Data> = Range::new((0, 0), (height - 1, width - 1));
    for (r, row) in rows.iter().enumerate() {
        for (c, cell) in row.iter().enumerate() {
            range.set_value((r as u32, c as u32), text(cell));
        }
    }
    range
}

fn strings(names: &[&str]) -> Vec<String> {
    names.iter().map(|n| n.to_string()).collect()
}

#[test]
fn first_row_with_exact_marker_is_the_header_row() {
    let range = sheet(&[&["Labnumber", "SampleID", "Result"], &["1", "a", "ok"]]);
    assert_eq!(parse_headers(&range), Ok(strings(&["Labnumber", "SampleID", "Result"])));
}

#[test]
fn first_row_with_marker_inside_its_first_cell_is_the_header_row() {
    let range = sheet(&[&["Our Labnumber (id)", "Result"], &["1", "ok"]]);
    assert_eq!(parse_headers(&range), Ok(strings(&["Our Labnumber (id)", "Result"])));
}

#[test]
fn second_row_is_taken_when_the_first_lacks_the_marker() {
    let range = sheet(&[&["Curated review", "", ""], &["Labnumber", "SampleID", "Result"]]);
    assert_eq!(parse_headers(&range), Ok(strings(&["Labnumber", "SampleID", "Result"])));
}

#[test]
fn second_row_is_taken_without_looking_for_the_marker() {
    let range = sheet(&[&["Title", "x"], &["Code", "Value"], &["Labnumber", "Result"]]);
    assert_eq!(parse_headers(&range), Ok(strings(&["Code", "Value"])));
}

#[test]
fn marker_in_another_column_does_not_count() {
    let range = sheet(&[&["SampleID", "Labnumber"], &["a", "b"]]);
    assert_eq!(parse_headers(&range), Ok(strings(&["a", "b"])));
}

#[test]
fn single_row_with_marker_is_the_header_row() {
    let range = sheet(&[&["Labnumber", "Result"]]);
    assert_eq!(parse_headers(&range), Ok(strings(&["Labnumber", "Result"])));
}

#[test]
fn single_row_without_marker_gives_no_headers() {
    let range = sheet(&[&["Title", "Result"]]);
    assert_eq!(parse_headers(&range), Ok(Vec::<String>::new()));
}

#[test]
fn worksheet_without_rows_is_an_error() {
    let range: Range<Data> = Range::empty();
    assert_eq!(parse_headers(&range), Err(InputError::EmptyWorksheet));
}

#[test]
fn cells_of_every_kind_become_text() {
    let mut range: Range<Data> = Range::new((0, 0), (0, 5));
    range.set_value((0, 0), text("Labnumber"));
    range.set_value((0, 1), Data::Int(42));
    range.set_value((0, 2), Data::Float(1.5));
    range.set_value((0, 3), Data::Bool(true));
    range.set_value((0, 4), Data::DateTimeIso("2024-03-05T14:07:09".to_string()));
    let found = parse_headers(&range);
    assert_eq!(found, Ok(strings(&["Labnumber", "42", "1.5", "true", "2024-03-05T14:07:09", ""])));
}

#[test]
fn range_that_starts_away_from_the_corner() {
    let mut range: Range<Data> = Range::new((3, 2), (4, 3));
    range.set_value((3, 2), text("Notes"));
    range.set_value((4, 2), text("Labnumber"));
    range.set_value((4, 3), text("Result"));
    assert_eq!(parse_headers(&range), Ok(strings(&["Labnumber", "Result"])));
}

#[test]
fn header_row_test_on_plain_rows() {
    assert!(is_header_row(&strings(&["Labnumber", "x"])));
    assert!(is_header_row(&strings(&["my Labnumber"])));
    assert!(!is_header_row(&strings(&["x", "Labnumber"])));
    assert!(!is_header_row(&strings(&["labnumber"])));
    assert!(!is_header_row(&strings(&[""])));
    assert!(!is_header_row(&Vec::<String>::new()));
}
