//! Locating the header row of a worksheet.
//!
//! The header row is the first row when its first cell mentions the marker
//! text, and the second row otherwise.

use vstd::prelude::*;
use crate::text::{contains, contains_text, texts};

verus! {

/// `calamine::Range`, the rectangular block of cells of one worksheet.
#[verifier::external_type_specification]
#[verifier::external_body]
#[verifier::reject_recursive_types(T)]
pub struct ExRange<T>(calamine::Range<T>);

/// `calamine::Data`, the value of one cell.
#[verifier::external_type_specification]
#[verifier::external_body]
pub struct ExData(calamine::Data);

/// What a worksheet holds, as text: the rows that `Range::rows` yields, top
/// to bottom, each cell rendered by the `Display` impl of `calamine::Data`.
pub uninterp spec fn sheet_texts(range: calamine::Range<calamine::Data>) -> Seq<Seq<Seq<char>>>;

/// Why no header row could be taken from a worksheet.
#[derive(Debug, Clone, Copy, PartialEq, Eq)]
pub enum InputError {
    /// The worksheet has no rows at all.
    EmptyWorksheet,
}

/// Whether `first`, the first row of a worksheet, is the header row: its
/// first cell contains the marker text `Labnumber`. A row without cells
/// carries no marker.
pub open spec fn first_row_is_header(first: Seq<Seq<char>>) -> bool {
    first.len() > 0 && contains_text(first[0], "Labnumber"@)
}

/// The header row of a worksheet given as rows of cell texts: the first row
/// if it carries the marker, else the second row, which is taken to be empty
/// when the worksheet has only one row. A worksheet without rows has none.
pub open spec fn header_row(rows: Seq<Seq<Seq<char>>>) -> Option<Seq<Seq<char>>> {
    if rows.len() == 0 {
        None
    } else if first_row_is_header(rows[0]) {
        Some(rows[0])
    } else if rows.len() > 1 {
        Some(rows[1])
    } else {
        Some(Seq::empty())
    }
}

/// A first cell that holds the marker text anywhere, with or without other
/// text around it, makes the first row the header row.
pub proof fn marker_marks_header(first: Seq<Seq<char>>, before: Seq<char>, after: Seq<char>)
    requires
        first.len() > 0,
        first[0] == before + "Labnumber"@ + after,
    ensures
        first_row_is_header(first),
{
    let marker = "Labnumber"@;
    let at = before.len() as int;
    assert(first[0].subrange(at, at + marker.len()) =~= marker);
    assert(crate::text::occurs_at(first[0], marker, at));
}

/// Which row is the header row: the first row whenever it carries the
/// marker, even when it is the only row; otherwise the second row, or no
/// columns at all when there is no second row.
pub proof fn header_row_choice(rows: Seq<Seq<Seq<char>>>)
    ensures
        rows.len() >= 1 && first_row_is_header(rows[0]) ==> header_row(rows) == Some(rows[0]),
        rows.len() >= 2 && !first_row_is_header(rows[0]) ==> header_row(rows) == Some(rows[1]),
        rows.len() == 1 && !first_row_is_header(rows[0]) ==> header_row(rows) == Some(
            Seq::<Seq<char>>::empty(),
        ),
        rows.len() == 0 <==> header_row(rows) is None,
{
}

/// Row `index` of the worksheet with every cell as text.
///
/// Trusted: calls `calamine::Range::rows`, takes the `index`-th item the
/// iterator yields, and renders each cell with `Data`'s `to_string`. The
/// contract claims that this returns `None` exactly when the worksheet has
/// no such row, and otherwise the texts of that row's cells, left to right.
#[verifier::external_body]
fn row_texts(range: &calamine::Range<calamine::Data>, index: usize) -> (r: Option<Vec<String>>)
    ensures
        match r {
            Some(row) => index < sheet_texts(*range).len() && texts(row@) == sheet_texts(
                *range,
            )[index as int],
            None => index >= sheet_texts(*range).len(),
        },
{
    range.rows().nth(index).map(|row| row.iter().map(|cell| cell.to_string()).collect())
}

/// Decides whether the first row of a worksheet is its header row.
pub fn is_header_row(first: &Vec<String>) -> (r: bool)
    ensures
        r == first_row_is_header(texts(first@)),
{
    first.len() > 0 && contains(first[0].as_str(), "Labnumber")
}

/// The header row of a worksheet, one string per column, in column order.
///
/// Fails only on a worksheet without rows. The second row is read only when
/// the first row does not carry the marker.
pub fn parse_headers(range: &calamine::Range<calamine::Data>) -> (r: Result<
    Vec<String>,
    InputError,
>)
    ensures
        match r {
            Ok(headers) => header_row(sheet_texts(*range)) == Some(texts(headers@)),
            Err(e) => e == InputError::EmptyWorksheet && header_row(sheet_texts(*range)) is None,
        },
{
    match row_texts(range, 0) {
        None => Err(InputError::EmptyWorksheet),
        Some(first) => {
            if is_header_row(&first) {
                Ok(first)
            } else {
                match row_texts(range, 1) {
                    Some(second) => Ok(second),
                    None => {
                        let none: Vec<String> = Vec::new();
                        assert(texts(none@) =~= Seq::<Seq<char>>::empty());
                        Ok(none)
                    },
                }
            }
        },
    }
}

} // verus!
