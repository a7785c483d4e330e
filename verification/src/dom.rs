//! The boundary to the markup-parsing collaborator: the fixed structural
//! patterns, the two selection-and-projection operations on a document
//! (metadata cells by first text fragment, event rows by joined text),
//! and whitespace trimming. Every function here is trusted; parsing and
//! structural selection are deterministic, so each result is named as a
//! function of the document text and the fixed patterns alone, and the
//! verified pipeline's contracts speak of those names.

use vstd::prelude::*;

verus! {

/// Structural pattern for the profile-metadata cells: the leaf cells of
/// the table within the details region.
pub const PERSON_INFORMATION_PATTERN: &'static str = "div.details table.table tbody tr td";

/// Structural pattern for the event rows: the rows of the table within the
/// personal-records region.
pub const RECORD_ROWS_PATTERN: &'static str = "div.personal-records table.table tbody tr";

/// Structural pattern for the cells of one row.
pub const CELL_PATTERN: &'static str = "td";

/// What `str::trim` returns for a given text: the text without its leading
/// and trailing whitespace. The result depends on the characters alone.
pub uninterp spec fn trim_of(s: Seq<char>) -> Seq<char>;

/// Relies on `str::trim`: removes leading and trailing whitespace; a pure
/// function of the characters alone, named by [`trim_of`].
#[verifier::external_body]
pub(crate) fn trim_str(s: &str) -> (r: String)
    ensures
        r@ == trim_of(s@),
{
    s.trim().to_owned()
}

/// What selecting a document's profile-metadata cells with
/// [`PERSON_INFORMATION_PATTERN`] and projecting each by its first text
/// fragment yields, in document order. Parsing, selection and text
/// traversal are deterministic, so the cell texts are a function of the
/// document text and the fixed pattern alone.
pub uninterp spec fn info_cells_of(body: Seq<char>) -> Seq<Seq<char>>;

/// Relies on `scraper::Html::parse_document`, `scraper::Selector::parse`,
/// `scraper::Html::select` and `scraper::ElementRef::text`: the first text
/// fragment (or empty text for a cell without one) of each cell matching
/// [`PERSON_INFORMATION_PATTERN`], in document order, named by
/// [`info_cells_of`]. The fixed pattern is a valid selector, so the
/// `unwrap` cannot fail.
#[verifier::external_body]
pub(crate) fn select_info_cells(body: &str) -> (r: Vec<String>)
    ensures
        r.deep_view() == info_cells_of(body@),
{
    let document = scraper::Html::parse_document(body);
    let selector = scraper::Selector::parse(PERSON_INFORMATION_PATTERN).unwrap();
    document
        .select(&selector)
        .map(|td| td.text().next().unwrap_or("").to_owned())
        .collect()
}

/// What selecting a document's event rows with [`RECORD_ROWS_PATTERN`] and
/// projecting each row's cells ([`CELL_PATTERN`]) by the join of all their
/// text fragments, trimmed, yields, in document order — likewise a
/// function of the document text and the fixed patterns alone.
pub uninterp spec fn row_cells_of(body: Seq<char>) -> Seq<Seq<Seq<char>>>;

/// Relies on `scraper::Html::parse_document`, `scraper::Selector::parse`,
/// `scraper::Html::select`, `scraper::ElementRef::select`,
/// `scraper::ElementRef::text` and `str::trim`: for each row matching
/// [`RECORD_ROWS_PATTERN`], the join of each of its cells' text fragments,
/// trimmed, in document order, named by [`row_cells_of`]. The fixed
/// patterns are valid selectors, so the `unwrap`s cannot fail.
#[verifier::external_body]
pub(crate) fn select_row_cells(body: &str) -> (r: Vec<Vec<String>>)
    ensures
        r.deep_view() == row_cells_of(body@),
{
    let document = scraper::Html::parse_document(body);
    let row_selector = scraper::Selector::parse(RECORD_ROWS_PATTERN).unwrap();
    let cell_selector = scraper::Selector::parse(CELL_PATTERN).unwrap();
    document
        .select(&row_selector)
        .map(|tr| {
            tr.select(&cell_selector)
                .map(|td| td.text().collect::<Vec<&str>>().join("").trim().to_owned())
                .collect()
        })
        .collect()
}

} // verus!
