//! The document extraction pipeline: project the profile-metadata cells
//! and the event rows out of the raw document through the trusted
//! selections in [`crate::dom`], and hand the plain cell texts to the
//! verified record assembly in [`crate::extract`].

use vstd::prelude::*;

use crate::dom::{info_cells_of, row_cells_of, select_info_cells, select_row_cells};
use crate::error::{ParseError, ParseErrorV};
use crate::extract::{extract_spec, extract_user_info};
use crate::model::{UserInfo, UserInfoV};

verus! {

/// Extract the competitor profile from a raw HTML document.
///
/// The metadata cells are projected by their first text fragment (icons
/// add markup around the interesting text); the event cells by the join
/// of all their text fragments, trimmed. Both projections are
/// deterministic functions of the document text, named by
/// [`info_cells_of`] and [`row_cells_of`], and the outcome — profile or
/// error alike — is exactly what the verified record assembly
/// ([`extract_spec`]) yields on those selected cell texts.
pub fn parse_html(body: &str) -> (r: Result<UserInfo, ParseError>)
    ensures
        r matches Ok(u) ==> extract_spec(info_cells_of(body@), row_cells_of(body@)) == Ok::<
            UserInfoV,
            ParseErrorV,
        >(u@),
        r matches Err(e) ==> extract_spec(info_cells_of(body@), row_cells_of(body@)) == Err::<
            UserInfoV,
            ParseErrorV,
        >(e@),
{
    let info_cells = select_info_cells(body);
    let rows = select_row_cells(body);
    extract_user_info(&info_cells, &rows)
}

} // verus!
