//! Link resolution: from the store's answer for a short code to the
//! destination, with absent and inactive links alike reported as not found.

use vstd::prelude::*;

verus! {

/// The columns the store returns for a short code.
#[derive(Clone, Debug, PartialEq, Eq)]
pub struct LinkRow {
    pub original_url: String,
    pub is_active: bool,
}

/// The store could not be reached or could not answer the query.
#[derive(Clone, Debug, PartialEq, Eq)]
pub struct StoreError {
    pub detail: String,
}

/// The destination a row resolves to: its URL when the row exists and is active.
pub open spec fn resolution(row: Option<LinkRow>) -> Option<Seq<char>> {
    match row {
        Some(r) => if r.is_active { Some(r.original_url@) } else { None },
        None => None,
    }
}

/// The destination for the store's row, if the link may be followed.
pub fn resolve_row(row: Option<LinkRow>) -> (r: Option<String>)
    ensures
        r matches Some(u) ==> resolution(row) == Some(u@),
        r is None ==> resolution(row) is None,
{
    match row {
        Some(found) => if found.is_active { Some(found.original_url) } else { None },
        None => None,
    }
}

/// Resolves the store's answer for a short code: errors pass through
/// unchanged, never turned into "not found".
pub fn resolve(lookup: Result<Option<LinkRow>, StoreError>) -> (r: Result<Option<String>, StoreError>)
    ensures
        lookup matches Err(e) ==> r == Err::<Option<String>, StoreError>(e),
        lookup matches Ok(row) ==> (r matches Ok(d) && match d {
            Some(u) => resolution(row) == Some(u@),
            None => resolution(row) is None,
        }),
{
    match lookup {
        Ok(row) => Ok(resolve_row(row)),
        Err(e) => Err(e),
    }
}

/// A code that the store does not hold, or holds inactive, resolves to
/// nothing: the two cases cannot be told apart.
pub proof fn lemma_absent_or_inactive_not_found(row: Option<LinkRow>)
    requires
        row matches Some(r) ==> !r.is_active,
    ensures
        resolution(row) is None,
{
}

/// An active link resolves to exactly the URL the store holds for it.
pub proof fn lemma_active_resolves_to_stored_url(row: LinkRow)
    requires
        row.is_active,
    ensures
        resolution(Some(row)) == Some(row.original_url@),
{
}

} // verus!
