//! Sanitised titles and generated statements.

use vstd::prelude::*;
use crate::text::copy_text;

verus! {

/// The HTML `ammonia::clean` leaves of a text: only whitelisted, well-formed markup.
pub uninterp spec fn ammonia_clean(s: Seq<char>) -> Seq<char>;

/// Sanitises HTML with `ammonia::clean`. Claimed: the result is the named cleaning of
/// the text.
#[verifier::external_body]
fn ammonia_clean_text(s: &str) -> (res: String)
    ensures
        res@ == ammonia_clean(s@),
{
    ammonia::clean(s)
}

/// A title as it is stored and looked up: sanitised of unsafe HTML.
pub fn clean_title(title: &str) -> (res: String)
    ensures
        res@ == ammonia_clean(title@),
{
    ammonia_clean_text(title)
}

/// The statement that deletes the row with a given id (bound as `$1`) from a table.
/// The table name is written into the statement as is, so it must be a trusted name.
pub fn delete_by_id_statement(table_name: &str) -> (res: String)
    ensures
        res@ == "DELETE FROM "@ + table_name@ + " WHERE id=$1"@,
{
    let mut query = copy_text("DELETE FROM ");
    query.append(table_name);
    query.append(" WHERE id=$1");
    query
}

} // verus!
