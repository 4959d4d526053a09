use vstd::prelude::*;
use crate::auth::{authorize, header_token, header_well_formed, token_signature_ok};
use crate::errors::ApiError;
use crate::store::{spec_read_stock, spec_set_stock, InventoryRecord, InventoryTable};

verus! {

/// The read endpoint after the authorization decision: a rejected request answers
/// `Unauthorized` without reaching the table; an authorized one answers
/// exactly what the table holds.
pub open spec fn spec_respond_get(authorized: bool, m: Map<i32, i32>, product_id: i32) -> Result<
    InventoryRecord,
    ApiError,
> {
    if authorized {
        spec_read_stock(m, product_id)
    } else {
        Err(ApiError::Unauthorized)
    }
}

/// The write endpoint after the authorization decision: a rejected request answers
/// `Unauthorized` and leaves the table as it was; an authorized one performs
/// the validated upsert.
pub open spec fn spec_respond_set(
    authorized: bool,
    m: Map<i32, i32>,
    product_id: i32,
    stock: i32,
) -> (Map<i32, i32>, Result<InventoryRecord, ApiError>) {
    if authorized {
        spec_set_stock(m, product_id, stock)
    } else {
        (m, Err(ApiError::Unauthorized))
    }
}

/// Answers a read request for a gate decision already taken; exact for every
/// value of that decision.
pub fn respond_get(authorized: bool, table: &InventoryTable, product_id: i32) -> (r: Result<
    InventoryRecord,
    ApiError,
>)
    ensures
        r == spec_respond_get(authorized, table@, product_id),
{
    if authorized {
        table.read_stock(product_id)
    } else {
        Err(ApiError::Unauthorized)
    }
}

/// Answers a write request for a gate decision already taken; exact for every
/// value of that decision.
pub fn respond_set(authorized: bool, table: &mut InventoryTable, product_id: i32, stock: i32) -> (r:
    Result<InventoryRecord, ApiError>)
    ensures
        r == spec_respond_set(authorized, old(table)@, product_id, stock).1,
        final(table)@ == spec_respond_set(authorized, old(table)@, product_id, stock).0,
        old(table).wf() ==> final(table).wf(),
{
    if authorized {
        table.set_stock(product_id, stock)
    } else {
        Err(ApiError::Unauthorized)
    }
}

/// The full read pipeline, from the raw `Authorization` header to the
/// response. A missing or prefix-less header, or a token whose signature does
/// not verify, is always rejected; the table is read only once authorization
/// has succeeded, and every answer is either `Unauthorized` or the exact
/// authorized response.
pub fn handle_get(
    header: Option<&str>,
    secret: &[u8],
    table: &InventoryTable,
    product_id: i32,
) -> (r: Result<InventoryRecord, ApiError>)
    ensures
        r == Err::<InventoryRecord, ApiError>(ApiError::Unauthorized) || r == spec_respond_get(
            true,
            table@,
            product_id,
        ),
        !header_well_formed(header) ==> r == Err::<InventoryRecord, ApiError>(
            ApiError::Unauthorized,
        ),
        !token_signature_ok(header_token(header), secret@) ==> r == Err::<
            InventoryRecord,
            ApiError,
        >(ApiError::Unauthorized),
        r is Ok ==> header_well_formed(header) && token_signature_ok(
            header_token(header),
            secret@,
        ),
{
    match authorize(header, secret) {
        Ok(()) => respond_get(true, table, product_id),
        Err(e) => Err(e),
    }
}

/// The full write pipeline, from the raw `Authorization` header to the
/// response. A rejected request — missing header, bad prefix, bad signature,
/// expired token — leaves the table exactly as it was; so does a negative
/// stock, which can only be answered with a rejection. An authorized request
/// performs the validated upsert and answers with the record as persisted.
pub fn handle_post(
    header: Option<&str>,
    secret: &[u8],
    table: &mut InventoryTable,
    product_id: i32,
    stock: i32,
) -> (r: Result<InventoryRecord, ApiError>)
    ensures
        (r == Err::<InventoryRecord, ApiError>(ApiError::Unauthorized) && final(table)@ == old(
            table,
        )@) || (r == spec_respond_set(true, old(table)@, product_id, stock).1 && final(table)@
            == spec_respond_set(true, old(table)@, product_id, stock).0),
        !header_well_formed(header) ==> r == Err::<InventoryRecord, ApiError>(
            ApiError::Unauthorized,
        ) && final(table)@ == old(table)@,
        !token_signature_ok(header_token(header), secret@) ==> r == Err::<
            InventoryRecord,
            ApiError,
        >(ApiError::Unauthorized) && final(table)@ == old(table)@,
        r is Ok ==> header_well_formed(header) && token_signature_ok(
            header_token(header),
            secret@,
        ),
        stock < 0 ==> r is Err && final(table)@ == old(table)@,
        r is Err ==> final(table)@ == old(table)@,
        old(table).wf() ==> final(table).wf(),
{
    match authorize(header, secret) {
        Ok(()) => respond_set(true, table, product_id, stock),
        Err(e) => Err(e),
    }
}

} // verus!
