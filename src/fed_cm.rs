//! Guards of the web-identity (FedCM) endpoints.
use vstd::prelude::*;
use crate::error::{ErrorResponse, ErrorResponseType};
use crate::text::str_eq;

verus! {

/// Fails unless the web-identity API is switched on.
pub fn is_fed_cm_enabled(enabled: bool) -> (r: Result<(), ErrorResponse>)
    ensures
        enabled <==> r is Ok,
        r matches Err(e) ==> e.error == ErrorResponseType::Internal,
{
    if enabled {
        Ok(())
    } else {
        Err(ErrorResponse::from_str(ErrorResponseType::Internal, "The FedCM API is disabled on this instance"))
    }
}

/// Fails unless the `Sec-Fetch-Dest` header reads `webidentity`. A header
/// that is not visible ASCII is passed as an empty value.
pub fn is_web_identity_fetch(sec_fetch_dest: Option<&str>) -> (r: Result<(), ErrorResponse>)
    ensures
        (sec_fetch_dest matches Some(h) && h@ == "webidentity"@) <==> r is Ok,
        r matches Err(e) ==> e.error == ErrorResponseType::BadRequest,
{
    let ok = match sec_fetch_dest {
        Some(h) => str_eq(h, "webidentity"),
        None => false,
    };
    if ok {
        Ok(())
    } else {
        Err(ErrorResponse::from_str(ErrorResponseType::BadRequest, "Expected header `Sec-Fetch-Dest: webidentity`"))
    }
}

} // verus!
