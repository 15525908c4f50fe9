//! Resolution of a daemon's response into the shape that the caller asked for.

use vstd::prelude::*;

use exonum_jsonrpc::Response;
use serde::de::DeserializeOwned;

use crate::error::{daemon_error, payload_code, payload_message, ClientError, ErrorView};
use crate::outside::{
    into_result, is_no_result, response_error, response_result, rpc_decode_failure, rpc_no_result,
};

verus! {

/// The classified error of a response that carries a daemon error.
pub open spec fn reported(resp: Response) -> Option<ErrorView> {
    match response_error(resp) {
        Some(v) => Some(daemon_error(payload_code(v), payload_message(v), v)),
        None => None,
    }
}

/// Whether `e` is the escape kind for a response with neither error nor result.
pub open spec fn is_empty_response(e: ClientError) -> bool {
    e matches ClientError::Rpc(x) && rpc_no_result(x)
}

/// Whether `e` is the escape kind for a result that did not fit the requested shape.
pub open spec fn is_shape_mismatch(e: ClientError) -> bool {
    e matches ClientError::Rpc(x) && rpc_decode_failure(x)
}

/// What a call that asks for a mandatory shape returns on `resp`: the daemon's
/// error classified; an error when the result is missing; else the decoded
/// value, or the escape kind where it does not fit the shape.
pub open spec fn resolved<T>(resp: Response, r: Result<T, ClientError>) -> bool {
    &&& reported(resp) is Some ==> r is Err && Some(r->Err_0@) == reported(resp)
    &&& response_error(resp) is None && response_result(resp) is None ==> r is Err
        && is_empty_response(r->Err_0)
    &&& response_error(resp) is None && response_result(resp) is Some && r is Err
        ==> is_shape_mismatch(r->Err_0)
}

/// What a call that asks for an optional shape returns on `resp`: as
/// [`resolved`], but a response with neither error nor result is the absent value.
pub open spec fn resolved_optional<T>(resp: Response, r: Result<Option<T>, ClientError>) -> bool {
    &&& reported(resp) is Some ==> r is Err && Some(r->Err_0@) == reported(resp)
    &&& response_error(resp) is None && response_result(resp) is None ==> r == Ok::<Option<T>, ClientError>(None)
    &&& response_error(resp) is None && response_result(resp) is Some && r is Err
        ==> is_shape_mismatch(r->Err_0)
}

/// A response with neither error nor result is an error for a call that asks
/// for a mandatory shape, and the absent value for one that asks for an
/// optional shape.
pub proof fn lemma_empty_response<T>(
    resp: Response,
    mandatory: Result<T, ClientError>,
    optional: Result<Option<T>, ClientError>,
)
    requires
        response_error(resp) is None,
        response_result(resp) is None,
        resolved(resp, mandatory),
        resolved_optional(resp, optional),
    ensures
        mandatory is Err,
        is_empty_response(mandatory->Err_0),
        optional == Ok::<Option<T>, ClientError>(None),
{
}

/// Turns a daemon's response into a value of the requested shape, or a classified error.
pub fn resolve<T: DeserializeOwned>(response: Response) -> (r: Result<T, ClientError>)
    ensures
        resolved(response, r),
{
    match into_result::<T>(response) {
        Ok(v) => Ok(v),
        Err(e) => Err(ClientError::from_rpc(e)),
    }
}

/// Turns a daemon's response into a value of the requested shape where the
/// daemon may send neither error nor result, which reads as `None`.
pub fn resolve_optional<T: DeserializeOwned>(response: Response) -> (r: Result<Option<T>, ClientError>)
    ensures
        resolved_optional(response, r),
{
    match into_result::<Option<T>>(response) {
        Ok(v) => Ok(v),
        Err(e) => {
            if is_no_result(&e) {
                Ok(None)
            } else {
                Err(ClientError::from_rpc(e))
            }
        },
    }
}

/// Turns the response to a call whose only news is success, such as an import
/// of an address, into `Ok(())`: whether the daemon sends `true`, `false`,
/// `null`, or neither error nor result.
pub fn resolve_acknowledged(response: Response) -> (r: Result<(), ClientError>)
    ensures
        reported(response) is Some ==> r is Err && Some(r->Err_0@) == reported(response),
        response_error(response) is None && response_result(response) is None ==> r is Ok,
        response_error(response) is None && response_result(response) is Some && r is Err
            ==> is_shape_mismatch(r->Err_0),
{
    match resolve_optional::<bool>(response) {
        Ok(_) => Ok(()),
        Err(e) => Err(e),
    }
}

} // verus!
