//! Wire-level response encoding: every action except termination
//! becomes a single-shot response whose content length is the byte
//! length of its fully materialized body.

use vstd::prelude::*;
use vstd::string::*;
use vstd::utf8::encode_utf8;
use crate::service::ResponseAction;

verus! {

/// A complete response as it goes on the wire: status code, optional
/// content type, precomputed content length, and the body bytes.
#[derive(Debug)]
pub struct WireResponse {
    pub status: u16,
    pub content_type: Option<String>,
    pub content_length: u64,
    pub body: Vec<u8>,
}

/// Builds the wire response of an action.  A JSON body is sent as its
/// UTF-8 bytes under `application/json`; an asset under its own
/// content type; not-found is status 404 with an empty body.
/// Termination yields no response at all: the caller must end the
/// process instead of writing to the connection.
pub fn encode(action: ResponseAction) -> (r: Option<WireResponse>)
    ensures
        action matches ResponseAction::ServeJson(body) ==> (r matches Some(w) && w.status == 200
            && (w.content_type matches Some(ct) && ct@ == "application/json"@) && w.body@
            == encode_utf8(body@) && w.content_length == encode_utf8(body@).len()),
        action matches ResponseAction::ServeAsset(content_type, content) ==> (r matches Some(w)
            && w.status == 200 && (w.content_type matches Some(ct) && ct@ == content_type@)
            && w.body@ == content@ && w.content_length == content@.len()),
        action is NotFound ==> (r matches Some(w) && w.status == 404 && w.content_type is None
            && w.body@ == Seq::<u8>::empty() && w.content_length == 0),
        action is Terminate ==> r is None,
{
    match action {
        ResponseAction::ServeJson(body) => {
            let bytes = body.as_str().as_bytes_vec();
            let n = bytes.len();
            Some(
                WireResponse {
                    status: 200,
                    content_type: Some(String::from_str("application/json")),
                    content_length: n as u64,
                    body: bytes,
                },
            )
        },
        ResponseAction::ServeAsset(content_type, content) => {
            let n = content.len();
            Some(
                WireResponse {
                    status: 200,
                    content_type: Some(content_type),
                    content_length: n as u64,
                    body: content,
                },
            )
        },
        ResponseAction::NotFound => {
            let empty: Vec<u8> = Vec::new();
            proof {
                assert(empty@ =~= Seq::<u8>::empty());
            }
            Some(
                WireResponse { status: 404, content_type: None, content_length: 0, body: empty },
            )
        },
        ResponseAction::Terminate => None,
    }
}

} // verus!
