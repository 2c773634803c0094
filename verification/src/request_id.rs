//! Request ids: every request carries one, its own or a minted one.

use crate::ids::{id_text, id_to_string, is_random_id, new_random_id};
use vstd::prelude::*;
use vstd::string::*;

verus! {

/// The id under which a request is traced and answered.
#[derive(Debug, Clone)]
pub struct RequestId(pub String);

/// The id that a request with the inbound `X-Request-Id` value `inbound` gets
/// when `minted` is the fresh id drawn for it: the inbound value where there
/// is one, the text of the fresh id otherwise.
pub open spec fn chosen_request_id(inbound: Option<Seq<char>>, minted: u128) -> Seq<char> {
    match inbound {
        Some(id) => id,
        None => id_text(minted),
    }
}

/// Adopts the inbound request id, or names the request after `minted`.
pub fn choose_request_id(inbound: Option<String>, minted: u128) -> (r: RequestId)
    ensures
        r.0@ == chosen_request_id(inbound.deep_view(), minted),
{
    match inbound {
        Some(id) => RequestId(id),
        None => RequestId(id_to_string(minted)),
    }
}

/// Adopts the inbound request id, or mints a random one.
pub fn request_id_or_new(inbound: Option<String>) -> (r: RequestId)
    ensures
        inbound matches Some(id) ==> r.0@ == id@,
        inbound is None ==> exists|v: u128| is_random_id(v) && r.0@ == #[trigger] id_text(v),
{
    match inbound {
        Some(id) => RequestId(id),
        None => {
            let fresh = new_random_id();
            choose_request_id(None, fresh)
        },
    }
}

} // verus!
