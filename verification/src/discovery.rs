//! Finding out the address under which this host is seen from outside.

use crate::error::{Error, ErrorView};
use crate::reply::{Reply, ReplyView};
use crate::text::{trim, trimmed};
use crate::view::result_view;
use vstd::prelude::*;

verus! {

/// The service that answers a GET with the caller's public address as plain text.
pub const DISCOVERY_URL: &'static str = "https://api.ipify.org";

/// The address in the reply of the address service: its body without the
/// whitespace around it. A call that failed is a network error, a body that
/// holds nothing but whitespace an empty response.
pub open spec fn discovered_ip_spec(reply: ReplyView) -> Result<Seq<char>, ErrorView> {
    match reply {
        Err(message) => Err(ErrorView::NetworkError(message)),
        Ok(body) => if trimmed(body).len() == 0 {
            Err(ErrorView::EmptyResponseError)
        } else {
            Ok(trimmed(body))
        },
    }
}

/// The address that the address service reported in `reply`.
pub fn discovered_ip(reply: Reply) -> (found: Result<String, Error>)
    ensures
        result_view(found) == discovered_ip_spec(result_view(reply)),
{
    match reply {
        Err(message) => Err(Error::NetworkError(message)),
        Ok(body) => {
            let ip = trim(body.as_str());
            if ip.as_str().unicode_len() == 0 {
                Err(Error::EmptyResponseError)
            } else {
                Ok(ip)
            }
        },
    }
}

} // verus!
