//! The two outbound exchanges, as the attempt sees their replies.

use vstd::prelude::*;
use crate::protocol::LoginError;

verus! {

/// What the provider's token endpoint returns.
#[derive(Clone, Debug, PartialEq, Eq)]
pub struct TokenResponse {
    pub access_token: String,
    pub token_type: String,
    pub expires_in: u64,
}

/// A reply that reached us: its status, its body as text, and the body
/// read as `T` (or why it could not be).
#[derive(Debug, PartialEq, Eq)]
pub struct HttpReply<T> {
    pub status: u16,
    pub body: String,
    pub parsed: Result<T, String>,
}

/// Which outbound exchange a reply belongs to.
#[derive(Clone, Copy, Debug, PartialEq, Eq)]
pub enum Upstream {
    Provider,
    Backend,
}

/// A 2xx status.
pub open spec fn is_success(status: u16) -> bool {
    200 <= status <= 299
}

/// A reply that arrived, with a 2xx status and a body that could be read.
pub open spec fn reply_good<T>(r: Result<HttpReply<T>, String>) -> bool {
    r matches Ok(h) && is_success(h.status) && h.parsed is Ok
}

/// The error for a reply that is not good: a transport failure first, then
/// a status outside 2xx (with the body), then a body that could not be read.
pub open spec fn reply_error<T>(r: Result<HttpReply<T>, String>, from: Upstream) -> LoginError {
    match r {
        Err(d) => if from == Upstream::Provider {
            LoginError::TokenTransport(d)
        } else {
            LoginError::BackendTransport(d)
        },
        Ok(h) => if !is_success(h.status) {
            if from == Upstream::Provider {
                LoginError::TokenStatus(h.body)
            } else {
                LoginError::BackendStatus(h.body)
            }
        } else {
            let d = h.parsed->Err_0;
            if from == Upstream::Provider {
                LoginError::TokenParse(d)
            } else {
                LoginError::BackendParse(d)
            }
        },
    }
}

/// Reads one upstream reply: its value where it is good, else its error.
pub fn read_reply<T>(r: Result<HttpReply<T>, String>, from: Upstream) -> (out: Result<T, LoginError>)
    ensures
        reply_good(r) ==> out == Ok::<T, LoginError>(r->Ok_0.parsed->Ok_0),
        !reply_good(r) ==> out == Err::<T, LoginError>(reply_error(r, from)),
{
    match r {
        Err(d) => Err(
            match from {
                Upstream::Provider => LoginError::TokenTransport(d),
                Upstream::Backend => LoginError::BackendTransport(d),
            },
        ),
        Ok(h) => {
            if h.status < 200 || h.status > 299 {
                Err(
                    match from {
                        Upstream::Provider => LoginError::TokenStatus(h.body),
                        Upstream::Backend => LoginError::BackendStatus(h.body),
                    },
                )
            } else {
                match h.parsed {
                    Ok(v) => Ok(v),
                    Err(d) => Err(
                        match from {
                            Upstream::Provider => LoginError::TokenParse(d),
                            Upstream::Backend => LoginError::BackendParse(d),
                        },
                    ),
                }
            }
        },
    }
}

} // verus!
