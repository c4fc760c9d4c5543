//! The loopback half of an OAuth 2.0 authorization-code login with PKCE:
//! the rules that read each browser request, check the anti-forgery state,
//! read the two upstream replies and decide when the attempt ends.
//! The sockets, the outbound calls and the window are driven from outside,
//! one event at a time, through [`listener::Attempt::step`].

use vstd::prelude::*;

pub mod text;
pub mod protocol;
pub mod target;
pub mod upstream;
pub mod listener;
pub mod laws;

verus! {

} // verus!
