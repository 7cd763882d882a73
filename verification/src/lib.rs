//! Signing in to the Brightwheel service and synchronising the photos and
//! videos of a guardian's children to disk, as decisions without I/O: the
//! library says what to send, what to make of a reply and what to write;
//! a driver around it does the sending and the writing.

pub mod activity;
pub mod auth;
pub mod brightwheel;
pub mod fault;
pub mod json;
pub mod naming;
pub mod sync;

use crate::auth::{AuthState, AuthView};
use vstd::prelude::*;

verus! {

/// Gives the state that the process begins in. `session` holds the cookie
/// jar: where the jar was restored from the file of an earlier process, the
/// state is `LoggedIn` and nothing is to be sent; else it is `Start`.
pub fn run<S>(session: S, cookies_restored: bool) -> (state: AuthState<S>)
    ensures
        state@ == AuthView::at_startup(session, cookies_restored),
{
    if cookies_restored {
        AuthState::LoggedIn { session }
    } else {
        AuthState::Start { session }
    }
}

} // verus!
