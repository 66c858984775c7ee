//! What stands between the network and the operations: routes, the session
//! token and the guard.

pub mod mw_auth;
pub mod route;
pub mod token;
