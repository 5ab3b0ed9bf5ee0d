//! Authentication for a container registry and its command line client.
//!
//! Every decision of the authentication flows is a verified function on plain
//! values. A flow that has to talk to somebody in between is a state machine: its
//! state says what is awaited, and `step` takes the answer to the next state.

pub mod clock;
pub mod error;
pub mod extract;
pub mod github;
pub mod header;
pub mod http;
pub mod identity;
pub mod login;
pub mod login_url;
pub mod next;
pub mod routes;
pub mod text;
pub mod token;
pub mod users;
