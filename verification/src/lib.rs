//! BlueBird: the verified core of a small social-network backend.
//!
//! The crate holds the rules of the service: who is admitted, what an account,
//! a post, a comment and a friendship are, and how each request changes the
//! stored state. Every function is verified against a mathematical model of
//! that state.
//!
//! - [`state`] is the model: four relations and what each operation makes of
//!   them.
//! - [`store`] holds the relations in memory and implements the operations.
//! - [`handlers`] are the requests: admission, reading the body, the
//!   operation, the answer.
//! - [`laws`] and [`preserve`] state what holds across requests.

pub mod handlers;
pub mod ident;
pub mod laws;
pub mod model;
pub mod preserve;
pub mod response;
pub mod seqs;
pub mod state;
pub mod store;

pub use crate::model::{Comment, CommentEdit, Login, Post, PostEdit, SelfUser, User};
pub use crate::response::{ErrorBody, ErrorKind, Response};
pub use crate::store::{AccountRow, FriendRow, Store};
