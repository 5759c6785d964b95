//! The dashboard's pages: what each one shows and what each of its request
//! handlers decides, apart from reading and writing the database and
//! rendering templates.

pub mod partial;
pub mod app;
pub mod env;
pub mod source;
pub mod key;
pub mod storage;
pub mod machine;
pub mod modal;
pub mod auth;
pub mod account;
pub mod integrations;

use vstd::prelude::*;

verus! {

/// What a page handler answers: the page, or a redirect to another path.
pub enum Outcome<T> {
    Show(T),
    Redirect(String),
}

} // verus!
