//! The user as the token lifecycle sees it. Storage, password hashing and
//! row mapping belong to the relational user store, an outside collaborator;
//! the lifecycle only ever reads the `id`.

use vstd::prelude::*;

verus! {

/// A registered user. `author` grants the right to create articles.
#[derive(Clone, Debug)]
pub struct User {
    pub id: String,
    pub name: String,
    pub email: String,
    pub author: bool,
}

} // verus!
