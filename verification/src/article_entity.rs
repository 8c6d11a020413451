//! Articles as data. Their storage and retrieval live in the relational
//! store, an outside collaborator reached from the application layer.

use vstd::prelude::*;

use crate::user_entity::User;

verus! {

/// A published or draft text article.
#[derive(Clone, Debug)]
pub struct Article {
    pub slug: String,
    pub title: String,
    pub content: String,
    pub author: User,
    pub published: bool,
}

/// The payload of a request to create an article; the author arrives as a
/// user id and is resolved to a full [`User`] before storage.
#[derive(Clone, Debug)]
pub struct CreateArticle {
    pub title: String,
    pub slug: String,
    pub content: String,
    pub author: String,
    pub published: bool,
}

} // verus!
