//! Authors as the store keeps them.

use vstd::prelude::*;

verus! {

/// A stored author. The identifier is the 128-bit value of its UUID, and the
/// time of creation is counted in microseconds since the Unix epoch.
#[derive(Debug, PartialEq, Eq)]
pub struct Author {
    pub id: u128,
    pub name: String,
    pub nationality: String,
    pub created_at: i64,
}

/// What an [`Author`] holds, with its texts as sequences of characters.
pub struct AuthorView {
    pub id: u128,
    pub name: Seq<char>,
    pub nationality: Seq<char>,
    pub created_at: i64,
}

impl View for Author {
    type V = AuthorView;

    open spec fn view(&self) -> AuthorView {
        AuthorView {
            id: self.id,
            name: self.name@,
            nationality: self.nationality@,
            created_at: self.created_at,
        }
    }
}

impl Clone for Author {
    fn clone(&self) -> (r: Self)
        ensures
            r@ == self@,
    {
        Author {
            id: self.id,
            name: self.name.clone(),
            nationality: self.nationality.clone(),
            created_at: self.created_at,
        }
    }
}

/// The views of a sequence of authors, in the same order.
pub open spec fn author_views(authors: Seq<Author>) -> Seq<AuthorView> {
    authors.map_values(|a: Author| a@)
}

/// The body of a request that names an author by the text of its identifier.
#[derive(Debug, PartialEq, Eq)]
pub struct AuthorId {
    pub id: String,
}

} // verus!
