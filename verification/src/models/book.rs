//! Books as the store keeps them, and as they are shown.

use vstd::prelude::*;

verus! {

/// A stored book. It refers to its author by identifier.
#[derive(Debug, PartialEq, Eq)]
pub struct Book {
    pub id: u128,
    pub title: String,
    pub author_id: u128,
    pub genre: String,
    pub created_at: i64,
}

/// What a [`Book`] holds, with its texts as sequences of characters.
pub struct BookView {
    pub id: u128,
    pub title: Seq<char>,
    pub author_id: u128,
    pub genre: Seq<char>,
    pub created_at: i64,
}

impl View for Book {
    type V = BookView;

    open spec fn view(&self) -> BookView {
        BookView {
            id: self.id,
            title: self.title@,
            author_id: self.author_id,
            genre: self.genre@,
            created_at: self.created_at,
        }
    }
}

impl Clone for Book {
    fn clone(&self) -> (r: Self)
        ensures
            r@ == self@,
    {
        Book {
            id: self.id,
            title: self.title.clone(),
            author_id: self.author_id,
            genre: self.genre.clone(),
            created_at: self.created_at,
        }
    }
}

/// The views of a sequence of books, in the same order.
pub open spec fn book_views(books: Seq<Book>) -> Seq<BookView> {
    books.map_values(|b: Book| b@)
}

/// A book as it is shown to a reader: with the name of its author in place
/// of the author's identifier.
#[derive(Debug, PartialEq, Eq)]
pub struct BookDetails {
    pub id: u128,
    pub title: String,
    pub author: String,
    pub genre: String,
    pub created_at: i64,
}

/// What a [`BookDetails`] holds, with its texts as sequences of characters.
pub struct BookDetailsView {
    pub id: u128,
    pub title: Seq<char>,
    pub author: Seq<char>,
    pub genre: Seq<char>,
    pub created_at: i64,
}

impl View for BookDetails {
    type V = BookDetailsView;

    open spec fn view(&self) -> BookDetailsView {
        BookDetailsView {
            id: self.id,
            title: self.title@,
            author: self.author@,
            genre: self.genre@,
            created_at: self.created_at,
        }
    }
}

/// The views of a sequence of shown books, in the same order.
pub open spec fn details_views(books: Seq<BookDetails>) -> Seq<BookDetailsView> {
    books.map_values(|b: BookDetails| b@)
}

/// The fields from which a book is created; the author is given by name.
#[derive(Debug, PartialEq, Eq)]
pub struct CreateBookData {
    pub title: String,
    pub author: String,
    pub genre: String,
}

/// The body of a request that names a book by the text of its identifier.
#[derive(Debug, PartialEq, Eq)]
pub struct BookId {
    pub id: String,
}

} // verus!
