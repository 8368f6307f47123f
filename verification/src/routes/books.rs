//! Requests about books and the decisions that answer them.
//!
//! As for authors, the functions that end in a participle take what a store
//! has answered and decide the outcome, and the handlers run the whole
//! request against a [`MemoryStore`]. Creating a book asks the store twice:
//! first for the author of the given name, then to insert the book.

use crate::identifier::{id_of_text, parse_id};
use crate::models::author::Author;
use crate::models::book::{details_views, BookDetails};
use crate::response::{
    respond, response_to, Body, BodyView, Outcome, OutcomeView, Response, Status,
};
use crate::store::{MemoryStore, StoreError, StoreState};
use crate::validations::book::{is_new_book, new_book_rejection, NewBook};
use vstd::prelude::*;

verus! {

/// The raw fields of a request to create a book, as they were decoded. The
/// author is given by name.
#[derive(Debug, PartialEq, Eq)]
pub struct NewBookData {
    pub title: String,
    pub author: String,
    pub genre: String,
}

/// The body of a request to delete a book: the text of its identifier.
#[derive(Debug, PartialEq, Eq)]
pub struct BookId {
    pub id: String,
}

/// The body that confirms a new book with identifier `id`.
pub open spec fn book_created_body(id: u128) -> BodyView {
    BodyView::Created { message: "Book created successfully!"@, id_key: "book_id"@, id }
}

/// The message that confirms that a book was deleted.
pub open spec fn book_deleted_message() -> Seq<char> {
    "Book deleted successfully!"@
}

/// The message that says that the book to delete was not there.
pub open spec fn book_missing_message() -> Seq<char> {
    "Book to be deleted not found"@
}

/// The outcome of listing, given the rows that the store returned: success
/// with those rows, in their order.
pub fn books_listed(rows: Vec<BookDetails>) -> (r: Outcome)
    ensures
        r@ == OutcomeView::Success(BodyView::Books(details_views(rows@))),
{
    Outcome::Success(Body::Books(rows))
}

/// The outcome of showing, given what the store's lookup returned: the
/// book, or a rejection with the text of the lookup's error.
pub fn book_shown(found: Result<BookDetails, String>) -> (r: Outcome)
    ensures
        r@ == match found {
            Ok(book) => OutcomeView::Success(BodyView::Book(book@)),
            Err(error) => OutcomeView::Rejected(error@),
        },
{
    match found {
        Ok(book) => Outcome::Success(Body::Book(book)),
        Err(error) => Outcome::Rejected(error),
    }
}

/// Resolves the author of a new book, given what the store's lookup by
/// name returned: the identifier of the author found, or a rejection with
/// the text of the lookup's error.
pub fn author_resolved(found: Result<Author, String>) -> (r: Result<u128, Outcome>)
    ensures
        match found {
            Ok(author) => r == Ok::<u128, Outcome>(author.id),
            Err(error) => r is Err && r->Err_0@ == OutcomeView::Rejected(error@),
        },
{
    match found {
        Ok(author) => Ok(author.id),
        Err(error) => Err(Outcome::Rejected(error)),
    }
}

/// The outcome of creating, given what the store's insert returned: the
/// confirmation with the new identifier, or a failure with the text of the
/// store's error.
pub fn book_created(inserted: Result<u128, String>) -> (r: Outcome)
    ensures
        r@ == match inserted {
            Ok(id) => OutcomeView::Success(book_created_body(id)),
            Err(error) => OutcomeView::Failed(error@),
        },
{
    match inserted {
        Ok(id) => Outcome::Success(
            Body::Created {
                message: String::from_str("Book created successfully!"),
                id_key: String::from_str("book_id"),
                id,
            },
        ),
        Err(error) => Outcome::Failed(error),
    }
}

/// The outcome of deleting, given how many rows the store's delete
/// removed: the confirmation where it was exactly one, not found for any
/// other count, or a failure with the text of the store's error.
pub fn book_deleted(removed: Result<u64, String>) -> (r: Outcome)
    ensures
        r@ == match removed {
            Ok(rows) => if rows == 1 {
                OutcomeView::Success(BodyView::Message(book_deleted_message()))
            } else {
                OutcomeView::NotFound(book_missing_message())
            },
            Err(error) => OutcomeView::Failed(error@),
        },
{
    match removed {
        Ok(rows) => if rows == 1 {
            Outcome::Success(Body::Message(String::from_str("Book deleted successfully!")))
        } else {
            Outcome::NotFound(String::from_str("Book to be deleted not found"))
        },
        Err(error) => Outcome::Failed(error),
    }
}

/// How listing the books of `store` ends.
pub open spec fn books_index_outcome(store: StoreState) -> OutcomeView {
    OutcomeView::Success(BodyView::Books(store.listing()))
}

/// How showing the book with identifier `id` ends.
pub open spec fn show_book_outcome(store: StoreState, id: u128) -> OutcomeView {
    match store.book_details(id) {
        Some(book) => OutcomeView::Success(BodyView::Book(book)),
        None => OutcomeView::Rejected(StoreError::RowNotFound.text()),
    }
}

/// How creating a book ends: rejected where a field is not valid; else
/// rejected where the store holds no author of the given name; else failed
/// where the store has no identifier left; else confirmed, with the store's
/// next identifier.
pub open spec fn create_book_outcome(
    store: StoreState,
    title: Seq<char>,
    author: Seq<char>,
    genre: Seq<char>,
) -> OutcomeView {
    if !is_new_book(title, author, genre) {
        OutcomeView::Rejected(new_book_rejection(title, author, genre))
    } else if store.author_named(author) is None {
        OutcomeView::Rejected(StoreError::RowNotFound.text())
    } else if store.is_full() {
        OutcomeView::Failed(StoreError::IdentifiersExhausted.text())
    } else {
        OutcomeView::Success(book_created_body(store.next_id))
    }
}

/// The store after creating a book: one row more, which refers to the
/// author that the name resolved to, where the creation succeeded; else the
/// same store.
pub open spec fn create_book_store(
    store: StoreState,
    title: Seq<char>,
    author: Seq<char>,
    genre: Seq<char>,
    created_at: i64,
) -> StoreState {
    if create_book_outcome(store, title, author, genre) is Success {
        store.with_book(title, genre, store.author_named(author)->0.id, created_at)
    } else {
        store
    }
}

/// How deleting the book with identifier `id` ends.
pub open spec fn delete_book_outcome(store: StoreState, id: u128) -> OutcomeView {
    if store.has_book(id) {
        OutcomeView::Success(BodyView::Message(book_deleted_message()))
    } else {
        OutcomeView::NotFound(book_missing_message())
    }
}

/// A book whose author's name the store does not hold is not created: the
/// request is answered as a bad request, valid or not, and the store stays
/// as it was.
pub proof fn lemma_book_of_unknown_author(
    store: StoreState,
    title: Seq<char>,
    author: Seq<char>,
    genre: Seq<char>,
    created_at: i64,
)
    requires
        !store.has_author_named(author),
    ensures
        response_to(create_book_outcome(store, title, author, genre)).status
            == Status::BadRequest,
        response_to(create_book_outcome(store, title, author, genre)).status.is_client_error(),
        create_book_store(store, title, author, genre, created_at) == store,
{
}

/// A book that is created is the last row of the store after, and it
/// refers to the author that the name given resolves to, which the store
/// holds.
pub proof fn lemma_new_book_has_its_author(
    store: StoreState,
    title: Seq<char>,
    author: Seq<char>,
    genre: Seq<char>,
    created_at: i64,
)
    requires
        store.well_formed(),
        create_book_outcome(store, title, author, genre) is Success,
    ensures
        ({
            let after = create_book_store(store, title, author, genre, created_at);
            let book = after.books.last();
            &&& after.well_formed()
            &&& after.books == store.books.push(book)
            &&& after.authors == store.authors
            &&& book.id == store.next_id
            &&& book.title == title
            &&& book.genre == genre
            &&& book.created_at == created_at
            &&& after.author_by_id(book.author_id) == store.author_named(author)
            &&& after.author_by_id(book.author_id)->0.name == author
        }),
{
    let after = create_book_store(store, title, author, genre, created_at);
    let book = after.books.last();
    store.lemma_with_book_well_formed(title, genre, book.author_id, created_at);
    let i = choose|i: int| store.first_named_at(author, i);
    after.lemma_author_index_unique(book.author_id, i);
}

/// Deleting a book that the store does not hold is answered with "not
/// found" and leaves the store as it was.
pub proof fn lemma_delete_missing_book(store: StoreState, id: u128)
    requires
        !store.has_book(id),
    ensures
        response_to(delete_book_outcome(store, id)).status == Status::NotFound,
        store.without_book(id) == store,
{
}

/// Deleting a book that the store holds removes that row and no other, and
/// is confirmed; deleting the same identifier once more is answered with
/// "not found" and changes nothing further.
pub proof fn lemma_delete_book_once(store: StoreState, id: u128)
    requires
        store.well_formed(),
        store.has_book(id),
    ensures
        response_to(delete_book_outcome(store, id)).status == Status::Success,
        store.without_book(id).books == store.books.remove(store.book_index(id)),
        store.without_book(id).books.len() == store.books.len() - 1,
        store.without_book(id).authors == store.authors,
        store.without_book(id).users == store.users,
        !store.without_book(id).has_book(id),
        response_to(delete_book_outcome(store.without_book(id), id)).status == Status::NotFound,
        store.without_book(id).without_book(id) == store.without_book(id),
{
}

/// Lists every book whose author the store holds, with the author's name,
/// in the store's order. This always succeeds.
pub fn books_index(store: &MemoryStore) -> (r: Response)
    ensures
        r@ == response_to(books_index_outcome(store@)),
        store@.well_formed(),
{
    respond(books_listed(store.books()))
}

/// Shows the book whose identifier `info` spells. A text that spells no
/// identifier finds nothing.
pub fn show_book(info: String, store: &MemoryStore) -> (r: Response)
    ensures
        r@ == response_to(show_book_outcome(store@, id_of_text(info@))),
        store@.well_formed(),
{
    let found = match store.book(parse_id(info.as_str())) {
        Ok(book) => Ok(book),
        Err(error) => Err(error.message()),
    };
    respond(book_shown(found))
}

/// Creates a book. The store is asked for the author only once all three
/// fields have passed, and the book is inserted only once the author is
/// found.
pub fn create_book(input: NewBookData, store: &mut MemoryStore, created_at: i64) -> (r: Response)
    ensures
        r@ == response_to(
            create_book_outcome(old(store)@, input.title@, input.author@, input.genre@),
        ),
        final(store)@ == create_book_store(
            old(store)@,
            input.title@,
            input.author@,
            input.genre@,
            created_at,
        ),
        old(store)@.well_formed() && final(store)@.well_formed(),
{
    store.known_well_formed();
    let new_book = match NewBook::try_from(input) {
        Ok(value) => value,
        Err(reason) => {
            return respond(Outcome::Rejected(reason));
        },
    };
    let found = match store.author_named(new_book.author.as_ref()) {
        Ok(author) => Ok(author),
        Err(error) => Err(error.message()),
    };
    let author_id = match author_resolved(found) {
        Ok(id) => id,
        Err(outcome) => {
            return respond(outcome);
        },
    };
    proof {
        store@.lemma_named_author_is_held(input.author@);
    }
    let inserted = match store.insert_book(
        new_book.title.as_ref(),
        new_book.genre.as_ref(),
        author_id,
        created_at,
    ) {
        Ok(id) => Ok(id),
        Err(error) => Err(error.message()),
    };
    respond(book_created(inserted))
}

/// Deletes the book whose identifier the request spells, and no other row.
/// A text that spells no identifier deletes nothing.
pub fn delete_book(input: BookId, store: &mut MemoryStore) -> (r: Response)
    ensures
        r@ == response_to(delete_book_outcome(old(store)@, id_of_text(input.id@))),
        final(store)@ == old(store)@.without_book(id_of_text(input.id@)),
        old(store)@.well_formed() && final(store)@.well_formed(),
{
    store.known_well_formed();
    let removed = store.delete_book(parse_id(input.id.as_str()));
    respond(book_deleted(Ok(removed)))
}

} // verus!
