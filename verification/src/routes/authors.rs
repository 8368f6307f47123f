//! Requests about authors and the decisions that answer them.
//!
//! Each handler is split where it meets the store. The functions that end
//! in a participle (`authors_listed`, `author_shown`, `author_created`,
//! `author_deleted`) take what a store has answered and decide the outcome;
//! they serve any store. The handlers themselves (`authors_index`,
//! `show_author`, `create_author`, `delete_author`) run the whole request
//! against a [`MemoryStore`].

use crate::identifier::{id_of_text, parse_id};
use crate::models::author::{author_views, Author};
use crate::response::{
    respond, response_to, Body, BodyView, Outcome, OutcomeView, Response, Status,
};
use crate::store::{MemoryStore, StoreError, StoreState};
use crate::validations::author::{is_new_author, new_author_rejection, NewAuthor};
use vstd::prelude::*;

verus! {

/// The raw fields of a request to create an author, as they were decoded.
#[derive(Debug, PartialEq, Eq)]
pub struct NewAuthorData {
    pub name: String,
    pub nationality: String,
}

/// The body of a request to delete an author: the text of its identifier.
#[derive(Debug, PartialEq, Eq)]
pub struct AuthorId {
    pub id: String,
}

/// The body that confirms a new author with identifier `id`.
pub open spec fn author_created_body(id: u128) -> BodyView {
    BodyView::Created { message: "Author created successfully!"@, id_key: "author_id"@, id }
}

/// The message that confirms that an author was deleted.
pub open spec fn author_deleted_message() -> Seq<char> {
    "Author deleted successfully!"@
}

/// The message that says that the author to delete was not there.
pub open spec fn author_missing_message() -> Seq<char> {
    "Author to be deleted not found"@
}

/// The outcome of listing, given the rows that the store returned: success
/// with those rows, in their order.
pub fn authors_listed(rows: Vec<Author>) -> (r: Outcome)
    ensures
        r@ == OutcomeView::Success(BodyView::Authors(author_views(rows@))),
{
    Outcome::Success(Body::Authors(rows))
}

/// The outcome of showing, given what the store's lookup returned: the
/// author, or a rejection with the text of the lookup's error.
pub fn author_shown(found: Result<Author, String>) -> (r: Outcome)
    ensures
        r@ == match found {
            Ok(author) => OutcomeView::Success(BodyView::Author(author@)),
            Err(error) => OutcomeView::Rejected(error@),
        },
{
    match found {
        Ok(author) => Outcome::Success(Body::Author(author)),
        Err(error) => Outcome::Rejected(error),
    }
}

/// The outcome of creating, given what the store's insert returned: the
/// confirmation with the new identifier, or a failure with the text of the
/// store's error.
pub fn author_created(inserted: Result<u128, String>) -> (r: Outcome)
    ensures
        r@ == match inserted {
            Ok(id) => OutcomeView::Success(author_created_body(id)),
            Err(error) => OutcomeView::Failed(error@),
        },
{
    match inserted {
        Ok(id) => Outcome::Success(
            Body::Created {
                message: String::from_str("Author created successfully!"),
                id_key: String::from_str("author_id"),
                id,
            },
        ),
        Err(error) => Outcome::Failed(error),
    }
}

/// The outcome of deleting, given how many rows the store's delete
/// removed: the confirmation where it was exactly one, not found for any
/// other count, or a failure with the text of the store's error.
pub fn author_deleted(removed: Result<u64, String>) -> (r: Outcome)
    ensures
        r@ == match removed {
            Ok(rows) => if rows == 1 {
                OutcomeView::Success(BodyView::Message(author_deleted_message()))
            } else {
                OutcomeView::NotFound(author_missing_message())
            },
            Err(error) => OutcomeView::Failed(error@),
        },
{
    match removed {
        Ok(rows) => if rows == 1 {
            Outcome::Success(Body::Message(String::from_str("Author deleted successfully!")))
        } else {
            Outcome::NotFound(String::from_str("Author to be deleted not found"))
        },
        Err(error) => Outcome::Failed(error),
    }
}

/// How listing the authors of `store` ends.
pub open spec fn authors_index_outcome(store: StoreState) -> OutcomeView {
    OutcomeView::Success(BodyView::Authors(store.authors))
}

/// How showing the author with identifier `id` ends.
pub open spec fn show_author_outcome(store: StoreState, id: u128) -> OutcomeView {
    match store.author_by_id(id) {
        Some(author) => OutcomeView::Success(BodyView::Author(author)),
        None => OutcomeView::Rejected(StoreError::RowNotFound.text()),
    }
}

/// How creating an author from `name` and `nationality` ends: rejected
/// where a field is not valid; else failed where the store has no
/// identifier left; else confirmed, with the store's next identifier.
pub open spec fn create_author_outcome(
    store: StoreState,
    name: Seq<char>,
    nationality: Seq<char>,
) -> OutcomeView {
    if !is_new_author(name, nationality) {
        OutcomeView::Rejected(new_author_rejection(name, nationality))
    } else if store.is_full() {
        OutcomeView::Failed(StoreError::IdentifiersExhausted.text())
    } else {
        OutcomeView::Success(author_created_body(store.next_id))
    }
}

/// The store after creating an author: one row more where the creation
/// succeeded, else the same store.
pub open spec fn create_author_store(
    store: StoreState,
    name: Seq<char>,
    nationality: Seq<char>,
    created_at: i64,
) -> StoreState {
    if create_author_outcome(store, name, nationality) is Success {
        store.with_author(name, nationality, created_at)
    } else {
        store
    }
}

/// How deleting the author with identifier `id` ends.
pub open spec fn delete_author_outcome(store: StoreState, id: u128) -> OutcomeView {
    if store.has_author(id) {
        OutcomeView::Success(BodyView::Message(author_deleted_message()))
    } else {
        OutcomeView::NotFound(author_missing_message())
    }
}

/// Deleting an author that the store does not hold is answered with "not
/// found" and leaves the store as it was.
pub proof fn lemma_delete_missing_author(store: StoreState, id: u128)
    requires
        !store.has_author(id),
    ensures
        response_to(delete_author_outcome(store, id)).status == Status::NotFound,
        store.without_author(id) == store,
{
}

/// Deleting an author that the store holds removes that row and no other,
/// and is confirmed; deleting the same identifier once more is answered
/// with "not found" and changes nothing further.
pub proof fn lemma_delete_author_once(store: StoreState, id: u128)
    requires
        store.well_formed(),
        store.has_author(id),
    ensures
        response_to(delete_author_outcome(store, id)).status == Status::Success,
        store.without_author(id).authors == store.authors.remove(store.author_index(id)),
        store.without_author(id).authors.len() == store.authors.len() - 1,
        store.without_author(id).books == store.books,
        store.without_author(id).users == store.users,
        !store.without_author(id).has_author(id),
        response_to(delete_author_outcome(store.without_author(id), id)).status
            == Status::NotFound,
        store.without_author(id).without_author(id) == store.without_author(id),
{
}

/// A request with a field that is not valid never reaches the store: it is
/// answered as a bad request and no author is inserted.
pub proof fn lemma_invalid_author_changes_nothing(
    store: StoreState,
    name: Seq<char>,
    nationality: Seq<char>,
    created_at: i64,
)
    requires
        !is_new_author(name, nationality),
    ensures
        response_to(create_author_outcome(store, name, nationality)).status
            == Status::BadRequest,
        create_author_store(store, name, nationality, created_at) == store,
{
}

/// Lists every author, in the store's order. This always succeeds.
pub fn authors_index(store: &MemoryStore) -> (r: Response)
    ensures
        r@ == response_to(authors_index_outcome(store@)),
        store@.well_formed(),
{
    respond(authors_listed(store.authors()))
}

/// Shows the author whose identifier `input` spells. A text that spells no
/// identifier finds nothing.
pub fn show_author(input: String, store: &MemoryStore) -> (r: Response)
    ensures
        r@ == response_to(show_author_outcome(store@, id_of_text(input@))),
        store@.well_formed(),
{
    let found = match store.author(parse_id(input.as_str())) {
        Ok(author) => Ok(author),
        Err(error) => Err(error.message()),
    };
    respond(author_shown(found))
}

/// Creates an author. The store is touched only once both fields have
/// passed.
pub fn create_author(input: NewAuthorData, store: &mut MemoryStore, created_at: i64) -> (r:
    Response)
    ensures
        r@ == response_to(create_author_outcome(old(store)@, input.name@, input.nationality@)),
        final(store)@ == create_author_store(
            old(store)@,
            input.name@,
            input.nationality@,
            created_at,
        ),
        old(store)@.well_formed() && final(store)@.well_formed(),
{
    store.known_well_formed();
    let new_author = match NewAuthor::try_from(input) {
        Ok(value) => value,
        Err(reason) => {
            return respond(Outcome::Rejected(reason));
        },
    };
    let inserted = match store.insert_author(
        new_author.name.as_ref(),
        new_author.nationality.as_ref(),
        created_at,
    ) {
        Ok(id) => Ok(id),
        Err(error) => Err(error.message()),
    };
    respond(author_created(inserted))
}

/// Deletes the author whose identifier the request spells, and no other
/// row. A text that spells no identifier deletes nothing.
pub fn delete_author(input: AuthorId, store: &mut MemoryStore) -> (r: Response)
    ensures
        r@ == response_to(delete_author_outcome(old(store)@, id_of_text(input.id@))),
        final(store)@ == old(store)@.without_author(id_of_text(input.id@)),
        old(store)@.well_formed() && final(store)@.well_formed(),
{
    store.known_well_formed();
    let removed = store.delete_author(parse_id(input.id.as_str()));
    respond(author_deleted(Ok(removed)))
}

} // verus!
