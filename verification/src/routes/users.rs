//! Requests about users and the decisions that answer them.

use crate::response::{
    respond, response_to, Body, BodyView, Outcome, OutcomeView, Response, Status,
};
use crate::store::{MemoryStore, StoreError, StoreState};
use crate::validations::user::{is_new_user, new_user_rejection, NewUser};
use vstd::prelude::*;

verus! {

/// The raw fields of a request to register a user, as they were decoded.
#[derive(Debug, PartialEq, Eq)]
pub struct NewUserData {
    pub name: String,
    pub email: String,
}

/// The body that confirms a new user with identifier `id`.
pub open spec fn user_created_body(id: u128) -> BodyView {
    BodyView::Created { message: "User created successfully!"@, id_key: "user_id"@, id }
}

/// The outcome of creating, given what the store's insert returned: the
/// confirmation with the new identifier, or a failure with the text of the
/// store's error.
pub fn user_created(inserted: Result<u128, String>) -> (r: Outcome)
    ensures
        r@ == match inserted {
            Ok(id) => OutcomeView::Success(user_created_body(id)),
            Err(error) => OutcomeView::Failed(error@),
        },
{
    match inserted {
        Ok(id) => Outcome::Success(
            Body::Created {
                message: String::from_str("User created successfully!"),
                id_key: String::from_str("user_id"),
                id,
            },
        ),
        Err(error) => Outcome::Failed(error),
    }
}

/// How registering a user from `name` and `email` ends: rejected where a
/// field is not valid; else failed where the store has no identifier left;
/// else confirmed, with the store's next identifier.
pub open spec fn create_user_outcome(
    store: StoreState,
    name: Seq<char>,
    email: Seq<char>,
) -> OutcomeView {
    if !is_new_user(name, email) {
        OutcomeView::Rejected(new_user_rejection(name, email))
    } else if store.is_full() {
        OutcomeView::Failed(StoreError::IdentifiersExhausted.text())
    } else {
        OutcomeView::Success(user_created_body(store.next_id))
    }
}

/// The store after registering a user: one row more where the registration
/// succeeded, else the same store.
pub open spec fn create_user_store(
    store: StoreState,
    name: Seq<char>,
    email: Seq<char>,
    created_at: i64,
) -> StoreState {
    if create_user_outcome(store, name, email) is Success {
        store.with_user(name, email, created_at)
    } else {
        store
    }
}

/// A request with a field that is not valid never reaches the store: it is
/// answered as a bad request and no user is inserted.
pub proof fn lemma_invalid_user_changes_nothing(
    store: StoreState,
    name: Seq<char>,
    email: Seq<char>,
    created_at: i64,
)
    requires
        !is_new_user(name, email),
    ensures
        response_to(create_user_outcome(store, name, email)).status == Status::BadRequest,
        create_user_store(store, name, email, created_at) == store,
{
}

/// Registers a user. The store is touched only once both fields have
/// passed.
pub fn create_user(input: NewUserData, store: &mut MemoryStore, created_at: i64) -> (r: Response)
    ensures
        r@ == response_to(create_user_outcome(old(store)@, input.name@, input.email@)),
        final(store)@ == create_user_store(old(store)@, input.name@, input.email@, created_at),
        old(store)@.well_formed() && final(store)@.well_formed(),
{
    store.known_well_formed();
    let new_user = match NewUser::try_from(input) {
        Ok(value) => value,
        Err(reason) => {
            return respond(Outcome::Rejected(reason));
        },
    };
    let inserted = match store.insert_user(
        new_user.name.as_ref(),
        new_user.email.as_ref(),
        created_at,
    ) {
        Ok(id) => Ok(id),
        Err(error) => Err(error.message()),
    };
    respond(user_created(inserted))
}

} // verus!
