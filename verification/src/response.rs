//! What a handler found, and the response that it becomes.

use crate::models::author::{author_views, Author, AuthorView};
use crate::models::book::{details_views, BookDetails, BookDetailsView};
use vstd::prelude::*;

verus! {

/// The status of a response.
#[derive(Clone, Copy, Debug, PartialEq, Eq, Structural)]
pub enum Status {
    Success,
    BadRequest,
    NotFound,
    InternalServerError,
}

impl Status {
    /// The status as a number.
    pub open spec fn number(self) -> u16 {
        match self {
            Status::Success => 200,
            Status::BadRequest => 400,
            Status::NotFound => 404,
            Status::InternalServerError => 500,
        }
    }

    /// The request was carried out.
    pub open spec fn is_success(self) -> bool {
        200 <= self.number() < 300
    }

    /// The request cannot be met as it stands.
    pub open spec fn is_client_error(self) -> bool {
        400 <= self.number() < 500
    }

    /// The store let the handler down.
    pub open spec fn is_server_error(self) -> bool {
        500 <= self.number() < 600
    }

    /// Computes [`Status::number`].
    pub fn code(&self) -> (r: u16)
        ensures
            r == self.number(),
    {
        match self {
            Status::Success => 200,
            Status::BadRequest => 400,
            Status::NotFound => 404,
            Status::InternalServerError => 500,
        }
    }
}

/// What a response carries.
#[derive(Debug, PartialEq, Eq)]
pub enum Body {
    /// Nothing.
    Empty,
    /// Plain text.
    Text(String),
    /// An object with the one field `message`.
    Message(String),
    /// An object with the field `message` and, under the name `id_key`, the
    /// identifier of what was created.
    Created { message: String, id_key: String, id: u128 },
    /// One author.
    Author(Author),
    /// An array of authors.
    Authors(Vec<Author>),
    /// One book.
    Book(BookDetails),
    /// An array of books.
    Books(Vec<BookDetails>),
}

/// What a [`Body`] holds, with its texts as sequences of characters.
pub enum BodyView {
    Empty,
    Text(Seq<char>),
    Message(Seq<char>),
    Created { message: Seq<char>, id_key: Seq<char>, id: u128 },
    Author(AuthorView),
    Authors(Seq<AuthorView>),
    Book(BookDetailsView),
    Books(Seq<BookDetailsView>),
}

impl View for Body {
    type V = BodyView;

    open spec fn view(&self) -> BodyView {
        match self {
            Body::Empty => BodyView::Empty,
            Body::Text(text) => BodyView::Text(text@),
            Body::Message(message) => BodyView::Message(message@),
            Body::Created { message, id_key, id } => BodyView::Created {
                message: message@,
                id_key: id_key@,
                id: *id,
            },
            Body::Author(author) => BodyView::Author(author@),
            Body::Authors(authors) => BodyView::Authors(author_views(authors@)),
            Body::Book(book) => BodyView::Book(book@),
            Body::Books(books) => BodyView::Books(details_views(books@)),
        }
    }
}

/// How a handler ended.
#[derive(Debug, PartialEq, Eq)]
pub enum Outcome {
    /// The request was carried out; the body says what came of it.
    Success(Body),
    /// What the request names is not there; the text says so.
    NotFound(String),
    /// The request cannot be met: a field is not valid, or what it refers to
    /// was not found. The text is the reason.
    Rejected(String),
    /// The store failed. The text is the store's error.
    Failed(String),
}

/// What an [`Outcome`] holds, with its texts as sequences of characters.
pub enum OutcomeView {
    Success(BodyView),
    NotFound(Seq<char>),
    Rejected(Seq<char>),
    Failed(Seq<char>),
}

impl View for Outcome {
    type V = OutcomeView;

    open spec fn view(&self) -> OutcomeView {
        match self {
            Outcome::Success(body) => OutcomeView::Success(body@),
            Outcome::NotFound(message) => OutcomeView::NotFound(message@),
            Outcome::Rejected(reason) => OutcomeView::Rejected(reason@),
            Outcome::Failed(error) => OutcomeView::Failed(error@),
        }
    }
}

/// A response: a status and a body.
#[derive(Debug, PartialEq, Eq)]
pub struct Response {
    pub status: Status,
    pub body: Body,
}

/// What a [`Response`] holds.
pub struct ResponseView {
    pub status: Status,
    pub body: BodyView,
}

impl View for Response {
    type V = ResponseView;

    open spec fn view(&self) -> ResponseView {
        ResponseView { status: self.status, body: self.body@ }
    }
}

/// The response to each outcome: success keeps its body; what is not found
/// is said in a `message`; a rejection and a failure give their text as it
/// is.
pub open spec fn response_to(outcome: OutcomeView) -> ResponseView {
    match outcome {
        OutcomeView::Success(body) => ResponseView { status: Status::Success, body },
        OutcomeView::NotFound(message) => ResponseView {
            status: Status::NotFound,
            body: BodyView::Message(message),
        },
        OutcomeView::Rejected(reason) => ResponseView {
            status: Status::BadRequest,
            body: BodyView::Text(reason),
        },
        OutcomeView::Failed(error) => ResponseView {
            status: Status::InternalServerError,
            body: BodyView::Text(error),
        },
    }
}

/// Computes [`response_to`].
pub fn respond(outcome: Outcome) -> (r: Response)
    ensures
        r@ == response_to(outcome@),
{
    match outcome {
        Outcome::Success(body) => Response { status: Status::Success, body },
        Outcome::NotFound(message) => Response {
            status: Status::NotFound,
            body: Body::Message(message),
        },
        Outcome::Rejected(reason) => Response {
            status: Status::BadRequest,
            body: Body::Text(reason),
        },
        Outcome::Failed(error) => Response {
            status: Status::InternalServerError,
            body: Body::Text(error),
        },
    }
}

/// A response tells how the handler ended by its status alone: success is
/// the only outcome answered in the 200s, a failure of the store the only
/// one answered in the 500s, and the other two are answered in the 400s.
pub proof fn lemma_status_classes(outcome: OutcomeView)
    ensures
        response_to(outcome).status.is_success() <==> outcome is Success,
        response_to(outcome).status.is_server_error() <==> outcome is Failed,
        response_to(outcome).status.is_client_error() <==> (outcome is NotFound
            || outcome is Rejected),
        response_to(outcome).status == Status::NotFound <==> outcome is NotFound,
{
}

} // verus!
