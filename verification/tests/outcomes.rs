use midnight_library::models::author::Author;
use midnight_library::models::book::BookDetails;
use midnight_library::response::{respond, Body, Outcome, Status};
use midnight_library::routes::{
    author_created, author_deleted, author_resolved, author_shown, authors_listed, book_created,
    book_deleted, book_shown, books_listed, user_created,
};

fn tolkien() -> Author {
    Author {
        id: 0x67e5_5044_10b1_426f_9247_bb68_0e5f_e0c8,
        name: "JRR Tolkien".to_string(),
        nationality: "British".to_string(),
        created_at: 1_700_000_000_000_000,
    }
}

fn hobbit() -> BookDetails {
    BookDetails {
        id: 9,
        title: "The Hobbit".to_string(),
        author: "JRR Tolkien".to_string(),
        genre: "Fiction".to_string(),
        created_at: -5,
    }
}

#[test]
fn status_codes() {
    assert_eq!(Status::Success.code(), 200);
    assert_eq!(Status::BadRequest.code(), 400);
    assert_eq!(Status::NotFound.code(), 404);
    assert_eq!(Status::InternalServerError.code(), 500);
}

#[test]
fn each_outcome_has_its_response() {
    let success = respond(Outcome::Success(Body::Message("done".to_string())));
    assert_eq!(success.status, Status::Success);
    assert_eq!(success.body, Body::Message("done".to_string()));

    let not_found = respond(Outcome::NotFound("gone".to_string()));
    assert_eq!(not_found.status, Status::NotFound);
    assert_eq!(not_found.body, Body::Message("gone".to_string()));

    let rejected = respond(Outcome::Rejected("'' is not a valid user name.".to_string()));
    assert_eq!(rejected.status, Status::BadRequest);
    assert_eq!(rejected.body, Body::Text("'' is not a valid user name.".to_string()));

    let failed = respond(Outcome::Failed("pool timed out".to_string()));
    assert_eq!(failed.status, Status::InternalServerError);
    assert_eq!(failed.body, Body::Text("pool timed out".to_string()));
}

#[test]
fn listing_outcomes_keep_the_rows_in_order() {
    assert_eq!(authors_listed(Vec::new()), Outcome::Success(Body::Authors(Vec::new())));
    let mut melville = tolkien();
    melville.id = 3;
    melville.name = "Herman Melville".to_string();
    assert_eq!(
        authors_listed(vec![tolkien(), melville]),
        Outcome::Success(Body::Authors(vec![
            tolkien(),
            Author {
                id: 3,
                name: "Herman Melville".to_string(),
                nationality: "British".to_string(),
                created_at: 1_700_000_000_000_000,
            }
        ]))
    );
    assert_eq!(books_listed(Vec::new()), Outcome::Success(Body::Books(Vec::new())));
    assert_eq!(books_listed(vec![hobbit()]), Outcome::Success(Body::Books(vec![hobbit()])));
}

#[test]
fn showing_outcomes() {
    assert_eq!(author_shown(Ok(tolkien())), Outcome::Success(Body::Author(tolkien())));
    assert_eq!(
        author_shown(Err("no rows".to_string())),
        Outcome::Rejected("no rows".to_string())
    );
    assert_eq!(book_shown(Ok(hobbit())), Outcome::Success(Body::Book(hobbit())));
    assert_eq!(
        book_shown(Err("connection refused".to_string())),
        Outcome::Rejected("connection refused".to_string())
    );
}

#[test]
fn creation_outcomes() {
    assert_eq!(
        author_created(Ok(12)),
        Outcome::Success(Body::Created {
            message: "Author created successfully!".to_string(),
            id_key: "author_id".to_string(),
            id: 12,
        })
    );
    assert_eq!(
        book_created(Ok(u128::MAX)),
        Outcome::Success(Body::Created {
            message: "Book created successfully!".to_string(),
            id_key: "book_id".to_string(),
            id: u128::MAX,
        })
    );
    assert_eq!(
        user_created(Ok(0)),
        Outcome::Success(Body::Created {
            message: "User created successfully!".to_string(),
            id_key: "user_id".to_string(),
            id: 0,
        })
    );
    assert_eq!(author_created(Err("boom".to_string())), Outcome::Failed("boom".to_string()));
    assert_eq!(book_created(Err("foreign key".to_string())), Outcome::Failed("foreign key".to_string()));
    assert_eq!(user_created(Err(String::new())), Outcome::Failed(String::new()));
}

#[test]
fn deletion_outcomes_go_by_the_count_of_rows() {
    let deleted = Outcome::Success(Body::Message("Author deleted successfully!".to_string()));
    let missing = Outcome::NotFound("Author to be deleted not found".to_string());
    assert_eq!(author_deleted(Ok(1)), deleted);
    assert_eq!(author_deleted(Ok(0)), missing);
    assert_eq!(author_deleted(Ok(2)), missing);
    assert_eq!(author_deleted(Ok(u64::MAX)), missing);
    assert_eq!(author_deleted(Err("down".to_string())), Outcome::Failed("down".to_string()));

    let deleted = Outcome::Success(Body::Message("Book deleted successfully!".to_string()));
    let missing = Outcome::NotFound("Book to be deleted not found".to_string());
    assert_eq!(book_deleted(Ok(1)), deleted);
    assert_eq!(book_deleted(Ok(0)), missing);
    assert_eq!(book_deleted(Ok(3)), missing);
    assert_eq!(book_deleted(Err("down".to_string())), Outcome::Failed("down".to_string()));
}

#[test]
fn resolving_an_author_gives_its_identifier() {
    assert_eq!(author_resolved(Ok(tolkien())), Ok(0x67e5_5044_10b1_426f_9247_bb68_0e5f_e0c8));
    assert_eq!(
        author_resolved(Err("no rows".to_string())),
        Err(Outcome::Rejected("no rows".to_string()))
    );
}
