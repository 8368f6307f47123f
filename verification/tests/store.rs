use midnight_library::models::author::Author;
use midnight_library::store::{MemoryStore, StoreError};

#[test]
fn a_new_store_is_empty() {
    let store = MemoryStore::new();
    assert!(store.authors().is_empty());
    assert!(store.books().is_empty());
    assert!(store.users().is_empty());
}

#[test]
fn store_errors_have_their_texts() {
    assert_eq!(
        StoreError::RowNotFound.message(),
        "no rows returned by a query that expected to return at least one row"
    );
    assert_eq!(StoreError::NoSuchAuthor.message(), "the author of the book is not in the store");
    assert_eq!(StoreError::IdentifiersExhausted.message(), "the store has no identifier left");
}

#[test]
fn inserted_rows_get_rising_identifiers() {
    let mut store = MemoryStore::new();
    assert_eq!(store.insert_author("JRR Tolkien", "British", 5), Ok(1));
    assert_eq!(store.insert_user("Richard", "example@email.com", 6), Ok(2));
    assert_eq!(store.insert_book("The Hobbit", "Fiction", 1, 7), Ok(3));
    assert_eq!(store.insert_author("Herman Melville", "American", 8), Ok(4));
    assert_eq!(
        store.author(4),
        Ok(Author {
            id: 4,
            name: "Herman Melville".to_string(),
            nationality: "American".to_string(),
            created_at: 8,
        })
    );
    assert_eq!(store.author(2), Err(StoreError::RowNotFound));
    assert_eq!(store.author(0), Err(StoreError::RowNotFound));
}

#[test]
fn a_book_needs_an_author_that_the_store_holds() {
    let mut store = MemoryStore::new();
    assert_eq!(store.insert_book("The Hobbit", "Fiction", 1, 7), Err(StoreError::NoSuchAuthor));
    assert_eq!(store.insert_author("JRR Tolkien", "British", 5), Ok(1));
    assert_eq!(store.insert_book("The Hobbit", "Fiction", 2, 7), Err(StoreError::NoSuchAuthor));
    assert_eq!(store.insert_book("The Hobbit", "Fiction", 1, 7), Ok(2));
    assert_eq!(store.books().len(), 1);
}

#[test]
fn a_full_store_takes_nothing_more() {
    let mut store = MemoryStore::starting_at(u128::MAX);
    assert_eq!(store.insert_author("JRR Tolkien", "British", 5), Err(StoreError::IdentifiersExhausted));
    assert_eq!(store.insert_user("Richard", "r@e.com", 5), Err(StoreError::IdentifiersExhausted));
    assert!(store.authors().is_empty());
    assert!(store.users().is_empty());

    let mut store = MemoryStore::starting_at(u128::MAX - 1);
    assert_eq!(store.insert_author("JRR Tolkien", "British", 5), Ok(u128::MAX - 1));
    assert_eq!(
        store.insert_book("The Hobbit", "Fiction", u128::MAX - 1, 7),
        Err(StoreError::IdentifiersExhausted)
    );
    assert_eq!(store.insert_book("The Hobbit", "Fiction", 3, 7), Err(StoreError::NoSuchAuthor));
}

#[test]
fn author_by_name_is_the_first_of_that_name() {
    let mut store = MemoryStore::new();
    assert_eq!(store.author_named("Jane Austen"), Err(StoreError::RowNotFound));
    store.insert_author("Herman Melville", "American", 1).unwrap();
    store.insert_author("Jane Austen", "British", 2).unwrap();
    store.insert_author("Jane Austen", "American", 3).unwrap();
    assert_eq!(store.author_named("Jane Austen").unwrap().id, 2);
    assert_eq!(store.author_named("Jane Austen").unwrap().nationality, "British");
    assert_eq!(store.author_named("Jane"), Err(StoreError::RowNotFound));
    assert_eq!(store.delete_author(2), 1);
    assert_eq!(store.author_named("Jane Austen").unwrap().id, 3);
}

#[test]
fn deleting_removes_one_row_and_keeps_the_order() {
    let mut store = MemoryStore::new();
    for name in ["a", "b", "c", "d"] {
        store.insert_author(name, "x", 0).unwrap();
    }
    assert_eq!(store.delete_author(9), 0);
    assert_eq!(store.delete_author(0), 0);
    assert_eq!(store.delete_author(2), 1);
    assert_eq!(store.delete_author(2), 0);
    let names: Vec<String> = store.authors().into_iter().map(|a| a.name).collect();
    assert_eq!(names, vec!["a", "c", "d"]);
    assert_eq!(store.delete_author(4), 1);
    assert_eq!(store.delete_author(1), 1);
    let names: Vec<String> = store.authors().into_iter().map(|a| a.name).collect();
    assert_eq!(names, vec!["c"]);
    assert_eq!(store.insert_author("e", "x", 0), Ok(5));
}

#[test]
fn books_of_a_deleted_author_stay_but_are_not_shown() {
    let mut store = MemoryStore::new();
    let tolkien = store.insert_author("JRR Tolkien", "British", 1).unwrap();
    let melville = store.insert_author("Herman Melville", "American", 1).unwrap();
    let hobbit = store.insert_book("The Hobbit", "Fiction", tolkien, 2).unwrap();
    let moby = store.insert_book("Moby Dick", "Adventure", melville, 3).unwrap();
    assert_eq!(store.books().len(), 2);
    assert_eq!(store.book(hobbit).unwrap().author, "JRR Tolkien");

    assert_eq!(store.delete_author(tolkien), 1);
    let shown = store.books();
    assert_eq!(shown.len(), 1);
    assert_eq!(shown[0].id, moby);
    assert_eq!(shown[0].author, "Herman Melville");
    assert_eq!(store.book(hobbit), Err(StoreError::RowNotFound));
    assert_eq!(store.delete_book(hobbit), 1);
    assert_eq!(store.delete_book(hobbit), 0);
    assert_eq!(store.delete_book(moby), 1);
    assert!(store.books().is_empty());
}
