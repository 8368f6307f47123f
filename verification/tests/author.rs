use midnight_library::routes::NewAuthorData;
use midnight_library::validations::author::{
    NewAuthor, ValidatedAuthorName, ValidatedAuthorNationality,
};

#[test]
fn valid_name() {
    let name = String::from("John Doe");
    assert!(ValidatedAuthorName::new(name).is_ok());
}

#[test]
fn empty_name() {
    let name = String::from("");
    assert!(ValidatedAuthorName::new(name).is_err());
}

#[test]
fn whitespace_only_name() {
    let name = String::from(" ");
    assert!(ValidatedAuthorName::new(name).is_err());
}

#[test]
fn max_length_name() {
    let name = "a".repeat(256);
    assert!(ValidatedAuthorName::new(name).is_ok());
}

#[test]
fn too_long_name() {
    let name = "a".repeat(257);
    assert!(ValidatedAuthorName::new(name).is_err());
}

#[test]
fn valid_nationality() {
    let nationality = String::from("Brazilian");
    assert!(ValidatedAuthorNationality::new(nationality).is_ok());
}

#[test]
fn empty_nationality() {
    let nationality = String::from("");
    assert!(ValidatedAuthorNationality::new(nationality).is_err());
}

#[test]
fn whitespace_only_nationality() {
    let nationality = String::from(" ");
    assert!(ValidatedAuthorNationality::new(nationality).is_err());
}

#[test]
fn max_length_nationality() {
    let nationality = "a".repeat(80);
    assert!(ValidatedAuthorNationality::new(nationality).is_ok());
}

#[test]
fn too_long_nationality() {
    let nationality = "a".repeat(81);
    assert!(ValidatedAuthorNationality::new(nationality).is_err());
}

#[test]
fn new_author_success() {
    let data = NewAuthorData {
        name: String::from("Jane Doe"),
        nationality: String::from("American"),
    };
    assert!(NewAuthor::try_from(data).is_ok());
}

#[test]
fn new_author_failure() {
    let data = NewAuthorData {
        name: String::from(""), // Invalid name
        nationality: String::from("American"),
    };
    assert!(NewAuthor::try_from(data).is_err());
}

#[test]
fn author_name_is_handed_back_unchanged() {
    let name = ValidatedAuthorName::new(String::from("  Ursula K. Le Guin ")).unwrap();
    assert_eq!(name.as_ref(), "  Ursula K. Le Guin ");
}

#[test]
fn author_name_rejection_quotes_the_value() {
    let error = ValidatedAuthorName::new(String::from(" \t ")).err().unwrap();
    assert_eq!(error, "' \t ' is not a valid author name.");
}

#[test]
fn author_nationality_rejection_quotes_the_value() {
    let error = ValidatedAuthorNationality::new("x".repeat(81)).err().unwrap();
    assert_eq!(error, format!("'{}' is not a valid author nationality.", "x".repeat(81)));
}

#[test]
fn author_name_length_counts_characters_not_bytes() {
    let name = "\u{00e9}".repeat(256);
    assert_eq!(name.len(), 512);
    assert!(ValidatedAuthorName::new(name).is_ok());
    assert!(ValidatedAuthorName::new("\u{00e9}".repeat(257)).is_err());
}

#[test]
fn author_name_of_unicode_white_space_is_blank() {
    for blank in [
        "\u{0009}", "\u{000a}", "\u{000b}", "\u{000c}", "\u{000d}", "\u{0020}", "\u{0085}",
        "\u{00a0}", "\u{1680}", "\u{2000}", "\u{2005}", "\u{200a}", "\u{2028}", "\u{2029}",
        "\u{202f}", "\u{205f}", "\u{3000}",
    ] {
        assert!(ValidatedAuthorName::new(blank.repeat(3)).is_err());
    }
    for inked in ["\u{0008}", "\u{000e}", "\u{001f}", "\u{200b}", "\u{2060}", "\u{feff}", "_"] {
        assert!(ValidatedAuthorName::new(String::from(inked)).is_ok());
    }
}

#[test]
fn new_author_reports_the_first_failing_field_only() {
    let both_bad = NewAuthorData { name: String::from(" "), nationality: String::from("") };
    assert_eq!(NewAuthor::try_from(both_bad).err().unwrap(), "' ' is not a valid author name.");
    let second_bad = NewAuthorData { name: String::from("Jane Doe"), nationality: String::from("") };
    assert_eq!(
        NewAuthor::try_from(second_bad).err().unwrap(),
        "'' is not a valid author nationality."
    );
}

#[test]
fn new_author_keeps_both_fields() {
    let data = NewAuthorData {
        name: String::from("JRR Tolkien"),
        nationality: String::from("British"),
    };
    let author = NewAuthor::try_from(data).ok().unwrap();
    assert_eq!(author.name.as_ref(), "JRR Tolkien");
    assert_eq!(author.nationality.as_ref(), "British");
}
