use sparecycles::digest::{pin_of, same_ignoring_ascii_case, to_hex, ArtifactHasher};

#[test]
fn bytes_in_hexadecimal() {
    assert_eq!(to_hex(&vec![]), "");
    assert_eq!(to_hex(&vec![0x00, 0x09, 0x0a, 0x5f, 0xff]), "00090a5fff");
}

#[test]
fn a_known_digest() {
    assert_eq!(
        ArtifactHasher::new().finish(),
        "e3b0c44298fc1c149afbf4c8996fb92427ae41e4649b934ca495991b7852b855"
    );
    assert_eq!(
        ArtifactHasher::new().update(b"abc").finish(),
        "ba7816bf8f01cfea414140de5dae2223b00361a396177a9cb410ff61f20015ad"
    );
}

#[test]
fn pieces_do_not_matter() {
    let whole = ArtifactHasher::new().update(b"the runtime").finish();
    let parts = ArtifactHasher::new()
        .update(b"the ")
        .update(b"")
        .update(b"run")
        .update(b"time")
        .finish();
    assert_eq!(whole, parts);
    assert_ne!(whole, ArtifactHasher::new().update(b"the Runtime").finish());
}

#[test]
fn pins_are_trimmed_and_an_empty_one_is_none() {
    assert_eq!(pin_of(&None), None);
    assert_eq!(pin_of(&Some("".into())), None);
    assert_eq!(pin_of(&Some(" \t\n".into())), None);
    assert_eq!(pin_of(&Some(" ab cd\n".into())), Some("ab cd".to_string()));
}

#[test]
fn only_the_case_of_ascii_letters_is_ignored() {
    assert!(same_ignoring_ascii_case("aBc-9", "AbC-9"));
    assert!(same_ignoring_ascii_case("", ""));
    assert!(!same_ignoring_ascii_case("abc", "abcd"));
    assert!(!same_ignoring_ascii_case("abc", "abd"));
    assert!(!same_ignoring_ascii_case("ä", "Ä"));
    assert!(!same_ignoring_ascii_case("[", "{"));
}
