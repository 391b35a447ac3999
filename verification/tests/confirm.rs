use randfill::confirm::overwrite_confirmed;

#[test]
fn affirmative_answers_allow_the_overwrite() {
    assert!(overwrite_confirmed("y"));
    assert!(overwrite_confirmed("Y"));
    assert!(overwrite_confirmed("j"));
    assert!(overwrite_confirmed("J"));
}

#[test]
fn a_bare_return_allows_the_overwrite() {
    assert!(overwrite_confirmed(""));
}

#[test]
fn anything_else_declines() {
    assert!(!overwrite_confirmed("n"));
    assert!(!overwrite_confirmed("N"));
    assert!(!overwrite_confirmed("yes"));
    assert!(!overwrite_confirmed("yy"));
    assert!(!overwrite_confirmed(" y"));
    assert!(!overwrite_confirmed("x"));
}
