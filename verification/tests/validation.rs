//! Username validation of the profile store, and the server options.

use starstraw::database::{validate_username, ServerOptions};
use starstraw::model::StrawError;

#[test]
fn plain_username_is_accepted() {
    assert_eq!(validate_username("someuser"), Ok(()));
}

#[test]
fn username_with_allowed_punctuation_is_accepted() {
    assert_eq!(validate_username("user.name-0_9!"), Ok(()));
}

#[test]
fn username_with_space_is_rejected() {
    assert_eq!(validate_username("some user"), Err(StrawError::ValueError));
}

#[test]
fn empty_username_is_rejected() {
    assert_eq!(validate_username(""), Err(StrawError::ValueError));
}

#[test]
fn one_character_username_is_rejected() {
    assert_eq!(validate_username("a"), Err(StrawError::ValueError));
}

#[test]
fn overlong_username_is_rejected() {
    let name: String = ["x"; 501].concat();
    assert_eq!(validate_username(&name), Err(StrawError::ValueError));
}

#[test]
fn longest_allowed_username_is_accepted() {
    let name: String = ["x"; 500].concat();
    assert_eq!(validate_username(&name), Ok(()));
}

#[test]
fn server_options_construct() {
    let _ = ServerOptions::truthy();
    let _ = ServerOptions::default();
}
