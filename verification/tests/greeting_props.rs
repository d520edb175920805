use plex_core::greeting::greet;

#[test]
fn greeting_wraps_the_name() {
    assert_eq!(
        greet("world"),
        "Hello, world! You've been greeted from Rust!"
    );
}

#[test]
fn greeting_of_empty_name() {
    assert_eq!(greet(""), "Hello, ! You've been greeted from Rust!");
}
