use torn_status_widget::greeting::greet;

#[test]
fn greet_names_the_guest() {
    assert_eq!(greet("Ada"), "Hello, Ada! You've been greeted from Rust!");
}

#[test]
fn greet_with_empty_name() {
    assert_eq!(greet(""), "Hello, ! You've been greeted from Rust!");
}

#[test]
fn greet_keeps_the_name_as_given() {
    assert_eq!(
        greet("  Zoë {} \"x\" "),
        "Hello,   Zoë {} \"x\" ! You've been greeted from Rust!"
    );
}
