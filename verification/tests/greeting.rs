use tray_shell::greeting::greet;

#[test]
fn greet_substitutes_the_name_verbatim() {
    assert_eq!(greet("World"), "Hello, World! You've been greeted from Rust!");
}

#[test]
fn greet_accepts_the_empty_string() {
    assert_eq!(greet(""), "Hello, ! You've been greeted from Rust!");
}

#[test]
fn greet_keeps_template_delimiters_verbatim() {
    assert_eq!(greet("{}"), "Hello, {}! You've been greeted from Rust!");
    assert_eq!(
        greet("Hello, {name}!"),
        "Hello, Hello, {name}!! You've been greeted from Rust!"
    );
}

#[test]
fn greet_is_deterministic() {
    assert_eq!(greet("same caller"), greet("same caller"));
}
