use vnidrop::greet::greet;

#[test]
fn greet_empty_name() {
    assert_eq!(greet(""), "Hello, ! You've been greeted from Rust!");
}

#[test]
fn greet_world() {
    assert_eq!(greet("World"), "Hello, World! You've been greeted from Rust!");
}

#[test]
fn greet_keeps_name_verbatim() {
    let names = ["  padded  ", "Zoë 🚀", "a!b,c", "Hello, ", "{name}", "line\nbreak"];
    for name in names {
        assert_eq!(greet(name), format!("Hello, {}! You've been greeted from Rust!", name));
    }
}

#[test]
fn greet_twice_gives_same_text() {
    let name = String::from("Ada");
    let first = greet(&name);
    let second = greet(&name);
    assert_eq!(first, second);
    assert_eq!(name, "Ada");
}

#[test]
fn greet_distinct_names_differ() {
    assert_ne!(greet("Ada"), greet("Alan"));
}
