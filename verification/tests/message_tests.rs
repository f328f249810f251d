use rust_rest_api::messages::{
    fill_placeholders, message_file_language, parse_property_line, MessageStore,
};

fn store_with(entries: &[(&str, &str)]) -> MessageStore {
    let mut s = MessageStore::new();
    for (k, v) in entries {
        s.insert(k.to_string(), v.to_string());
    }
    s
}

fn strings(xs: &[&str]) -> Vec<String> {
    xs.iter().map(|x| x.to_string()).collect()
}

#[test]
fn store_read_after_write() {
    let mut s = MessageStore::new();
    assert_eq!(s.get("en.k"), None);
    s.insert("en.k".to_string(), "one".to_string());
    s.insert("id.k".to_string(), "satu".to_string());
    assert_eq!(s.get("en.k"), Some("one".to_string()));
    s.insert("en.k".to_string(), "two".to_string());
    assert_eq!(s.get("en.k"), Some("two".to_string()));
    assert_eq!(s.get("id.k"), Some("satu".to_string()));
}

#[test]
fn placeholders_are_filled_in_order() {
    assert_eq!(
        fill_placeholders("Hello {0}, you are {1}".to_string(), &strings(&["Ann", "admin"])),
        "Hello Ann, you are admin"
    );
    assert_eq!(fill_placeholders("{0}{0}".to_string(), &strings(&["x"])), "xx");
    assert_eq!(fill_placeholders("{0}".to_string(), &strings(&["{1}", "y"])), "y");
    assert_eq!(fill_placeholders("no args {0}".to_string(), &Vec::new()), "no args {0}");
    let ten: Vec<String> = (0..11).map(|i| format!("a{}", i)).collect();
    assert_eq!(fill_placeholders("{10}".to_string(), &ten), "a10");
}

#[test]
fn first_accepted_language_with_a_message_wins() {
    let s = store_with(&[("en.user.get.not.found", "User not found"), ("id.user.get.not.found", "User tidak ditemukan")]);
    assert_eq!(s.get_message(&strings(&["fr", "en", "id"]), "user.get.not.found", &Vec::new()), "User not found");
    assert_eq!(s.get_message(&strings(&["id", "en"]), "user.get.not.found", &Vec::new()), "User tidak ditemukan");
}

#[test]
fn missing_message_falls_back_to_id_then_to_the_key() {
    let s = store_with(&[("id.a", "A {0}")]);
    assert_eq!(s.get_message(&strings(&["en"]), "a", &strings(&["1"])), "A 1");
    assert_eq!(s.get_message(&strings(&["en"]), "b", &Vec::new()), "id.b");
    assert_eq!(s.get_message_default("xx", "a", &Vec::new()), "xx.a");
    assert_eq!(s.get_message_default("id", "a", &strings(&["z"])), "A z");
}

#[test]
fn message_file_names() {
    assert_eq!(message_file_language("messages_en.properties"), Some("en".to_string()));
    assert_eq!(message_file_language("messages_id.v2.properties"), Some("id".to_string()));
    assert_eq!(message_file_language("messages_messages_x.properties"), Some("x".to_string()));
    assert_eq!(message_file_language("messages_en.txt"), None);
    assert_eq!(message_file_language("application.yaml"), None);
}

#[test]
fn property_lines() {
    assert_eq!(parse_property_line(""), None);
    assert_eq!(parse_property_line("# comment = x"), None);
    assert_eq!(
        parse_property_line("user.create.success=User {0} created=ok"),
        Some(("user.create.success".to_string(), "User {0} created=ok".to_string()))
    );
    assert_eq!(parse_property_line("k="), Some(("k".to_string(), String::new())));
}

#[test]
fn loading_a_file_later_lines_win() {
    let mut s = MessageStore::new();
    s.load_properties("en", &strings(&["# greetings", "", "hello=Hi", "bye=Bye", "hello=Hello"]));
    assert_eq!(s.get("en.hello"), Some("Hello".to_string()));
    assert_eq!(s.get("en.bye"), Some("Bye".to_string()));
    assert_eq!(s.get("en.# greetings"), None);
}
