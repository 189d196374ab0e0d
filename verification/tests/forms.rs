use component_state::forms::TextField;

#[test]
fn new_field_holds_its_start() {
    assert_eq!(TextField::new("Controlled".to_string()).text(), "Controlled");
    assert_eq!(TextField::new(String::new()).text(), "");
}

#[test]
fn field_holds_the_last_write() {
    let mut field = TextField::new("Uncontrolled".to_string());
    field.set_text("a".to_string());
    assert_eq!(field.text(), "a");
    field.set_text("ab".to_string());
    field.set_text("abc".to_string());
    assert_eq!(field.text(), "abc");
    field.set_text(String::new());
    assert_eq!(field.text(), "");
}

#[test]
fn field_takes_text_beyond_ascii() {
    let mut field = TextField::new("Text areas are special".to_string());
    field.set_text("naïve – 日本語\n".to_string());
    assert_eq!(field.text(), "naïve – 日本語\n");
    assert!(field.holds("naïve – 日本語\n"));
    assert!(!field.holds("naive - 日本語\n"));
}

#[test]
fn one_option_of_three_is_selected() {
    let field = TextField::new("B".to_string());
    assert!(!field.holds("A"));
    assert!(field.holds("B"));
    assert!(!field.holds("C"));
}

#[test]
fn selection_follows_the_change() {
    let mut field = TextField::new("B".to_string());
    field.set_text("C".to_string());
    assert!(!field.holds("A"));
    assert!(!field.holds("B"));
    assert!(field.holds("C"));
}

#[test]
fn selection_is_exact() {
    let field = TextField::new("B".to_string());
    assert!(!field.holds("b"));
    assert!(!field.holds("B "));
    assert!(!field.holds(""));
    assert!(!field.holds("BB"));
    assert!(TextField::new(String::new()).holds(""));
}

#[test]
fn copy_of_a_field_is_its_own() {
    let mut field = TextField::new("B".to_string());
    let copy = field.clone();
    field.set_text("A".to_string());
    assert_eq!(copy.text(), "B");
    assert_eq!(field.text(), "A");
}
