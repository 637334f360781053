use mimi_ime::config::input_mode::{InputMode, Transformer};

fn run(mode: InputMode, input: &str, start: &str) -> String {
    let mut out = String::from(start);
    mode.get_transformer().transform(input.chars().collect(), &mut out);
    out
}

#[test]
fn english_copies_the_typed_characters() {
    assert_eq!(run(InputMode::English, "viet65", ""), "viet65");
}

#[test]
fn vni_composes_vietnamese() {
    assert_eq!(run(InputMode::Vni, "viet65", ""), "việt");
}

#[test]
fn telex_composes_vietnamese() {
    assert_eq!(run(InputMode::Telex, "vieetj", ""), "việt");
}

#[test]
fn transform_appends_to_existing_output() {
    assert_eq!(run(InputMode::Vni, "nam", "viet "), "viet nam");
    assert_eq!(run(InputMode::English, "b", "a"), "ab");
}

#[test]
fn empty_input_adds_nothing() {
    assert_eq!(run(InputMode::Telex, "", "x"), "x");
    assert_eq!(run(InputMode::Vni, "", ""), "");
}
