use mist::data::example_character;

#[test]
fn it_works() {
    let result = 2 + 2;
    assert_eq!(result, 4);
}

#[test]
fn example_character_has_four_core_themes() {
    let c = example_character();
    assert_eq!(c.core_themes.len(), 4);
}
