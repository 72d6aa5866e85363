use parol_runtime::TokenVec;

#[test]
fn render_joins_descriptors_with_comma_space() {
    let mut tv = TokenVec::default();
    tv.push("A".to_string());
    tv.push("B".to_string());
    tv.push("C".to_string());
    assert_eq!(tv.render(), "A, B, C");
}

#[test]
fn render_empty_set_is_empty_string() {
    let tv = TokenVec::default();
    assert_eq!(tv.render(), "");
}

#[test]
fn render_single_descriptor_has_no_separator() {
    let mut tv = TokenVec::default();
    tv.push("Number".to_string());
    assert_eq!(tv.render(), "Number");
}

#[test]
fn render_keeps_duplicates_and_order() {
    let mut tv = TokenVec::default();
    tv.push("B".to_string());
    tv.push("A".to_string());
    tv.push("A".to_string());
    assert_eq!(tv.render(), "B, A, A");
}
