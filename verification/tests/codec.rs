use file_properties::{FromPropVariant, PropVariant, PropVector, Shape, StoreFlags, ToPropVariant};

fn wide(text: &str) -> Vec<u16> {
    text.encode_utf16().collect()
}

#[test]
fn string_reads_text() {
    let read = String::from_prop_variant(PropVariant::Text(wide("this_is_the_test_id")));
    assert_eq!(read, "this_is_the_test_id");
}

#[test]
fn string_reads_default_from_what_holds_no_text() {
    assert_eq!(String::from_prop_variant(PropVariant::Empty), "");
    assert_eq!(String::from_prop_variant(PropVariant::Number(7)), "");
    assert_eq!(String::from_prop_variant(PropVariant::TextVector(vec![wide("a")])), "");
    assert_eq!(String::from_prop_variant(PropVariant::Text(vec![0xD800])), "");
}

#[test]
fn number_reads_number() {
    assert_eq!(u32::from_prop_variant(PropVariant::Number(0)), 0);
    assert_eq!(u32::from_prop_variant(PropVariant::Number(4_294_967_295)), 4_294_967_295);
}

#[test]
fn number_reads_default_from_what_holds_no_number() {
    assert_eq!(u32::from_prop_variant(PropVariant::Empty), 0);
    assert_eq!(u32::from_prop_variant(PropVariant::Text(wide("12"))), 0);
    assert_eq!(u32::from_prop_variant(PropVariant::TextVector(Vec::new())), 0);
}

#[test]
fn vector_reads_strings_in_order() {
    let read = PropVector::from_prop_variant(PropVariant::TextVector(vec![
        wide("Ada"),
        wide(""),
        wide("Gr\u{E4}fin \u{1F600}"),
        wide("Ada"),
    ]));
    assert_eq!(read.vector, vec!["Ada", "", "Gr\u{E4}fin \u{1F600}", "Ada"]);
}

#[test]
fn vector_reads_default_from_what_holds_no_vector() {
    assert_eq!(PropVector::from_prop_variant(PropVariant::Empty).vector, Vec::<String>::new());
    assert_eq!(PropVector::from_prop_variant(PropVariant::Number(3)).vector, Vec::<String>::new());
    assert_eq!(
        PropVector::from_prop_variant(PropVariant::Text(wide("a"))).vector,
        Vec::<String>::new()
    );
    assert_eq!(
        PropVector::from_prop_variant(PropVariant::TextVector(Vec::new())).vector,
        Vec::<String>::new()
    );
}

#[test]
fn vector_reads_a_malformed_string_as_empty() {
    let read =
        PropVector::from_prop_variant(PropVariant::TextVector(vec![wide("a"), vec![0xDC00], wide("b")]));
    assert_eq!(read.vector, vec!["a", "", "b"]);
}

#[test]
fn shapes_name_the_conversion() {
    assert_eq!(String::shape(), Shape::Text);
    assert_eq!(u32::shape(), Shape::Number);
    assert_eq!(PropVector::shape(), Shape::TextVector);
}

#[test]
fn vector_prints_each_string_with_comma_and_space() {
    let empty = PropVector { vector: Vec::new() };
    assert_eq!(empty.to_string(), "");
    let one = PropVector { vector: vec!["solo".to_string()] };
    assert_eq!(one.to_string(), "solo, ");
    let three = PropVector { vector: vec!["a".to_string(), "".to_string(), "c d".to_string()] };
    assert_eq!(three.to_string(), "a, , c d, ");
}

#[test]
fn string_writes_text() {
    assert_eq!("id".to_string().to_prop_variant(), PropVariant::Text(vec![0x69, 0x64]));
    assert_eq!(String::new().to_prop_variant(), PropVariant::Text(Vec::new()));
}

#[test]
fn str_writes_text() {
    assert_eq!("id".to_prop_variant(), PropVariant::Text(vec![0x69, 0x64]));
    assert_eq!("\u{1F600}".to_prop_variant(), PropVariant::Text(vec![0xD83D, 0xDE00]));
}

#[test]
fn vec_of_str_writes_text_vector() {
    let values: Vec<&str> = vec!["a", "", "\u{E9}"];
    assert_eq!(
        values.to_prop_variant(),
        PropVariant::TextVector(vec![vec![0x61], Vec::new(), vec![0xE9]])
    );
    let none: Vec<&str> = Vec::new();
    assert_eq!(none.to_prop_variant(), PropVariant::TextVector(Vec::new()));
}

#[test]
fn written_string_reads_back() {
    for text in ["", "this_is_the_test_id", "na\u{EF}ve caf\u{E9}", "\u{65E5}\u{672C}\u{8A9E}\u{1F600}"] {
        assert_eq!(String::from_prop_variant(text.to_prop_variant()), text);
        assert_eq!(String::from_prop_variant(text.to_string().to_prop_variant()), text);
    }
}

#[test]
fn written_vector_reads_back() {
    let values: Vec<&str> = vec!["first", "", "dritte \u{DC}", "\u{10FFFF}"];
    let read = PropVector::from_prop_variant(values.to_prop_variant());
    assert_eq!(read.vector, values);
}

#[test]
fn duplicate_keeps_the_content() {
    for value in [
        PropVariant::Empty,
        PropVariant::Text(wide("x")),
        PropVariant::Number(9),
        PropVariant::TextVector(vec![wide("a"), wide("bc")]),
    ] {
        assert_eq!(value.duplicate(), value);
    }
}

#[test]
fn default_flags_are_read_write() {
    assert_eq!(StoreFlags::read_write(), StoreFlags { bits: 2 });
}
