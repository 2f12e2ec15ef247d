use geolookup::json::{
    bits_field, flag_field, flag_field_of, or_else, rendered_field,
    rendered_field_of, text_field, text_field_of, text_of,
};
use geolookup::text::{parse_coordinates, parse_float_of, split_pair};

fn parse(text: &str) -> Option<serde_json::Value> {
    serde_json::from_str(text).ok()
}

fn bits(x: f64) -> Option<u64> {
    Some(x.to_bits())
}

#[test]
fn combined_coordinates_parse_each_half() {
    assert_eq!(parse_coordinates("12.5,-45.25"), (bits(12.5), bits(-45.25)));
}

#[test]
fn combined_coordinates_with_a_bad_half() {
    assert_eq!(parse_coordinates("bad,-45.25"), (None, bits(-45.25)));
    assert_eq!(parse_coordinates("12.5,bad"), (bits(12.5), None));
    assert_eq!(parse_coordinates("bad,worse"), (None, None));
}

#[test]
fn combined_coordinates_edge_cases() {
    assert_eq!(parse_coordinates(""), (None, None));
    assert_eq!(parse_coordinates("12.5"), (bits(12.5), None));
    assert_eq!(parse_coordinates("12.5,"), (bits(12.5), None));
    assert_eq!(parse_coordinates(",3"), (None, bits(3.0)));
    assert_eq!(parse_coordinates("1,2,3"), (bits(1.0), bits(2.0)));
    assert_eq!(parse_coordinates("1, 2"), (bits(1.0), None));
    assert_eq!(parse_coordinates("1e2,-0.5"), (bits(100.0), bits(-0.5)));
}

#[test]
fn split_pair_keeps_the_first_two_parts() {
    assert_eq!(split_pair("a,b"), ("a".to_string(), Some("b".to_string())));
    assert_eq!(split_pair("a,b,c"), ("a".to_string(), Some("b".to_string())));
    assert_eq!(split_pair("abc"), ("abc".to_string(), None));
    assert_eq!(split_pair(""), ("".to_string(), None));
    assert_eq!(split_pair(","), ("".to_string(), Some("".to_string())));
    assert_eq!(split_pair("é,ü,"), ("é".to_string(), Some("ü".to_string())));
}

#[test]
fn split_pair_agrees_with_std_split() {
    for text in ["", ",", ",,", "1,2", "x", "a,,b", "12.5,-45.25", "ä,ö,ü"] {
        let mut parts = text.split(',');
        let first = parts.next().unwrap_or("").to_string();
        let second = parts.next().map(String::from);
        assert_eq!(split_pair(text), (first, second));
    }
}

#[test]
fn decimal_text_parses_to_a_double() {
    assert_eq!(parse_float_of(Some("43.6532".to_string())), bits(43.6532));
    assert_eq!(parse_float_of(Some("-7".to_string())), bits(-7.0));
    assert_eq!(parse_float_of(Some("".to_string())), None);
    assert_eq!(parse_float_of(Some("4 3".to_string())), None);
    assert_eq!(parse_float_of(None), None);
}

#[test]
fn field_readers_yield_absence_on_mismatch() {
    let doc = parse(
        r#"{"s":"text","n":1.5,"i":-3,"b":true,"z":null,"o":{"s":"inner","b":false,"n":[1]}}"#,
    ).unwrap();
    assert_eq!(text_field(&doc, "s"), Some("text".to_string()));
    assert_eq!(text_field(&doc, "n"), None);
    assert_eq!(text_field(&doc, "missing"), None);
    assert_eq!(bits_field(&doc, "n"), bits(1.5));
    assert_eq!(bits_field(&doc, "i"), bits(-3.0));
    assert_eq!(bits_field(&doc, "s"), None);
    assert_eq!(flag_field(&doc, "b"), Some(true));
    assert_eq!(flag_field(&doc, "s"), None);
    assert_eq!(flag_field(&doc, "z"), None);
    assert_eq!(rendered_field(&doc, "s"), Some("\"text\"".to_string()));
    assert_eq!(rendered_field(&doc, "n"), Some("1.5".to_string()));
    assert_eq!(rendered_field(&doc, "i"), Some("-3".to_string()));
    assert_eq!(rendered_field(&doc, "z"), Some("null".to_string()));
    assert_eq!(rendered_field(&doc, "missing"), None);
}

#[test]
fn field_readers_on_an_optional_parent() {
    let doc = parse(r#"{"o":{"s":"inner","b":false,"n":[1]},"t":"x"}"#).unwrap();
    let parent = doc.get("o");
    assert_eq!(text_field_of(parent, "s"), Some("inner".to_string()));
    assert_eq!(flag_field_of(parent, "b"), Some(false));
    assert_eq!(rendered_field_of(parent, "n"), Some("[1]".to_string()));
    assert_eq!(text_field_of(None, "s"), None);
    assert_eq!(flag_field_of(None, "b"), None);
    assert_eq!(rendered_field_of(None, "n"), None);
    assert_eq!(text_field_of(doc.get("t"), "s"), None);
}

#[test]
fn fallback_takes_the_first_present() {
    let doc = parse(r#"{"a":"first","b":"second","c":null}"#).unwrap();
    assert_eq!(text_of(or_else(doc.get("a"), doc.get("b"))), Some("first".to_string()));
    assert_eq!(text_of(or_else(doc.get("x"), doc.get("b"))), Some("second".to_string()));
    assert_eq!(text_of(or_else(doc.get("c"), doc.get("b"))), None);
    assert_eq!(text_of(or_else(doc.get("x"), doc.get("y"))), None);
}
