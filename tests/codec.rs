use diesel_trivial_convert::codec::{
    decode, decode_array, decode_nullable, decode_nullable_array, encode, encode_array,
    encode_nullable, encode_nullable_array,
};
use diesel_trivial_convert::{Label, LabelError};

fn label(s: &str) -> Label {
    Label::parse(s).unwrap()
}

fn strings(v: &[&str]) -> Vec<String> {
    v.iter().map(|s| s.to_string()).collect()
}

#[test]
fn encode_gives_exact_text() {
    assert_eq!(encode(&label("Test42")), String::from("Test42"));
}

#[test]
fn round_trip_scalar() {
    for s in ["test", "A", "Ünïcödé", "123abc"] {
        let l = label(s);
        let back = decode(encode(&l)).unwrap();
        assert_eq!(back, l);
    }
}

#[test]
fn decode_rejects_invalid_text() {
    assert_eq!(decode(String::from("a-b")), Err(LabelError::InvalidLabel));
    assert_eq!(decode(String::from("a b")), Err(LabelError::InvalidLabel));
    assert_eq!(decode(String::new()), Err(LabelError::InvalidLabel));
}

#[test]
fn decode_array_all_valid_keeps_order() {
    let ls = decode_array(strings(&["b", "a", "b", "c1"])).unwrap();
    let texts: Vec<&str> = ls.iter().map(|l| l.as_str()).collect();
    assert_eq!(texts, vec!["b", "a", "b", "c1"]);
}

#[test]
fn decode_array_empty() {
    assert_eq!(decode_array(Vec::new()).unwrap(), Vec::<Label>::new());
}

#[test]
fn decode_array_one_invalid_fails() {
    assert_eq!(decode_array(strings(&["ok", "not ok", "fine"])), Err(LabelError::InvalidLabel));
    assert_eq!(decode_array(strings(&["ok", ""])), Err(LabelError::InvalidLabel));
}

#[test]
fn round_trip_array() {
    let ls = vec![label("one"), label("two"), label("one")];
    let texts = encode_array(&ls);
    assert_eq!(texts, strings(&["one", "two", "one"]));
    assert_eq!(decode_array(texts).unwrap(), ls);
}

#[test]
fn decode_nullable_absent_and_present() {
    assert_eq!(decode_nullable(None), Ok(None));
    assert_eq!(decode_nullable(Some(String::from("abc"))), Ok(Some(label("abc"))));
    assert_eq!(decode_nullable(Some(String::from("a!c"))), Err(LabelError::InvalidLabel));
}

#[test]
fn decode_nullable_array_absent_and_present() {
    assert_eq!(decode_nullable_array(None), Ok(None));
    assert_eq!(
        decode_nullable_array(Some(strings(&["x", "y"]))),
        Ok(Some(vec![label("x"), label("y")]))
    );
    assert_eq!(decode_nullable_array(Some(strings(&["x", "y z"]))), Err(LabelError::InvalidLabel));
}

#[test]
fn encode_nullable_forms() {
    assert_eq!(encode_nullable(&None), None);
    assert_eq!(encode_nullable(&Some(label("abc"))), Some(String::from("abc")));
    assert_eq!(encode_nullable_array(&None), None);
    assert_eq!(
        encode_nullable_array(&Some(vec![label("a"), label("b")])),
        Some(strings(&["a", "b"]))
    );
}
