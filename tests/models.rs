use diesel_trivial_convert::{ExampleModel, Label, LabelError};

fn strings(v: &[&str]) -> Vec<String> {
    v.iter().map(|s| s.to_string()).collect()
}

#[test]
fn insert_columns_duplicate_label_into_array() {
    let l = Label::parse("test").unwrap();
    let (text, array) = ExampleModel::insert_columns(&l);
    assert_eq!(text, String::from("test"));
    assert_eq!(array, strings(&["test"]));
}

#[test]
fn read_back_inserted_row() {
    let l = Label::parse("test").unwrap();
    let (text, array) = ExampleModel::insert_columns(&l);
    let m = ExampleModel::from_columns(1, text, None, array, None).unwrap();
    assert!(m.id() > 0);
    assert_eq!(m.id(), 1);
    assert_eq!(m.label().as_str(), "test");
    assert_eq!(m.label_nullable(), &None);
    assert_eq!(m.label_array(), &vec![Label::parse("test").unwrap()]);
    assert_eq!(m.label_array_nullable(), &None);
}

#[test]
fn read_back_all_columns_present() {
    let m = ExampleModel::from_columns(
        7,
        String::from("a"),
        Some(String::from("b")),
        strings(&["c", "d"]),
        Some(strings(&["e"])),
    )
    .unwrap();
    assert_eq!(m.id(), 7);
    assert_eq!(m.label().as_str(), "a");
    assert_eq!(m.label_nullable().as_ref().unwrap().as_str(), "b");
    assert_eq!(m.label_array().len(), 2);
    assert_eq!(m.label_array()[1].as_str(), "d");
    assert_eq!(m.label_array_nullable().as_ref().unwrap()[0].as_str(), "e");
}

#[test]
fn read_back_invalid_text_fails_row() {
    let bad = |label: &str, n: Option<&str>, arr: &[&str], an: Option<&[&str]>| {
        ExampleModel::from_columns(
            1,
            label.to_string(),
            n.map(|s| s.to_string()),
            strings(arr),
            an.map(strings),
        )
        .unwrap_err()
    };
    assert_eq!(bad("bad label!", None, &["a"], None), LabelError::InvalidLabel);
    assert_eq!(bad("a", Some("b-c"), &["a"], None), LabelError::InvalidLabel);
    assert_eq!(bad("a", None, &["a", ""], None), LabelError::InvalidLabel);
    assert_eq!(bad("a", None, &["a"], Some(&["ok", "no!"])), LabelError::InvalidLabel);
}

#[test]
fn bad_label_never_reaches_insert() {
    let r = Label::parse("bad label!");
    assert_eq!(r, Err(LabelError::InvalidLabel));
}
