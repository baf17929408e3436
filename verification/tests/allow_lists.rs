use aquadoggo_cli::allow_list::{
    serialize_with_wildcard, AllowListError, UncheckedAllowList, WILDCARD,
};
use aquadoggo_cli::value::Value;

fn strings(list: &[&str]) -> Vec<String> {
    list.iter().map(|text| text.to_string()).collect()
}

#[test]
fn wildcard_is_a_star() {
    assert_eq!(WILDCARD, "*");
}

#[test]
fn wildcard_is_written_as_text() {
    assert_eq!(UncheckedAllowList::Wildcard.serialize(), Value::Text("*".to_string()));
}

#[test]
fn list_is_written_as_it_is() {
    let list = UncheckedAllowList::Members(strings(&["a", "", "*"]));
    assert_eq!(list.serialize(), Value::Texts(strings(&["a", "", "*"])));
}

#[test]
fn written_lists_are_read_back() {
    let lists = vec![
        UncheckedAllowList::Wildcard,
        UncheckedAllowList::Members(Vec::new()),
        UncheckedAllowList::Members(strings(&["*"])),
        UncheckedAllowList::Members(strings(&["one", "two"])),
    ];
    for list in lists {
        assert_eq!(UncheckedAllowList::deserialize(list.serialize()), Ok(list));
    }
}

#[test]
fn only_the_wildcard_text_is_read() {
    for text in ["", "**", " *", "blob_v1"] {
        let error = UncheckedAllowList::deserialize(Value::Text(text.to_string())).unwrap_err();
        assert_eq!(error, AllowListError::NotTheWildcard);
        assert_eq!(error.message(), "only wildcard strings allowed");
    }
}

#[test]
fn other_values_are_not_read() {
    for value in [Value::Empty, Value::Number(7), Value::Flag(true)] {
        let error = UncheckedAllowList::deserialize(value).unwrap_err();
        assert_eq!(error, AllowListError::UnexpectedValue);
        assert_eq!(
            error.message(),
            "data did not match any variant of untagged enum Value"
        );
    }
}

#[test]
fn lone_wildcard_argument_becomes_text() {
    let value = serialize_with_wildcard(&Some(strings(&["*"])));
    assert_eq!(value, Value::Text("*".to_string()));
    assert_eq!(
        UncheckedAllowList::deserialize(value),
        Ok(UncheckedAllowList::Wildcard)
    );
}

#[test]
fn lone_empty_argument_becomes_empty_list() {
    let value = serialize_with_wildcard(&Some(strings(&[""])));
    assert_eq!(value, Value::Texts(Vec::new()));
}

#[test]
fn other_arguments_stay_a_list() {
    for list in [
        vec![],
        vec!["a"],
        vec!["*", "*"],
        vec!["", ""],
        vec!["*", "a"],
    ] {
        assert_eq!(
            serialize_with_wildcard(&Some(strings(&list))),
            Value::Texts(strings(&list))
        );
    }
}

#[test]
fn read_values_are_written_back() {
    for text in ["*", "a"] {
        if let Ok(list) = UncheckedAllowList::deserialize(Value::Text(text.to_string())) {
            assert_eq!(list.serialize(), Value::Text("*".to_string()));
        } else {
            assert_eq!(text, "a");
        }
    }
    let value = Value::Texts(strings(&["b", "a", "b"]));
    let list = UncheckedAllowList::deserialize(Value::Texts(strings(&["b", "a", "b"]))).unwrap();
    assert_eq!(list.serialize(), value);
}
