use json_split::json::{get_field_as_string, Json};

fn text(s: &str) -> Json {
    Json::Text(s.to_string())
}

fn object(members: Vec<(&str, Json)>) -> Json {
    Json::Object(members.into_iter().map(|(k, v)| (k.to_string(), v)).collect())
}

#[test]
fn field_of_an_object_is_found() {
    let value = object(vec![("j", text("x"))]);
    assert_eq!(get_field_as_string(&value, "j"), Some("x".to_string()));
}

#[test]
fn get_finds_each_member_by_its_key() {
    let value = object(vec![("a", Json::Bool(true)), ("b", Json::Null), ("c", text("z"))]);
    assert_eq!(value.get("a"), Some(&Json::Bool(true)));
    assert_eq!(value.get("b"), Some(&Json::Null));
    assert_eq!(value.get("c"), Some(&text("z")));
    assert_eq!(value.get("d"), None);
    assert_eq!(value.get(""), None);
}

#[test]
fn get_prefers_the_last_of_equal_keys() {
    let value = object(vec![("k", text("first")), ("other", Json::Null), ("k", text("last"))]);
    assert_eq!(value.get("k"), Some(&text("last")));
    assert_eq!(get_field_as_string(&value, "k"), Some("last".to_string()));
}

#[test]
fn get_on_anything_but_an_object_finds_nothing() {
    assert_eq!(Json::Null.get("a"), None);
    assert_eq!(Json::Bool(false).get("a"), None);
    assert_eq!(Json::Number(serde_json::Number::from(3u64)).get("a"), None);
    assert_eq!(text("a").get("a"), None);
    assert_eq!(Json::Array(vec![text("a")]).get("a"), None);
    assert_eq!(Json::Array(vec![text("a")]).get("0"), None);
}

#[test]
fn as_str_is_for_strings_only() {
    assert_eq!(text("some string").as_str(), Some("some string"));
    assert_eq!(text("").as_str(), Some(""));
    assert_eq!(Json::Bool(false).as_str(), None);
    assert_eq!(Json::Null.as_str(), None);
    assert_eq!(Json::Number(serde_json::Number::from(-7i64)).as_str(), None);
    assert_eq!(Json::Array(vec![]).as_str(), None);
    assert_eq!(object(vec![]).as_str(), None);
}

#[test]
fn field_that_is_missing_gives_nothing() {
    let value = object(vec![("j", text("x"))]);
    assert_eq!(get_field_as_string(&value, "k"), None);
    assert_eq!(get_field_as_string(&object(vec![]), "j"), None);
}

#[test]
fn field_that_is_no_string_gives_nothing() {
    let value = object(vec![
        ("n", Json::Number(serde_json::Number::from(1u64))),
        ("b", Json::Bool(true)),
        ("z", Json::Null),
        ("a", Json::Array(vec![text("x")])),
        ("o", object(vec![("j", text("x"))])),
    ]);
    assert_eq!(get_field_as_string(&value, "n"), None);
    assert_eq!(get_field_as_string(&value, "b"), None);
    assert_eq!(get_field_as_string(&value, "z"), None);
    assert_eq!(get_field_as_string(&value, "a"), None);
    assert_eq!(get_field_as_string(&value, "o"), None);
}

#[test]
fn field_of_a_value_that_is_no_object_gives_nothing() {
    assert_eq!(get_field_as_string(&text("j"), "j"), None);
    assert_eq!(get_field_as_string(&Json::Array(vec![]), "j"), None);
    assert_eq!(get_field_as_string(&Json::Null, "j"), None);
}

#[test]
fn field_keys_are_compared_character_by_character() {
    let value = object(vec![("clé", text("é")), ("cle", text("e")), ("CLE", text("E"))]);
    assert_eq!(get_field_as_string(&value, "clé"), Some("é".to_string()));
    assert_eq!(get_field_as_string(&value, "cle"), Some("e".to_string()));
    assert_eq!(get_field_as_string(&value, "CLE"), Some("E".to_string()));
    assert_eq!(get_field_as_string(&value, "cl"), None);
}
