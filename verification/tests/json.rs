use ubersetzer::json::{Json, Member};

fn member(name: &str, value: Json) -> Member {
    Member { name: name.to_string(), value }
}

#[test]
fn member_is_found_by_its_name() {
    let object = Json::Object(vec![
        member("a", Json::Null),
        member("b", Json::Bool(true)),
        member("", Json::Text("empty".to_string())),
    ]);
    assert_eq!(object.member("a"), Some(&Json::Null));
    assert_eq!(object.member("b"), Some(&Json::Bool(true)));
    assert_eq!(object.member(""), Some(&Json::Text("empty".to_string())));
    assert_eq!(object.member("c"), None);
    assert_eq!(object.member("A"), None);
}

#[test]
fn first_member_of_a_name_is_the_one_found() {
    let object = Json::Object(vec![member("a", Json::Bool(false)), member("a", Json::Bool(true))]);
    assert_eq!(object.member("a"), Some(&Json::Bool(false)));
}

#[test]
fn only_an_object_has_members() {
    assert_eq!(Json::Null.member("a"), None);
    assert_eq!(Json::Array(vec![Json::Null]).member("a"), None);
    assert_eq!(Json::Text("a".to_string()).member("a"), None);
    assert_eq!(Json::Object(vec![]).member("a"), None);
}

#[test]
fn only_an_array_has_items() {
    let items = vec![Json::Null, Json::Bool(true)];
    assert_eq!(Json::Array(vec![Json::Null, Json::Bool(true)]).items(), Some(&items));
    assert_eq!(Json::Array(vec![]).items(), Some(&vec![]));
    assert_eq!(Json::Object(vec![]).items(), None);
    assert_eq!(Json::Null.items(), None);
}

#[test]
fn only_a_string_has_text() {
    assert_eq!(Json::Text("house".to_string()).text(), Some(&"house".to_string()));
    assert_eq!(Json::Number("1".to_string()).text(), None);
    assert_eq!(Json::Bool(true).text(), None);
    assert_eq!(Json::Null.text(), None);
}
