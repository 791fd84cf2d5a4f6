use chat_gateway::json::{Json, Number};

fn text(s: &str) -> Json {
    Json::Text(s.to_string())
}

fn object(members: Vec<(&str, Json)>) -> Json {
    Json::Object(members.into_iter().map(|(k, v)| (k.to_string(), v)).collect())
}

#[test]
fn get_finds_a_member_by_name() {
    let doc = object(vec![("id", text("x")), ("created", Json::Number(Number::Unsigned(7)))]);
    assert_eq!(doc.get("id"), Some(&text("x")));
    assert_eq!(doc.get("created"), Some(&Json::Number(Number::Unsigned(7))));
    assert_eq!(doc.get("missing"), None);
    assert_eq!(doc.get(""), None);
    assert_eq!(doc.get("ID"), None);
}

#[test]
fn get_takes_the_last_of_equal_names() {
    let doc = object(vec![("a", text("first")), ("b", Json::Null), ("a", text("last"))]);
    assert_eq!(doc.get("a"), Some(&text("last")));
    assert_eq!(doc.get("b"), Some(&Json::Null));
}

#[test]
fn get_is_nothing_on_other_values() {
    assert_eq!(Json::Null.get("a"), None);
    assert_eq!(text("a").get("a"), None);
    assert_eq!(Json::List(vec![text("a")]).get("a"), None);
    assert_eq!(object(vec![]).get("a"), None);
}

#[test]
fn at_finds_an_element_by_position() {
    let list = Json::List(vec![text("zero"), text("one")]);
    assert_eq!(list.at(0), Some(&text("zero")));
    assert_eq!(list.at(1), Some(&text("one")));
    assert_eq!(list.at(2), None);
    assert_eq!(Json::List(Vec::new()).at(0), None);
    assert_eq!(object(vec![("0", Json::Null)]).at(0), None);
    assert_eq!(Json::Bool(true).at(0), None);
}

#[test]
fn as_str_reads_text_only() {
    assert_eq!(text("hi").as_str(), Some("hi"));
    assert_eq!(text("").as_str(), Some(""));
    assert_eq!(Json::Null.as_str(), None);
    assert_eq!(Json::Number(Number::Unsigned(1)).as_str(), None);
    assert_eq!(Json::Bool(false).as_str(), None);
}

#[test]
fn as_u64_reads_non_negative_integers_only() {
    assert_eq!(Json::Number(Number::Unsigned(0)).as_u64(), Some(0));
    assert_eq!(Json::Number(Number::Unsigned(u64::MAX)).as_u64(), Some(u64::MAX));
    assert_eq!(Json::Number(Number::Signed(5)).as_u64(), Some(5));
    assert_eq!(Json::Number(Number::Signed(i64::MAX)).as_u64(), Some(9223372036854775807));
    assert_eq!(Json::Number(Number::Signed(-1)).as_u64(), None);
    assert_eq!(Json::Number(Number::Signed(i64::MIN)).as_u64(), None);
    assert_eq!(Json::Number(Number::Decimal("1.5".to_string())).as_u64(), None);
    assert_eq!(text("7").as_u64(), None);
    assert_eq!(Json::Null.as_u64(), None);
    assert_eq!(Number::Signed(0).as_u64(), Some(0));
}
