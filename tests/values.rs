use hello_mcp::json::Json;
use hello_mcp::line::{is_blank, is_white_space};

fn member(k: &str, v: Json) -> (String, Json) {
    (k.to_string(), v)
}

#[test]
fn blank_lines_are_recognised() {
    assert!(is_blank(""));
    assert!(is_blank("   "));
    assert!(is_blank("\t \r\n"));
    assert!(is_blank("\u{a0}\u{3000}\u{2028}\u{85}"));
    assert!(!is_blank(" x "));
    assert!(!is_blank("{}"));
    assert!(!is_blank("\u{200b}"));
}

#[test]
fn white_space_matches_std() {
    for n in 0u32..0x3100 {
        if let Some(c) = char::from_u32(n) {
            assert_eq!(is_white_space(c), c.is_whitespace(), "{:x}", n);
        }
    }
}

#[test]
fn get_finds_first_member() {
    let obj = Json::Object(vec![
        member("a", Json::Bool(true)),
        member("b", Json::String("x".to_string())),
        member("a", Json::Null),
    ]);
    assert!(matches!(obj.get("a"), Some(Json::Bool(true))));
    assert_eq!(obj.get("b").and_then(|b| b.as_str()), Some("x"));
    assert!(obj.get("c").is_none());
    assert!(Json::Array(vec![]).get("a").is_none());
    assert!(Json::String("a".to_string()).get("a").is_none());
}

#[test]
fn as_str_only_for_strings() {
    assert_eq!(Json::String("hi".to_string()).as_str(), Some("hi"));
    assert_eq!(Json::Number("1".to_string()).as_str(), None);
    assert_eq!(Json::Null.as_str(), None);
}

#[test]
fn copy_is_deep() {
    let v = Json::Array(vec![
        Json::Number("1.5".to_string()),
        Json::Object(vec![member("k", Json::Array(vec![Json::Bool(false)]))]),
    ]);
    let c = v.copy();
    assert_eq!(format!("{:?}", c), format!("{:?}", v));
}

#[test]
fn builders_keep_member_order() {
    let o = Json::object3("z", Json::Null, "a", Json::Bool(true), "m", Json::empty_object());
    match o {
        Json::Object(members) => {
            let keys: Vec<&str> = members.iter().map(|(k, _)| k.as_str()).collect();
            assert_eq!(keys, vec!["z", "a", "m"]);
        }
        _ => panic!("not an object"),
    }
    assert!(matches!(Json::array1(Json::Null), Json::Array(ref items) if items.len() == 1));
    assert!(matches!(Json::from_text("t"), Json::String(ref s) if s == "t"));
}
