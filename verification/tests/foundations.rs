use buzz_gateway::framing::{feed, frame_line, Fed};
use buzz_gateway::json::{decode, encode, Json};
use buzz_gateway::text::{
    borrowed, decimal_text, find_first_line, find_second_word, is_white_space, join, parse_u16,
    same_bytes, same_text, split_once, trim,
};

#[test]
fn white_space_is_that_of_the_standard_library() {
    for code in 0..=0x10FFFFu32 {
        if let Some(c) = char::from_u32(code) {
            assert_eq!(is_white_space(c), c.is_whitespace(), "{:x}", code);
        }
    }
}

#[test]
fn texts_are_compared_trimmed_and_split() {
    assert!(same_text("abc", "abc"));
    assert!(!same_text("abc", "abd"));
    assert!(!same_text("abc", "ab"));
    assert!(same_bytes(b"xy", b"xy"));
    assert!(!same_bytes(b"xy", b"xz"));
    for s in ["", "  ", " a ", "\u{2003}ü b\u{a0}\n", "a"] {
        assert_eq!(trim(s), s.trim());
    }
    for s in ["a=b=c", "=", "ab", "ü=ö", ""] {
        let expected = s.split_once('=').map(|(a, b)| (a.to_string(), b.to_string()));
        assert_eq!(split_once(s, '='), expected);
    }
}

#[test]
fn words_and_lines_are_found() {
    for s in ["HTTP/1.1 200 OK", " a  b ", "one", "", "a\u{3000}b", "\tx\ty\tz"] {
        let expected = s.split_whitespace().nth(1).map(|w| w.to_string());
        assert_eq!(find_second_word(s), expected, "{s:?}");
    }
    for s in ["a\r\nb", "a\nb", "\n", "", "a\r", "\r\n", "a\rb\n"] {
        let expected = s.lines().next().map(|w| w.to_string());
        assert_eq!(find_first_line(s), expected, "{s:?}");
    }
}

#[test]
fn numbers_are_read_and_written() {
    for s in ["0", "200", "+200", "65535", "65536", "", "+", "-1", "0200", "99999999999", "2a"] {
        assert_eq!(parse_u16(s), s.parse::<u16>().ok(), "{s:?}");
    }
    for n in [0u64, 9, 10, 1048576, u64::MAX] {
        assert_eq!(decimal_text(n), n.to_string());
    }
}

#[test]
fn parts_are_joined() {
    let parts = vec!["a".to_string(), "".to_string(), "c".to_string()];
    assert_eq!(join(&parts, ", "), "a, , c");
    assert_eq!(join(&Vec::new(), ", "), "");
    assert_eq!(borrowed(&Some("x".to_string())), Some("x"));
    assert_eq!(borrowed(&None), None);
}

#[test]
fn json_is_read_and_written_again() {
    let text = r#"{"b":[1,-2,1.5,true,null,"x\ny"],"a":{"k":"v"}}"#;
    let value = decode(text.as_bytes()).unwrap();
    assert_eq!(encode(&value), r#"{"a":{"k":"v"},"b":[1,-2,1.5,true,null,"x\ny"]}"#);
    assert!(decode(b"{").is_err());
    assert!(decode(b"1 2").is_err());
    assert!(decode(&[0xff]).is_err());
    assert_eq!(decode(b"").unwrap_err(), "EOF while parsing a value at line 1 column 0");
}

#[test]
fn json_fields_are_found() {
    let value = decode(br#"{"n":18446744073709551615,"s":"t","o":{"i":true},"z":-1,"s2":"a","s2":"b"}"#).unwrap();
    assert_eq!(value.get("n").and_then(|n| n.as_u64()), Some(u64::MAX));
    assert_eq!(value.get("z").and_then(|n| n.as_u64()), None);
    assert_eq!(value.get_str("s"), Some("t"));
    assert_eq!(value.get_str("s2"), Some("b"));
    assert_eq!(value.get_str("n"), None);
    assert!(value.field_is("s", "t"));
    assert!(!value.field_is("s", "u"));
    assert!(value.get_inner("o", "i").unwrap().is_true());
    assert!(value.get_inner("s", "i").is_none());
    assert_eq!(encode(&value.take_field("o")), r#"{"i":true}"#);
    assert_eq!(encode(&Json::text("x").take_field("o")), "null");
}

#[test]
fn json_is_built() {
    let value = Json::object()
        .with("a", Json::number(7))
        .with("a", Json::optional(None))
        .with("b", Json::array(vec![Json::text("\u{e9}"), Json::Bool(false)]));
    assert_eq!(encode(&value), "{\"a\":null,\"b\":[\"\u{e9}\",false]}");
    assert_eq!(encode(&Json::text("x").with("a", Json::Null)), "\"x\"");
}

#[test]
fn a_line_is_read_back() {
    let frame = Json::object().with("type", Json::text("event\nwith a line feed"));
    let bytes = frame_line(&frame);
    assert_eq!(bytes.iter().filter(|b| **b == b'\n').count(), 1);
    let mut line: Vec<u8> = Vec::new();
    let mut done = false;
    for byte in &bytes {
        match feed(&mut line, bytes.len() - 1, *byte) {
            Fed::More => assert!(!done),
            Fed::Whole => done = true,
            Fed::TooLarge => panic!("the line fits"),
        }
    }
    assert!(done);
    assert_eq!(encode(&decode(&line).unwrap()), encode(&frame));
}

#[test]
fn a_long_line_is_refused() {
    let mut line: Vec<u8> = Vec::new();
    assert_eq!(feed(&mut line, 2, b'a'), Fed::More);
    assert_eq!(feed(&mut line, 2, b'b'), Fed::More);
    assert_eq!(feed(&mut line, 2, b'c'), Fed::TooLarge);
    assert_eq!(line, b"ab");
    assert_eq!(feed(&mut line, 2, b'\n'), Fed::Whole);
}

#[test]
fn raw_json_text_is_no_object() {
    let name = "$serde_json::private::RawValue";
    let marked = |text: &str| encode(&Json::object().with(name, Json::text(text)));
    assert_eq!(encode(&decode(marked("1").as_bytes()).unwrap()), "1");
    assert!(decode(marked("x").as_bytes()).is_err());
    let later = Json::object().with("$", Json::Null).with(name, Json::text("1"));
    assert_eq!(encode(&decode(encode(&later).as_bytes()).unwrap()), encode(&later));
}
