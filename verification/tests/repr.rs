use sql_builder::number::{signed_to_string, unsigned_to_string};
use sql_builder::repr::{format_literal, quote, ToSqlRepr};
use sql_builder::text::{enclose, join_strings, join_strs};
use uuid::Uuid;

#[test]
fn test_to_sql_repr() {
    assert_eq!(1.to_sql_repr(), "1");
    assert_eq!(true.to_sql_repr(), "TRUE");
    assert_eq!(false.to_sql_repr(), "FALSE");
    assert_eq!("hello".to_sql_repr(), "'hello'");
    assert_eq!(Some(1).to_sql_repr(), "1");
    assert_eq!(Some("hello").to_sql_repr(), "'hello'");
    assert_eq!(Some(true).to_sql_repr(), "TRUE");
    assert_eq!(Some(false).to_sql_repr(), "FALSE");
    assert_eq!(None::<i32>.to_sql_repr(), "NULL");
    assert_eq!(None::<String>.to_sql_repr(), "NULL");
    assert_eq!(None::<bool>.to_sql_repr(), "NULL");
}

#[test]
fn test_json() {
    let mut map = serde_json::Map::new();
    map.insert(
        "hello".to_string(),
        serde_json::Value::String("world".to_string()),
    );
    let json = serde_json::Value::Object(map);
    assert_eq!(json.to_sql_repr(), "'{\"hello\":\"world\"}'");
}

#[test]
fn test_uuid() {
    let uuid = Uuid::new_v4();
    assert_eq!(
        uuid.to_sql_repr(),
        format!("UUID_TO_BIN('{}')", uuid.to_string())
    );
}

#[test]
fn test_uuid_of_known_bits() {
    let uuid = Uuid::from_u128(0x936da01f_9abd_4d9d_80c7_02af85c822a8);
    assert_eq!(
        uuid.to_sql_repr(),
        "UUID_TO_BIN('936da01f-9abd-4d9d-80c7-02af85c822a8')"
    );
    assert_eq!(
        Some(uuid).to_sql_repr(),
        "UUID_TO_BIN('936da01f-9abd-4d9d-80c7-02af85c822a8')"
    );
    assert_eq!(None::<Uuid>.to_sql_repr(), "NULL");
}

#[test]
fn test_json_kinds() {
    assert_eq!(serde_json::Value::Null.to_sql_repr(), "'null'");
    assert_eq!(serde_json::Value::Bool(true).to_sql_repr(), "'true'");
    assert_eq!(
        serde_json::Value::Array(vec![
            serde_json::Value::from(1),
            serde_json::Value::from("a"),
        ])
        .to_sql_repr(),
        "'[1,\"a\"]'"
    );
    assert_eq!(None::<serde_json::Value>.to_sql_repr(), "NULL");
}

#[test]
fn test_integers_of_every_width() {
    assert_eq!(0u8.to_sql_repr(), "0");
    assert_eq!(255u8.to_sql_repr(), "255");
    assert_eq!(65535u16.to_sql_repr(), "65535");
    assert_eq!(4294967295u32.to_sql_repr(), "4294967295");
    assert_eq!(18446744073709551615u64.to_sql_repr(), "18446744073709551615");
    assert_eq!((-128i8).to_sql_repr(), "-128");
    assert_eq!(127i8.to_sql_repr(), "127");
    assert_eq!((-32768i16).to_sql_repr(), "-32768");
    assert_eq!((-2147483648i32).to_sql_repr(), "-2147483648");
    assert_eq!(i64::MIN.to_sql_repr(), "-9223372036854775808");
    assert_eq!(i64::MAX.to_sql_repr(), "9223372036854775807");
    assert_eq!((-1i64).to_sql_repr(), "-1");
    assert_eq!(10u64.to_sql_repr(), "10");
    assert_eq!(1009u64.to_sql_repr(), "1009");
}

#[test]
fn test_integers_agree_with_std() {
    let mut n: u64 = 1;
    for _ in 0..64 {
        assert_eq!(unsigned_to_string(n), n.to_string());
        assert_eq!(unsigned_to_string(n - 1), (n - 1).to_string());
        let s = n as i64;
        assert_eq!(signed_to_string(s), s.to_string());
        assert_eq!(signed_to_string(s.wrapping_neg()), s.wrapping_neg().to_string());
        n = n.wrapping_mul(2).wrapping_add(n % 7);
    }
}

#[test]
fn test_text_is_quoted_without_escaping() {
    assert_eq!("".to_sql_repr(), "''");
    assert_eq!("it's".to_sql_repr(), "'it's'");
    assert_eq!("hello".to_string().to_sql_repr(), "'hello'");
    assert_eq!(Some("x".to_string()).to_sql_repr(), "'x'");
    assert_eq!(Some(Some(3u8)).to_sql_repr(), "3");
    assert_eq!(Some(None::<u8>).to_sql_repr(), "NULL");
    assert_eq!(quote("a b"), "'a b'");
    assert_eq!(format_literal(&17u32), "17");
    assert_eq!(format_literal(&"x"), "'x'");
    assert_eq!(format_literal(&None::<bool>), "NULL");
}

#[test]
fn test_join_and_enclose() {
    assert_eq!(join_strs(&vec![], ", "), "");
    assert_eq!(join_strs(&vec!["a"], ", "), "a");
    assert_eq!(join_strs(&vec!["a", "b", "c"], ", "), "a, b, c");
    assert_eq!(join_strings(&[], "-"), "");
    assert_eq!(join_strings(&["x".to_string()], "-"), "x");
    assert_eq!(
        join_strings(&["x".to_string(), "".to_string(), "z".to_string()], "-"),
        "x--z"
    );
    assert_eq!(enclose("(", "a", ")"), "(a)");
}
