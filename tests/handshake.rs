use chat_realtime::handshake::{extract_user_id_from_query, parse_i32_text, user_id_from_pairs};

#[test]
fn query_with_user_id() {
    assert_eq!(extract_user_id_from_query("userId=42"), Some(42));
}

#[test]
fn query_with_other_pairs_first() {
    assert_eq!(extract_user_id_from_query("token=abc&userId=-3&x=1"), Some(-3));
}

#[test]
fn query_with_encoded_sign() {
    assert_eq!(extract_user_id_from_query("userId=%2B7"), Some(7));
}

#[test]
fn query_without_user_id() {
    assert_eq!(extract_user_id_from_query("user=5"), None);
    assert_eq!(extract_user_id_from_query(""), None);
}

#[test]
fn query_with_bad_number() {
    assert_eq!(extract_user_id_from_query("userId=abc"), None);
    assert_eq!(extract_user_id_from_query("userId=2147483648"), None);
    assert_eq!(extract_user_id_from_query("userId="), None);
}

#[test]
fn first_user_id_pair_decides() {
    assert_eq!(extract_user_id_from_query("userId=x&userId=5"), None);
    assert_eq!(extract_user_id_from_query("userId=6&userId=5"), Some(6));
}

#[test]
fn pairs_lookup() {
    let pairs = vec![("a".to_string(), "1".to_string()), ("userId".to_string(), "12".to_string())];
    assert_eq!(user_id_from_pairs(&pairs), Some(12));
    assert_eq!(user_id_from_pairs(&vec![]), None);
}

#[test]
fn parse_accepts_what_str_parse_accepts() {
    for s in ["0", "7", "+7", "-7", "007", "2147483647", "-2147483648", "99999999999999"] {
        assert_eq!(parse_i32_text(s), s.parse::<i32>().ok(), "{}", s);
    }
}

#[test]
fn parse_rejects_what_str_parse_rejects() {
    for s in ["", "+", "-", "1a", " 1", "1 ", "2147483648", "-2147483649", "--1", "+-1", "١"] {
        assert_eq!(parse_i32_text(s), None, "{}", s);
        assert!(s.parse::<i32>().is_err());
    }
}
