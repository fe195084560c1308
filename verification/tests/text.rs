use ipfs_client::text::{chars_of, decimal_text, push_decimal, same_text, split_text, string_of};

#[test]
fn characters_of_text_come_in_order() {
    assert_eq!(chars_of("a/é€"), vec!['a', '/', 'é', '€']);
    assert_eq!(chars_of(""), Vec::<char>::new());
}

#[test]
fn text_of_characters_is_read_back() {
    let chars = vec!['Q', 'm', 'ß', '1'];
    assert_eq!(string_of(&chars), "Qmß1");
    assert_eq!(chars_of(&string_of(&chars)), chars);
}

#[test]
fn decimal_numerals() {
    assert_eq!(decimal_text(0), "0");
    assert_eq!(decimal_text(7), "7");
    assert_eq!(decimal_text(10), "10");
    assert_eq!(decimal_text(5001), "5001");
    assert_eq!(decimal_text(65535), "65535");
    assert_eq!(decimal_text(u64::MAX), "18446744073709551615");
}

#[test]
fn decimal_is_appended() {
    let mut text = String::from("port ");
    push_decimal(&mut text, 8080);
    assert_eq!(text, "port 8080");
}

#[test]
fn split_gives_one_piece_more_than_separators() {
    assert_eq!(split_text("", '/'), vec![""]);
    assert_eq!(split_text("a", '/'), vec!["a"]);
    assert_eq!(split_text("a/b", '/'), vec!["a", "b"]);
    assert_eq!(split_text("/a", '/'), vec!["", "a"]);
    assert_eq!(split_text("a/", '/'), vec!["a", ""]);
    assert_eq!(split_text("//", '/'), vec!["", "", ""]);
    assert_eq!(split_text("/ip4/127.0.0.1/tcp/5001", '/'), vec!["", "ip4", "127.0.0.1", "tcp", "5001"]);
}

#[test]
fn split_agrees_with_std() {
    for text in ["", "/", "a//b/", "x/y/z", "no separator", "é/€"] {
        let expected: Vec<String> = text.split('/').map(|piece| piece.to_string()).collect();
        assert_eq!(split_text(text, '/'), expected);
        assert_eq!(split_text(text, '/').join("/"), text);
    }
}

#[test]
fn same_text_compares_characters() {
    assert!(same_text("ipfs", "ipfs"));
    assert!(same_text("", ""));
    assert!(!same_text("ipfs", "ipns"));
    assert!(!same_text("ipfs", "ipf"));
    assert!(!same_text("ipf", "ipfs"));
}
