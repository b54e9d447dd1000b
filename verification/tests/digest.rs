use catalog_lib::digest::strip_padding;
use catalog_lib::{digest, get_hash_sha384, DigestRecord};

#[test]
fn digest_of_known_content() {
    let record = digest("C:\\a.xml", b"abc");
    assert_eq!(record.source_path(), "C:\\a.xml");
    assert_eq!(
        record.hash_base64(),
        "7AFJgohRb8kmRZ9Y4satjfm0c8sPwIwlltp88OSb5LKY2IzqknrH9Tnx7fIoN20l"
    );
    assert_eq!(
        digest("", b"").hash_base64(),
        "DGOnW4ReT30BEH2FLkwkhcUaUKqqlPxhmV5xu+6YOirDcTgxJkrbR/tr0eBY1fAE"
    );
}

#[test]
fn same_content_same_digest() {
    let content = b"<Manifest baseLocation=\"\"><SoftwareComponent path=\"c\"/></Manifest>";
    let first = get_hash_sha384("m.xml", content);
    let second = get_hash_sha384("m.xml", content);
    assert_eq!(first, second);
    assert_eq!(
        first,
        "{\"CatalogHashValues\":[{\"Key\":\"m.xml\",\"Value\":\"6rFU/EIQMqB4Wb/ZpD0G+QaT013u1mSsDgPlk+ayZcTgq23rRrJmgKuHaxCRpCl1\"}]}"
    );
    assert_ne!(first, get_hash_sha384("m.xml", b"other"));
}

#[test]
fn padding_is_stripped_and_nothing_else() {
    assert_eq!(strip_padding("SGVsbG8gd29ybGQ="), "SGVsbG8gd29ybGQ");
    assert_eq!(strip_padding("YQ=="), "YQ");
    assert_eq!(strip_padding("YWJj"), "YWJj");
    assert_eq!(strip_padding("a=b=="), "a=b");
    assert_eq!(strip_padding("===="), "");
    assert_eq!(strip_padding(""), "");
    let record = DigestRecord::new("p", "YQ==");
    assert_eq!(record.hash_base64(), "YQ");
}

#[test]
fn record_is_one_line_of_json() {
    let record = DigestRecord::new("C:\\a.xml", "abc123");
    assert_eq!(
        record.to_json(),
        r#"{"CatalogHashValues":[{"Key":"C:\\a.xml","Value":"abc123"}]}"#
    );
}

#[test]
fn path_is_escaped_for_json() {
    let record = DigestRecord::new("a\"b\\c\nd\re\tf\u{8}g\u{c}h\u{1}i\u{1f}j/k\u{7f}é", "x");
    assert_eq!(
        record.to_json(),
        "{\"CatalogHashValues\":[{\"Key\":\"a\\\"b\\\\c\\nd\\re\\tf\\bg\\fh\\u0001i\\u001fj/k\u{7f}é\",\"Value\":\"x\"}]}"
    );
}
