use catalog_lib::{
    delete_reg_key_vaule, open_reg_subkey, set_reg_vaule, str_to_pcwstr, RegType, StoreCommand,
    StoreReply, ToOptionU8Slice, ToRegValue,
};

#[test]
fn names_are_wide_and_closed_by_zero() {
    assert_eq!(str_to_pcwstr(""), vec![0]);
    assert_eq!(str_to_pcwstr("ab"), vec![0x61, 0x62, 0]);
    assert_eq!(str_to_pcwstr("é€"), vec![0xe9, 0x20ac, 0]);
    assert_eq!(str_to_pcwstr("\u{1f600}"), vec![0xd83d, 0xde00, 0]);
    assert_eq!(str_to_pcwstr("\u{10000}\u{10ffff}\u{ffff}"), vec![0xd800, 0xdc00, 0xdbff, 0xdfff, 0xffff, 0]);
    let expected: Vec<u16> = "CustomCatalogHashValues 😀 ß".encode_utf16().chain(std::iter::once(0)).collect();
    assert_eq!(str_to_pcwstr("CustomCatalogHashValues 😀 ß"), expected);
}

#[test]
fn text_is_stored_low_byte_first() {
    let (name, data) = set_reg_vaule("N", "a€\u{1f600}");
    assert_eq!(name, vec![0x4e, 0]);
    assert_eq!(data, vec![0x61, 0x00, 0xac, 0x20, 0x3d, 0xd8, 0x00, 0xde]);
    let (_, data) = set_reg_vaule("N", "");
    assert_eq!(data, Vec::<u8>::new());
}

#[test]
fn several_texts_make_one_value() {
    let value = vec!["a".to_string(), "bc".to_string()].to_reg_value();
    assert_eq!(value.vtype, RegType::MultiSz);
    assert_eq!(value.bytes, vec![0x61, 0, 0, 0, 0x62, 0, 0x63, 0, 0, 0, 0, 0]);
    let value = Vec::<String>::new().to_reg_value();
    assert_eq!(value.bytes, vec![0, 0]);
    let value = vec!["".to_string()].to_reg_value();
    assert_eq!(value.bytes, vec![0, 0, 0, 0]);
}

#[test]
fn empty_text_is_no_value() {
    assert_eq!("".to_option_u8(), None);
    assert_eq!("ab".to_option_u8(), Some(&b"ab"[..]));
    assert_eq!("é".to_option_u8(), Some(&[0xc3u8, 0xa9][..]));
}

#[test]
fn values_are_deleted_in_the_key_or_below_it() {
    let names = vec!["A".to_string(), "B".to_string()];
    assert_eq!(
        delete_reg_key_vaule("K", None, &names),
        vec![
            StoreCommand::DeleteValue { key: "K".to_string(), name: "A".to_string() },
            StoreCommand::DeleteValue { key: "K".to_string(), name: "B".to_string() },
        ]
    );
    assert_eq!(
        delete_reg_key_vaule("K", Some("IgnoreList"), &names),
        vec![
            StoreCommand::DeleteValue { key: "K\\IgnoreList".to_string(), name: "A".to_string() },
            StoreCommand::DeleteValue { key: "K\\IgnoreList".to_string(), name: "B".to_string() },
        ]
    );
    assert_eq!(delete_reg_key_vaule("K", Some("S"), &Vec::new()), Vec::new());
}

#[test]
fn key_that_does_not_open_is_named() {
    assert_eq!(open_reg_subkey("SOFTWARE\\X", StoreReply::Done), Ok(()));
    assert_eq!(open_reg_subkey("SOFTWARE\\X", StoreReply::Absent), Ok(()));
    assert_eq!(
        open_reg_subkey("SOFTWARE\\X", StoreReply::Failed),
        Err("Failed to turn on the \"SOFTWARE\\X\" key".to_string())
    );
}
