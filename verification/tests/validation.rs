use notion_cli::error::IdError;
use notion_cli::validation::{BlockId, DataSourceId, DatabaseId, PageId, UserId};

const HEX: &str = "abcdef0123456789abcdef0123456789";
const DASHED: &str = "abcdef01-2345-6789-abcd-ef0123456789";

#[test]
fn accepts_32_hex_digits() {
    let id = PageId::parse(HEX).unwrap();
    assert_eq!(id.as_str(), DASHED);
}

#[test]
fn accepts_dashed_uuid_and_lowercases() {
    let id = DataSourceId::parse("ABCDEF01-2345-6789-ABCD-EF0123456789").unwrap();
    assert_eq!(id.as_str(), DASHED);
}

#[test]
fn accepts_notion_url() {
    let id = PageId::from_url_or_id("https://notion.so/My-Page-abcdef0123456789abcdef0123456789").unwrap();
    assert_eq!(id.as_str(), DASHED);
    let id = BlockId::from_url_or_id("https://www.notion.so/ws/abcdef0123456789abcdef0123456789?v=1#x").unwrap();
    assert_eq!(id.as_str(), DASHED);
    let id = DatabaseId::from_url_or_id("http://notion.so/Title-abcdef01-2345-6789-abcd-ef0123456789").unwrap();
    assert_eq!(id.as_str(), DASHED);
}

#[test]
fn strict_parse_refuses_urls() {
    let e = PageId::parse("https://notion.so/x-abcdef0123456789abcdef0123456789").unwrap_err();
    assert!(matches!(e, IdError::InvalidId { .. }));
}

#[test]
fn refusal_reasons() {
    assert_eq!(PageId::parse("").unwrap_err().message(), "invalid Notion ID: empty identifier");
    assert_eq!(
        PageId::parse("abcdef0123456789abcdef012345678\u{0430}").unwrap_err().message(),
        "invalid Notion ID: contains whitespace, control or non-ASCII characters"
    );
    assert_eq!(
        PageId::parse("abc").unwrap_err().message(),
        "invalid Notion ID: expected 32 hex digits or a dashed UUID"
    );
    assert_eq!(
        PageId::parse("zbcdef0123456789abcdef0123456789").unwrap_err().message(),
        "invalid Notion ID: invalid hex digit or dash placement"
    );
    assert_eq!(
        PageId::from_url_or_id("https://notion.so/nothing-here").unwrap_err().message(),
        "could not extract Notion ID from URL: https://notion.so/nothing-here"
    );
}

#[test]
fn segment_must_end_in_id_after_dash() {
    assert!(PageId::from_url_or_id("https://notion.so/xabcdef0123456789abcdef0123456789").is_err());
}

#[test]
fn reparse_of_canonical_is_identity() {
    let id = PageId::from_url_or_id("https://notion.so/P-ABCDEF0123456789ABCDEF0123456789").unwrap();
    let again = PageId::parse(id.as_str()).unwrap();
    assert!(again.same_as(&id));
    assert_eq!(again.as_str(), id.as_str());
}

#[test]
fn case_and_dash_forms_name_same_id() {
    let a = UserId::parse(HEX).unwrap();
    let b = UserId::parse(&HEX.to_uppercase()).unwrap();
    let c = UserId::parse(DASHED).unwrap();
    assert!(a.same_as(&b));
    assert!(a.same_as(&c));
    assert_eq!(a.duplicate().as_str(), DASHED);
}
