use cargo_vita::meta::{
    default_build_std, default_vita_make_fself_flags, default_vita_mksfoex_flags,
    default_vita_strip_flags, PackageMetadata, ProfileMetadata,
};
use cargo_vita::{TitleId, TitleIdError};

#[test]
fn title_id_of_wrong_length_is_refused() {
    for s in ["", "A", "ABCD1234", "ABCD123456", "ABCDEFGHIJKLMNOP"] {
        assert_eq!(TitleId::parse(s).unwrap_err(), TitleIdError::WrongLength, "{s}");
    }
}

#[test]
fn title_id_length_counts_bytes() {
    // eight characters, nine bytes
    assert_eq!(TitleId::parse("ÄBCD1234").unwrap_err(), TitleIdError::NotAlphanumeric);
    // nine characters, ten bytes
    assert_eq!(TitleId::parse("ÄBCD12345").unwrap_err(), TitleIdError::WrongLength);
}

#[test]
fn title_id_with_other_characters_is_refused() {
    for s in ["ABCD-1234", "ABCD 1234", "ABCD_1234", "ABCD1234!"] {
        assert_eq!(TitleId::parse(s).unwrap_err(), TitleIdError::NotAlphanumeric, "{s}");
    }
}

#[test]
fn title_id_starting_with_digit_is_refused() {
    for s in ["1BCD12345", "0ABCDEFGH", "9zzzzzzzz"] {
        assert_eq!(TitleId::parse(s).unwrap_err(), TitleIdError::StartsWithDigit, "{s}");
    }
}

#[test]
fn title_id_is_kept_in_upper_case() {
    assert_eq!(TitleId::parse("hello0001").unwrap().as_str(), "HELLO0001");
    assert_eq!(TitleId::parse("aBcD12345").unwrap().as_str(), "ABCD12345");
    assert_eq!(TitleId::parse("VITA00001").unwrap().as_str(), "VITA00001");
}

#[test]
fn title_id_clone_keeps_the_text() {
    let t = TitleId::parse("rust00001").unwrap();
    assert_eq!(t.clone().as_str(), "RUST00001");
}

#[test]
fn title_id_error_messages() {
    assert_eq!(TitleIdError::WrongLength.message(), "Title ID must be 9 characters long");
    assert_eq!(
        TitleIdError::StartsWithDigit.message(),
        "Title ID must start with an alphabetic character"
    );
}

#[test]
fn metadata_defaults() {
    let m = PackageMetadata::default();
    assert!(m.title_id.is_none());
    assert!(m.title_name.is_none());
    assert!(m.assets.is_none());
    assert_eq!(m.build_std, "std,panic_unwind");
    assert_eq!(m.vita_strip_flags, vec!["-g".to_string()]);
    assert_eq!(m.vita_make_fself_flags, vec!["-s".to_string()]);
    assert_eq!(m.vita_mksfoex_flags, vec!["-d".to_string(), "ATTRIBUTE2=12".to_string()]);
    assert_eq!(default_build_std(), "std,panic_unwind");
    assert_eq!(default_vita_strip_flags(), vec!["-g".to_string()]);
    assert_eq!(default_vita_make_fself_flags(), vec!["-s".to_string()]);
    assert_eq!(default_vita_mksfoex_flags().len(), 2);
}

#[test]
fn strip_policy_by_profile() {
    let mut m = PackageMetadata::default();
    assert!(m.strip_symbols(true));
    assert!(!m.strip_symbols(false));
    m.release = ProfileMetadata { strip_symbols: Some(false) };
    m.dev = ProfileMetadata { strip_symbols: Some(true) };
    assert!(!m.strip_symbols(true));
    assert!(m.strip_symbols(false));
}

#[test]
fn metadata_clone_keeps_fields() {
    let mut m = PackageMetadata::default();
    m.title_id = Some(TitleId::parse("ABCD00001").unwrap());
    m.title_name = Some("Game".to_string());
    let c = m.clone();
    assert_eq!(c.title_id.unwrap().as_str(), "ABCD00001");
    assert_eq!(c.title_name.as_deref(), Some("Game"));
    assert_eq!(c.vita_mksfoex_flags, m.vita_mksfoex_flags);
}

#[test]
fn title_id_parses_through_from_str() {
    let t: TitleId = "game00042".parse().unwrap();
    assert_eq!(t.as_str(), "GAME00042");
    assert_eq!("bad".parse::<TitleId>().unwrap_err(), TitleIdError::WrongLength);
}

#[test]
fn title_id_from_str_cases() {
    assert!("ABCD1234".parse::<TitleId>().is_err());
    assert_eq!("1HELLO001".parse::<TitleId>().unwrap_err(), TitleIdError::StartsWithDigit);
    assert_eq!("HELLO-001".parse::<TitleId>().unwrap_err(), TitleIdError::NotAlphanumeric);
    assert_eq!("hello0001".parse::<TitleId>().unwrap().as_str(), "HELLO0001");
}

#[test]
fn title_id_canonical_form_parses_to_itself() {
    let t: TitleId = "abCD00012".parse().unwrap();
    let again: TitleId = t.as_str().parse().unwrap();
    assert_eq!(again.as_str(), t.as_str());
}
