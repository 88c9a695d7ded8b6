use launcher_core::metadata::{
    assemble_metadata, icon_data_url, select_icon_path, IconSpec,
};

#[test]
fn icon_path_from_plain_string() {
    let r = select_icon_path(IconSpec::Path("assets/icon.png".to_string()));
    assert_eq!(r, Some("assets/icon.png".to_string()));
}

#[test]
fn icon_path_prefers_largest_size() {
    let r = select_icon_path(IconSpec::Sizes {
        large: Some("i128.png".to_string()),
        medium: Some("i64.png".to_string()),
        small: Some("i32.png".to_string()),
    });
    assert_eq!(r, Some("i128.png".to_string()));
    let r = select_icon_path(IconSpec::Sizes {
        large: None,
        medium: Some("i64.png".to_string()),
        small: Some("i32.png".to_string()),
    });
    assert_eq!(r, Some("i64.png".to_string()));
    let r = select_icon_path(IconSpec::Sizes {
        large: None,
        medium: None,
        small: Some("i32.png".to_string()),
    });
    assert_eq!(r, Some("i32.png".to_string()));
}

#[test]
fn icon_path_absent_when_unsupported_or_empty() {
    assert_eq!(select_icon_path(IconSpec::Unsupported), None);
    assert_eq!(
        select_icon_path(IconSpec::Sizes { large: None, medium: None, small: None }),
        None
    );
}

#[test]
fn data_url_encodes_bytes_in_base64() {
    let bytes = vec![b'h', b'e', b'l', b'l', b'o'];
    assert_eq!(icon_data_url(&bytes), "data:image/png;base64,aGVsbG8=".to_string());
}

#[test]
fn metadata_carries_fields_and_encoded_icon() {
    let m = assemble_metadata(
        Some("A Mod".to_string()),
        Some("Does things".to_string()),
        Some("1.2.3".to_string()),
        Some(vec![b'h', b'i']),
    );
    assert_eq!(m.name, Some("A Mod".to_string()));
    assert_eq!(m.description, Some("Does things".to_string()));
    assert_eq!(m.version, Some("1.2.3".to_string()));
    assert_eq!(m.icon, Some("data:image/png;base64,aGk=".to_string()));
}

#[test]
fn metadata_without_icon_bytes_has_no_icon() {
    let m = assemble_metadata(None, None, Some("0.1".to_string()), None);
    assert_eq!(m.icon, None);
    assert_eq!(m.name, None);
}
