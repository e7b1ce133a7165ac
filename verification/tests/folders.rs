use platform_utils::folders::{
    data_dir_from_appdata, folder_text_from_lookup, start_menu_paths_from_lookups, FolderError,
    FolderKind,
};

fn wide_buffer(text: &str, capacity: usize) -> Vec<u16> {
    let mut units: Vec<u16> = text.encode_utf16().collect();
    assert!(units.len() < capacity);
    units.resize(capacity, 0);
    units
}

#[test]
fn failed_common_lookup_names_the_folder() {
    let user = wide_buffer("C:\\Users\\me\\Start Menu", 260);
    let r = start_menu_paths_from_lookups(Err(-2147467259), Ok(user));
    assert_eq!(
        r,
        Err(FolderError::ResolutionFailed {
            folder: FolderKind::CommonStartMenu,
            status: -2147467259,
        })
    );
}

#[test]
fn failed_user_lookup_names_the_folder() {
    let common = wide_buffer("C:\\ProgramData\\Start Menu", 260);
    let r = start_menu_paths_from_lookups(Ok(common), Err(5));
    assert_eq!(
        r,
        Err(FolderError::ResolutionFailed { folder: FolderKind::UserStartMenu, status: 5 })
    );
}

#[test]
fn successful_lookups_return_both_paths() {
    let common = wide_buffer("C:\\ProgramData\\Microsoft\\Windows\\Start Menu", 260);
    let user = wide_buffer("C:\\Users\\me\\AppData\\Roaming\\Microsoft\\Windows\\Start Menu", 260);
    let r = start_menu_paths_from_lookups(Ok(common), Ok(user)).unwrap();
    assert_eq!(r.0, "C:\\ProgramData\\Microsoft\\Windows\\Start Menu");
    assert_eq!(r.1, "C:\\Users\\me\\AppData\\Roaming\\Microsoft\\Windows\\Start Menu");
}

#[test]
fn buffer_is_cut_at_first_zero_unit() {
    let mut buffer = wide_buffer("A", 8);
    // Stale text after the terminator must be ignored.
    buffer[2] = 'B' as u16;
    let r = folder_text_from_lookup(FolderKind::UserStartMenu, Ok(buffer));
    assert_eq!(r, Ok("A".to_string()));
}

#[test]
fn non_ascii_buffer_is_decoded() {
    let buffer = wide_buffer("C:\\Users\\émil\\菜单 𝄞", 64);
    let r = folder_text_from_lookup(FolderKind::CommonStartMenu, Ok(buffer));
    assert_eq!(r, Ok("C:\\Users\\émil\\菜单 𝄞".to_string()));
}

#[test]
fn failed_user_lookup_outranks_malformed_common_buffer() {
    // Lookup statuses are examined before any conversion, so the
    // per-user lookup failure is reported even though the system-wide
    // buffer would not decode.
    let malformed_common = vec![0xD800u16, 0];
    let r = start_menu_paths_from_lookups(Ok(malformed_common), Err(-1));
    assert_eq!(
        r,
        Err(FolderError::ResolutionFailed { folder: FolderKind::UserStartMenu, status: -1 })
    );
}

#[test]
fn malformed_common_buffer_is_blamed_before_user() {
    // Both buffers are undecodable: the system-wide one is converted
    // first, so it is the one named.
    let r = start_menu_paths_from_lookups(Ok(vec![0xD800u16, 0]), Ok(vec![0xDC00u16, 0]));
    assert_eq!(
        r,
        Err(FolderError::ConversionFailed { folder: FolderKind::CommonStartMenu })
    );
}

#[test]
fn surrogate_pair_buffers_resolve() {
    // Valid wide text that needs surrogate pairs still decodes.
    let common = wide_buffer("C:\\ProgramData\\𝄞 Menu", 260);
    let user = wide_buffer("C:\\Users\\émil\\𝄞 Menu", 260);
    let r = start_menu_paths_from_lookups(Ok(common), Ok(user)).unwrap();
    assert_eq!(r.0, "C:\\ProgramData\\𝄞 Menu");
    assert_eq!(r.1, "C:\\Users\\émil\\𝄞 Menu");
}

#[test]
fn malformed_buffer_reports_conversion_failure() {
    // A lone high surrogate is not valid wide text.
    let buffer = vec![0x0041u16, 0xD800, 0x0042, 0];
    let r = folder_text_from_lookup(FolderKind::UserStartMenu, Ok(buffer));
    assert_eq!(r, Err(FolderError::ConversionFailed { folder: FolderKind::UserStartMenu }));
}

#[test]
fn resolution_error_message_names_folder_and_status() {
    let e = FolderError::ResolutionFailed { folder: FolderKind::CommonStartMenu, status: -5 };
    assert_eq!(e.message(), "failed to resolve the system-wide start menu folder, status -5");
    let e = FolderError::ResolutionFailed { folder: FolderKind::UserStartMenu, status: 123 };
    assert_eq!(e.message(), "failed to resolve the per-user start menu folder, status 123");
}

#[test]
fn conversion_error_message_names_folder() {
    let e = FolderError::ConversionFailed { folder: FolderKind::UserStartMenu };
    assert_eq!(e.message(), "the per-user start menu folder path is not valid wide text");
}

#[test]
fn data_dir_appends_application_folder() {
    assert_eq!(
        data_dir_from_appdata("C:\\Users\\me\\AppData\\Roaming"),
        "C:\\Users\\me\\AppData\\Roaming\\ZeroLaunch-rs"
    );
}

#[test]
fn data_dir_keeps_existing_separator() {
    assert_eq!(
        data_dir_from_appdata("C:\\Users\\me\\AppData\\Roaming\\"),
        "C:\\Users\\me\\AppData\\Roaming\\ZeroLaunch-rs"
    );
    assert_eq!(data_dir_from_appdata("data/"), "data/ZeroLaunch-rs");
}

#[test]
fn data_dir_of_empty_base_is_the_folder_name() {
    assert_eq!(data_dir_from_appdata(""), "ZeroLaunch-rs");
}
