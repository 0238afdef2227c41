use vapr_core::paths::{ends_with_slash, is_safe_entry_name, partial_file_name, sanitize_name};

#[test]
fn sanitize_replaces_spaces_and_drops_colons() {
    assert_eq!(sanitize_name("My Game: Deluxe"), b"My_Game_Deluxe".to_vec());
    assert_eq!(sanitize_name("plain"), b"plain".to_vec());
    assert_eq!(sanitize_name(""), Vec::<u8>::new());
    assert_eq!(sanitize_name(":::"), Vec::<u8>::new());
    assert_eq!(sanitize_name("a b c"), b"a_b_c".to_vec());
}

#[test]
fn partial_file_name_appends_the_suffix() {
    assert_eq!(partial_file_name("My Game"), b"My_Game.download".to_vec());
    assert_eq!(partial_file_name("X: Y"), b"X_Y.download".to_vec());
}

#[test]
fn traversal_names_are_rejected() {
    assert!(!is_safe_entry_name(&b"../../evil".to_vec()));
    assert!(!is_safe_entry_name(&b"..".to_vec()));
    assert!(!is_safe_entry_name(&b"foo/../bar".to_vec()));
    assert!(!is_safe_entry_name(&b"foo/..".to_vec()));
    assert!(!is_safe_entry_name(&b"/absolute".to_vec()));
    assert!(!is_safe_entry_name(&b"".to_vec()));
    assert!(!is_safe_entry_name(&b"dir\\file".to_vec()));
    assert!(!is_safe_entry_name(&b"c:evil".to_vec()));
    assert!(!is_safe_entry_name(&b"nul\0byte".to_vec()));
}

#[test]
fn confined_names_are_accepted() {
    assert!(is_safe_entry_name(&b"game.exe".to_vec()));
    assert!(is_safe_entry_name(&b"assets/textures/stone.png".to_vec()));
    assert!(is_safe_entry_name(&b"sub/".to_vec()));
    // Two dots are only a traversal when they are a whole component.
    assert!(is_safe_entry_name(&b"..hidden".to_vec()));
    assert!(is_safe_entry_name(&b"foo/..bar".to_vec()));
    assert!(is_safe_entry_name(&b"notes..txt".to_vec()));
    assert!(is_safe_entry_name(&b"a/./b".to_vec()));
}

#[test]
fn directory_names_end_with_the_separator() {
    assert!(ends_with_slash(&b"sub/".to_vec()));
    assert!(!ends_with_slash(&b"sub".to_vec()));
    assert!(!ends_with_slash(&b"".to_vec()));
}
