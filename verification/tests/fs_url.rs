use mdeno::fs_url::{check_hex, path_from_url_posix, path_from_url_win32};

#[test]
fn posix_paths() {
    assert_eq!(path_from_url_posix("/home/user/file.txt", ""), "/home/user/file.txt");
    assert_eq!(path_from_url_posix("/home/my%20file.txt", ""), "/home/my file.txt");
    assert_eq!(path_from_url_posix("/a%2Fb", ""), "/a/b");
    assert_eq!(path_from_url_posix("/home/user", "host"), "");
    assert_eq!(path_from_url_posix("", ""), "");
}

#[test]
fn stray_percent_signs_stay() {
    assert_eq!(path_from_url_posix("/100%", ""), "/100%");
    assert_eq!(path_from_url_posix("/100%zz", ""), "/100%zz");
    assert_eq!(path_from_url_posix("/100%4", ""), "/100%4");
    assert_eq!(path_from_url_posix("/%%41", ""), "/%A");
    assert_eq!(path_from_url_posix("/%25", ""), "/%");
    assert_eq!(path_from_url_posix("/%2541", ""), "/%41");
    assert_eq!(path_from_url_posix("/%+f", ""), "/%+f");
}

#[test]
fn escapes_give_the_character_of_their_code() {
    assert_eq!(path_from_url_posix("/%41%62%7e", ""), "/Ab~");
    assert_eq!(path_from_url_posix("/%e9", ""), "/\u{e9}");
    assert_eq!(path_from_url_posix("/%E9", ""), "/\u{e9}");
}

#[test]
fn windows_paths() {
    assert_eq!(path_from_url_win32("/C:/Users/test/file.txt", ""), "C:\\Users\\test\\file.txt");
    assert_eq!(path_from_url_win32("/C:/my%20docs/a.txt", ""), "C:\\my docs\\a.txt");
    assert_eq!(path_from_url_win32("/share/file.txt", "server"), "\\\\server\\share\\file.txt");
    assert_eq!(path_from_url_win32("/plain/path", ""), "\\plain\\path");
    assert_eq!(path_from_url_win32("/C:", ""), "C:");
    assert_eq!(path_from_url_win32("/C", ""), "\\C");
    assert_eq!(path_from_url_win32("C:/x", ""), "C:\\x");
    assert_eq!(path_from_url_win32("", ""), "");
    assert_eq!(path_from_url_win32("/100%", ""), "\\100%");
}

#[test]
fn hexadecimal_digits() {
    for c in "0123456789abcdefABCDEF".chars() {
        assert!(check_hex(c));
    }
    for c in "gG+-/: xX".chars() {
        assert!(!check_hex(c));
    }
}
