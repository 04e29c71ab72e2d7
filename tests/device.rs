use aws_sso_login::device::{login_args, verification_url};
use aws_sso_login::session::{tab_size, WINDOW_HEIGHT, WINDOW_WIDTH};
use aws_sso_login::text::{find_first, second_word_of};

#[test]
fn url_line_alone_is_the_url() {
    let line = "https://device.sso.us-east-1.amazonaws.com/?user_code=ABCD-EFGH";
    assert_eq!(verification_url(line), Some(line.to_string()));
}

#[test]
fn marker_line_is_handed_on_whole() {
    assert_eq!(
        verification_url("Then open:  https://x.example/?user_code=AB-CD now"),
        Some("Then open:  https://x.example/?user_code=AB-CD now".to_string())
    );
    assert_eq!(verification_url("user_code"), Some("user_code".to_string()));
}

#[test]
fn line_without_marker_has_no_url() {
    assert_eq!(verification_url("Attempting to automatically open the SSO authorization page"), None);
    assert_eq!(verification_url(""), None);
    assert_eq!(verification_url("user code ABCD-EFGH"), None);
}

#[test]
fn one_marker_line_starts_one_login() {
    let output = [
        "Browser will not be automatically opened.",
        "Please visit the following URL:",
        "",
        "https://device.sso.eu-west-1.amazonaws.com/?user_code=WXYZ-QRST",
        "",
        "Successfully logged into Start URL: https://corp.awsapps.com/start",
    ];
    let urls: Vec<String> = output.iter().filter_map(|l| verification_url(l)).collect();
    assert_eq!(urls, vec!["https://device.sso.eu-west-1.amazonaws.com/?user_code=WXYZ-QRST".to_string()]);
}

#[test]
fn login_args_select_device_code_mode() {
    assert_eq!(login_args("corp"), vec!["sso", "login", "--no-browser", "--sso-session", "corp"]);
}

#[test]
fn tab_fits_inside_window() {
    assert_eq!(tab_size(WINDOW_WIDTH, WINDOW_HEIGHT), (410, 515));
    assert_eq!(tab_size(15, 35), (0, 0));
}

#[test]
fn text_helpers() {
    assert_eq!(find_first("abcabc", "ca"), Some(2));
    assert_eq!(find_first("abc", "abcd"), None);
    assert_eq!(find_first("abc", ""), Some(0));
    assert_eq!(second_word_of("  one\u{a0}two three"), Some("two".to_string()));
    assert_eq!(second_word_of("one"), None);
}
