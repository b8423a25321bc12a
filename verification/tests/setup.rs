use omni::setup::{basic_auth_for, env_file_contents, generate_basic_auth, Platform};

#[test]
fn the_authorization_is_the_pair_in_base64() {
    assert_eq!(generate_basic_auth("user", "pass"), "Basic dXNlcjpwYXNz");
    assert_eq!(generate_basic_auth("", ""), "Basic Og==");
    assert_eq!(generate_basic_auth("a", ""), "Basic YTo=");
    assert_eq!(generate_basic_auth("Aladdin", "open sesame"), "Basic QWxhZGRpbjpvcGVuIHNlc2FtZQ==");
    assert_eq!(generate_basic_auth("j\u{fc}rgen", "p:w"), "Basic asO8cmdlbjpwOnc=");
}

#[test]
fn without_both_parts_the_authorization_is_empty() {
    assert_eq!(basic_auth_for(Some("user"), Some("pass")), "Basic dXNlcjpwYXNz");
    assert_eq!(basic_auth_for(Some("user"), None), "");
    assert_eq!(basic_auth_for(None, Some("pass")), "");
    assert_eq!(basic_auth_for(None, None), "");
}

#[test]
fn the_settings_file_has_one_line_for_each_value() {
    assert_eq!(
        env_file_contents(
            Some("id"),
            Some("secret"),
            Some("master"),
            Some("https://erp"),
            Some("key"),
            Some("Basic abc=")
        ),
        "BW_CLIENTID=id\nBW_CLIENTSECRET=secret\nMASTER_PASSWORD=master\nEPICOR_BASE_URL=https://erp\nEPICOR_API_KEY=key\nEPICOR_BASIC_AUTH='Basic abc='\n"
    );
}

#[test]
fn values_that_are_missing_leave_no_line() {
    assert_eq!(env_file_contents(None, None, None, None, None, None), "");
    assert_eq!(
        env_file_contents(None, Some("s"), None, None, Some(""), None),
        "BW_CLIENTSECRET=s\nEPICOR_API_KEY=\n"
    );
    assert_eq!(
        env_file_contents(None, None, None, None, None, Some("")),
        "EPICOR_BASIC_AUTH=''\n"
    );
}

#[test]
fn three_platforms_are_supported() {
    assert_eq!(Platform::from_os("windows"), Some(Platform::Windows));
    assert_eq!(Platform::from_os("macos"), Some(Platform::MacOs));
    assert_eq!(Platform::from_os("linux"), Some(Platform::Linux));
    assert_eq!(Platform::from_os("freebsd"), None);
    assert_eq!(Platform::from_os("Linux"), None);
    assert_eq!(Platform::from_os(""), None);
}

#[test]
fn each_platform_has_its_download_directory_and_variable() {
    assert_eq!(
        Platform::Windows.download_url(),
        "https://vault.bitwarden.com/download/?app=cli&platform=windows"
    );
    assert_eq!(
        Platform::MacOs.download_url(),
        "https://vault.bitwarden.com/download/?app=cli&platform=macos"
    );
    assert_eq!(
        Platform::Linux.download_url(),
        "https://vault.bitwarden.com/download/?app=cli&platform=linux"
    );
    assert_eq!(Platform::Windows.install_dir(), "C:\\Windows\\System32");
    assert_eq!(Platform::MacOs.install_dir(), "/usr/local/bin");
    assert_eq!(Platform::Linux.install_dir(), "/usr/local/bin");
    assert_eq!(Platform::Windows.path_variable(), "Path");
    assert_eq!(Platform::MacOs.path_variable(), "PATH");
    assert_eq!(Platform::Linux.path_variable(), "PATH");
}
