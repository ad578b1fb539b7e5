use aug_media_player::backend::accept_upload_field;
use aug_media_player::backend::ServerEnvVars;
use aug_media_player::backend::ServerResponse;
use aug_media_player::text::parse_u16;

#[test]
fn server_response_keeps_its_parts() {
    let r = ServerResponse::new(true, String::from("Success"), 7u32);
    assert!(r.status);
    assert_eq!(r.message, "Success");
    assert_eq!(r.data, 7);
}

#[test]
fn env_vars_defaults() {
    let vars = ServerEnvVars::build(None, None);
    assert_eq!(vars.media_storage_path, "./media_files");
    assert_eq!(vars.port, 3000);
}

#[test]
fn env_vars_given_values() {
    let vars = ServerEnvVars::build(
        Some(String::from("/srv/media")),
        Some(String::from("8080")),
    );
    assert_eq!(vars.media_storage_path, "/srv/media");
    assert_eq!(vars.port, 8080);
}

#[test]
fn env_vars_bad_port_falls_back() {
    let vars = ServerEnvVars::build(None, Some(String::from("eighty")));
    assert_eq!(vars.port, 3000);
    let vars = ServerEnvVars::build(None, Some(String::from("70000")));
    assert_eq!(vars.port, 3000);
    let vars = ServerEnvVars::build(None, Some(String::new()));
    assert_eq!(vars.port, 3000);
}

#[test]
fn parse_u16_accepts_plain_digits() {
    assert_eq!(parse_u16("0"), Some(0));
    assert_eq!(parse_u16("3000"), Some(3000));
    assert_eq!(parse_u16("65535"), Some(65535));
    assert_eq!(parse_u16("007"), Some(7));
}

#[test]
fn parse_u16_accepts_leading_plus() {
    assert_eq!(parse_u16("+42"), Some(42));
    assert_eq!(parse_u16("+"), None);
    assert_eq!(parse_u16("++1"), None);
}

#[test]
fn parse_u16_rejects_overflow_and_junk() {
    assert_eq!(parse_u16("65536"), None);
    assert_eq!(parse_u16("123456789"), None);
    assert_eq!(parse_u16(""), None);
    assert_eq!(parse_u16("-1"), None);
    assert_eq!(parse_u16("12a"), None);
    assert_eq!(parse_u16("1 2"), None);
}

#[test]
fn parse_u16_agrees_with_std() {
    for s in ["0", "80", "+80", "65535", "65536", "", "+", "abc", "007"] {
        assert_eq!(parse_u16(s), s.parse::<u16>().ok(), "on {:?}", s);
    }
}

#[test]
fn upload_field_accepted_only_as_media_file() {
    assert_eq!(
        accept_upload_field(
            Some(String::from("clip.mp4")),
            Some(String::from("media_file")),
        ),
        Some(String::from("clip.mp4")),
    );
    assert_eq!(
        accept_upload_field(
            Some(String::from("clip.mp4")),
            Some(String::from("attachment")),
        ),
        None,
    );
    assert_eq!(accept_upload_field(None, Some(String::from("media_file"))), None);
    assert_eq!(accept_upload_field(Some(String::from("clip.mp4")), None), None);
}
