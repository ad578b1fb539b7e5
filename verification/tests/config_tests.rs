use aug_media_player::config::Args;
use aug_media_player::config::CapType;
use aug_media_player::config::OriginType;
use aug_media_player::text::str_equal;
use aug_media_player::text::str_has_prefix;

#[test]
fn formatted_uri_prefixes_file_scheme() {
    let args = Args { uri: String::from("/tmp/video.mp4"), origin: OriginType::File };
    assert_eq!(args.formatted_uri(), "file:///tmp/video.mp4");
}

#[test]
fn formatted_uri_keeps_http_uri() {
    let args = Args {
        uri: String::from("http://example.com/clip.webm"),
        origin: OriginType::Http,
    };
    assert_eq!(args.formatted_uri(), "http://example.com/clip.webm");
}

#[test]
fn formatted_uri_of_empty_file_path() {
    let args = Args { uri: String::new(), origin: OriginType::File };
    assert_eq!(args.formatted_uri(), "file://");
}

#[test]
fn cap_type_audio() {
    assert_eq!(CapType::from_str("audio/x-raw, rate=(int)44100"), CapType::Audio);
}

#[test]
fn cap_type_video() {
    assert_eq!(CapType::from_str("video/x-raw, width=(int)640"), CapType::Video);
}

#[test]
fn cap_type_other() {
    assert_eq!(CapType::from_str("application/ogg"), CapType::Other);
    assert_eq!(CapType::from_str(""), CapType::Other);
    assert_eq!(CapType::from_str("audio/x-ra"), CapType::Other);
}

#[test]
fn prefix_check() {
    assert!(str_has_prefix("audio/x-raw", "audio/x-raw"));
    assert!(str_has_prefix("audio/x-raw, rate", "audio/x-raw"));
    assert!(!str_has_prefix("audio/x-ra", "audio/x-raw"));
    assert!(str_has_prefix("anything", ""));
}

#[test]
fn string_equality_check() {
    assert!(str_equal("media_file", "media_file"));
    assert!(!str_equal("media_file", "media_files"));
    assert!(!str_equal("media_files", "media_file"));
    assert!(str_equal("", ""));
}
