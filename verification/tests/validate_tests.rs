use music_upload::config::Config;
use music_upload::strutil::parse_u64;
use music_upload::strutil::str_trim;
use music_upload::strutil::u64_to_string;
use music_upload::validate::RemoteKind;
use music_upload::validate::ValidationError;
use music_upload::validate::check_extension;
use music_upload::validate::check_upload_file;
use music_upload::validate::validate_remote_url;
use music_upload::validate::validate_upload_filename;

#[test]
fn youtube_urls_on_the_allow_list_pass() {
    for url in [
        "https://www.youtube.com/watch?v=dQw4w9WgXcQ",
        "https://youtube.com/watch?v=abc",
        "https://youtu.be/abc",
        "https://m.youtube.com/watch?v=abc",
    ] {
        let r = validate_remote_url(RemoteKind::Youtube, url);
        assert_eq!(r.unwrap(), url);
    }
}

#[test]
fn spotify_urls_on_the_allow_list_pass() {
    for url in [
        "https://open.spotify.com/track/123",
        "https://open.spotify.com/album/456",
        "https://open.spotify.com/playlist/789",
        "https://open.spotify.com/artist/000",
    ] {
        let r = validate_remote_url(RemoteKind::Spotify, url);
        assert_eq!(r.unwrap(), url);
    }
}

#[test]
fn urls_off_the_allow_list_fail() {
    for url in [
        "https://evil.com/x;rm -rf",
        "http://www.youtube.com/watch?v=abc",
        "https://open.spotify.com/track/1",
        "",
    ] {
        let r = validate_remote_url(RemoteKind::Youtube, url);
        assert_eq!(r.unwrap_err(), ValidationError::InvalidUrl);
    }
    let r = validate_remote_url(RemoteKind::Spotify, "https://youtu.be/abc");
    assert_eq!(r.unwrap_err(), ValidationError::InvalidUrl);
}

#[test]
fn urls_with_shell_metacharacters_fail() {
    for url in [
        "https://youtu.be/a;b",
        "https://youtu.be/a|b",
        "https://youtu.be/a`b",
        "https://youtu.be/$(x)",
        "https://youtu.be/a&&b",
        "https://youtu.be/a||b",
    ] {
        let r = validate_remote_url(RemoteKind::Youtube, url);
        assert_eq!(r.unwrap_err(), ValidationError::InvalidUrl);
    }
}

#[test]
fn urls_beyond_the_length_ceiling_fail() {
    let long = format!("https://youtu.be/{}", "a".repeat(200));
    assert!(validate_remote_url(RemoteKind::Youtube, &long).is_err());
    let long = format!("https://open.spotify.com/track/{}", "a".repeat(300));
    assert!(validate_remote_url(RemoteKind::Spotify, &long).is_err());
}

#[test]
fn urls_are_trimmed_before_validation() {
    let r = validate_remote_url(RemoteKind::Youtube, "  https://youtu.be/abc \n");
    assert_eq!(r.unwrap(), "https://youtu.be/abc");
}

#[test]
fn filenames_keep_only_the_last_component() {
    assert_eq!(validate_upload_filename("dir/sub/song.mp3").unwrap(), "song.mp3");
    assert_eq!(validate_upload_filename("song.mp3").unwrap(), "song.mp3");
}

#[test]
fn traversal_filenames_fail() {
    for name in ["..", "a/..", "back\\slash.mp3", "dir/", ""] {
        let r = validate_upload_filename(name);
        assert_eq!(r.unwrap_err(), ValidationError::InvalidFilename);
    }
}

#[test]
fn extension_allow_list_is_checked() {
    let config = Config::default();
    assert!(check_extension("song.mp3", &config.upload.allowed_extensions));
    assert!(check_extension("song.flac", &config.upload.allowed_extensions));
    assert!(!check_extension("tool.exe", &config.upload.allowed_extensions));
    assert!(!check_extension("noext", &config.upload.allowed_extensions));
    assert!(!check_extension(".bashrc", &config.upload.allowed_extensions));
}

#[test]
fn upload_checks_report_the_broken_rule() {
    let mut config = Config::default();
    config.upload.max_file_size_mb = 2;
    let upload = &config.upload;

    assert_eq!(check_upload_file("music/song.mp3", 1024, upload).unwrap(), "song.mp3");

    let rej = check_upload_file("..", 10, upload).unwrap_err();
    assert_eq!(rej.error, ValidationError::InvalidFilename);
    assert_eq!(rej.message, "Invalid filename: path traversal attempt detected");

    let rej = check_upload_file("tool.exe", 10, upload).unwrap_err();
    assert_eq!(rej.error, ValidationError::DisallowedExtension);
    assert_eq!(rej.message, "File type .exe not allowed");

    let rej = check_upload_file("big.mp3", 3 * 1024 * 1024, upload).unwrap_err();
    assert_eq!(rej.error, ValidationError::FileTooLarge);
    assert_eq!(rej.message, "File too large: 3 MB (max: 2 MB)");
}

#[test]
fn decimal_rendering_and_parsing() {
    assert_eq!(u64_to_string(0), "0");
    assert_eq!(u64_to_string(7), "7");
    assert_eq!(u64_to_string(1234), "1234");
    assert_eq!(u64_to_string(u64::MAX), "18446744073709551615");
    assert_eq!(parse_u64("0"), Some(0));
    assert_eq!(parse_u64("1234"), Some(1234));
    assert_eq!(parse_u64("18446744073709551615"), Some(u64::MAX));
    assert_eq!(parse_u64("18446744073709551616"), None);
    assert_eq!(parse_u64(""), None);
    assert_eq!(parse_u64("12a"), None);
    assert_eq!(parse_u64("-1"), None);
}

#[test]
fn trimming_strips_ascii_whitespace() {
    assert_eq!(str_trim("  a b \t\r\n"), "a b");
    assert_eq!(str_trim(""), "");
    assert_eq!(str_trim(" \t "), "");
    assert_eq!(str_trim("x"), "x");
}
