use appbase_backend::clock::{current_time, show_time};
use appbase_backend::config::{
    check_admin_url_prefix, check_environment, check_session_secret_key, Config, ConfigIssue, WebConfig,
};
use appbase_backend::model::Timestamp;
use appbase_backend::settings::{
    admit_upload, check_settings, check_upload_field, check_upload_size, get_settings, mime_to_safe_extension, parse_whole_number,
    upload_limit_bytes, SettingsIssue, UploadIssue,
};

fn config(database_path: &str) -> Config {
    Config {
        web: WebConfig { host: "127.0.0.1".to_string(), port: 8080 },
        database_path: database_path.to_string(),
        media_path: "/srv/media".to_string(),
        allowed_origins: String::new(),
        log_level: "info".to_string(),
        session_secret_key: "0".repeat(128),
        admin_url_prefix: "admin".to_string(),
        use_secure_cookies: false,
    }
}

#[test]
fn store_files_live_in_folders_of_their_own() {
    let c = config("/var/lib/app");
    assert_eq!(c.users_db_path(), "/var/lib/app/contributors/contributors.db");
    assert_eq!(c.posts_db_path(), "/var/lib/app/posts/posts.db");
}

#[test]
fn session_key_is_128_hex_digits() {
    assert!(check_session_secret_key(&"a".repeat(128)));
    assert!(check_session_secret_key(&"0123456789abcdefABCDEF0123456789".repeat(4)));
    assert!(!check_session_secret_key(&"a".repeat(127)));
    assert!(!check_session_secret_key(&"a".repeat(129)));
    assert!(!check_session_secret_key(&format!("{}g", "a".repeat(127))));
    assert!(!check_session_secret_key(&"é".repeat(128)));
    assert!(!check_session_secret_key(""));
}

#[test]
fn admin_prefix_is_letters_numbers_underscores_hyphens() {
    assert!(check_admin_url_prefix("admin_area-2"));
    assert!(check_admin_url_prefix("ärea"));
    assert!(!check_admin_url_prefix(""));
    assert!(!check_admin_url_prefix("a/b"));
    assert!(!check_admin_url_prefix("a b"));
}

#[test]
fn environment_is_checked_key_first() {
    assert_eq!(check_environment(&"a".repeat(128), "admin"), Ok(()));
    assert_eq!(check_environment("short", "admin"), Err(ConfigIssue::SessionSecretKey));
    assert_eq!(check_environment("short", ""), Err(ConfigIssue::SessionSecretKey));
    assert_eq!(check_environment(&"a".repeat(128), "a b"), Err(ConfigIssue::AdminUrlPrefix));
}

#[test]
fn settings_have_defaults() {
    let s = get_settings(None, None, None);
    assert_eq!(s.contributor_path_prefix, "default-path-not-found");
    assert_eq!(s.max_file_upload_size_mb, "10");
    assert_eq!(s.allowed_mime_types, "");
    let s = get_settings(Some("p".to_string()), Some("25".to_string()), Some("image/png".to_string()));
    assert_eq!(
        (s.contributor_path_prefix.as_str(), s.max_file_upload_size_mb.as_str(), s.allowed_mime_types.as_str()),
        ("p", "25", "image/png")
    );
}

#[test]
fn whole_numbers_are_read_as_the_standard_library_reads_them() {
    for text in
        ["0", "7", "+7", "007", "18446744073709551615", "18446744073709551616", "", "+", "-1", "1 ", " 1", "1e3", "٣", "++1", "99999999999999999999999"]
    {
        assert_eq!(parse_whole_number(text), text.parse::<u64>().ok(), "{:?}", text);
    }
    assert_eq!(parse_whole_number("18446744073709551615"), Some(u64::MAX));
    assert_eq!(parse_whole_number("18446744073709551616"), None);
}

#[test]
fn settings_change_is_checked_prefix_first() {
    assert_eq!(check_settings("team-1", "10"), Ok(()));
    assert_eq!(check_settings("", "10"), Err(SettingsIssue::Prefix));
    assert_eq!(check_settings("a_b", "10"), Err(SettingsIssue::Prefix));
    assert_eq!(check_settings("a_b", "ten"), Err(SettingsIssue::Prefix));
    assert_eq!(check_settings("team", "ten"), Err(SettingsIssue::MaxSize));
    assert_eq!(check_settings("team", ""), Err(SettingsIssue::MaxSize));
}

#[test]
fn upload_limit_is_megabytes_with_default_ten() {
    assert_eq!(upload_limit_bytes("10"), 10 * 1024 * 1024);
    assert_eq!(upload_limit_bytes("1"), 1_048_576);
    assert_eq!(upload_limit_bytes("0"), 0);
    assert_eq!(upload_limit_bytes("many"), 10 * 1024 * 1024);
    assert_eq!(upload_limit_bytes("17592186044415"), 17592186044415 * 1024 * 1024);
    assert_eq!(upload_limit_bytes("17592186044416"), u64::MAX);
    assert_eq!(upload_limit_bytes("18446744073709551615"), u64::MAX);
    assert_eq!(check_upload_size(1_048_576, "1"), Ok(()));
    assert_eq!(check_upload_size(1_048_577, "1"), Err(UploadIssue::TooLarge));
    assert_eq!(check_upload_size(u64::MAX, "17592186044416"), Ok(()));
}

#[test]
fn safe_extensions_are_fixed() {
    let all = [
        ("application/pdf", "pdf"),
        ("application/zip", "zip"),
        ("audio/mpeg", "mp3"),
        ("audio/wav", "wav"),
        ("image/gif", "gif"),
        ("image/jpeg", "jpg"),
        ("image/png", "png"),
        ("image/webp", "webp"),
        ("model/gltf-binary", "glb"),
        ("model/obj", "obj"),
        ("video/mp4", "mp4"),
        ("video/webm", "webm"),
    ];
    for (mime, ext) in all {
        assert_eq!(mime_to_safe_extension(mime), Some(ext));
    }
    assert_eq!(mime_to_safe_extension("text/html"), None);
    assert_eq!(mime_to_safe_extension("IMAGE/PNG"), None);
    assert_eq!(mime_to_safe_extension(""), None);
}

#[test]
fn uploads_need_a_configured_type_with_a_safe_extension() {
    assert_eq!(admit_upload("", "image/png"), Err(UploadIssue::Disabled));
    assert_eq!(admit_upload("image/png, image/gif", "image/gif"), Ok("gif"));
    assert_eq!(admit_upload(" image/png ", "image/png"), Ok("png"));
    assert_eq!(admit_upload("image/png", "image/gif"), Err(UploadIssue::UnsupportedType));
    assert_eq!(admit_upload("text/html", "text/html"), Err(UploadIssue::NoSafeExtension));
    assert_eq!(admit_upload(" ", "image/png"), Err(UploadIssue::UnsupportedType));
}

#[test]
fn upload_fields_are_mandatory_and_limited() {
    assert_eq!(check_upload_field("summary", "fine"), Ok(()));
    assert_eq!(check_upload_field("summary", "  \n"), Err(UploadIssue::EmptyField));
    assert_eq!(check_upload_field("tags", ""), Err(UploadIssue::EmptyField));
    assert_eq!(check_upload_field("summary", &"x".repeat(500)), Ok(()));
    assert_eq!(check_upload_field("summary", &"x".repeat(501)), Err(UploadIssue::FieldTooLong));
    assert_eq!(check_upload_field("summary", &"é".repeat(251)), Err(UploadIssue::FieldTooLong));
    assert_eq!(check_upload_field("tags", &"x".repeat(200)), Ok(()));
    assert_eq!(check_upload_field("tags", &"x".repeat(201)), Err(UploadIssue::FieldTooLong));
    assert_eq!(check_upload_field("other", &"x".repeat(5000)), Ok(()));
}

#[test]
fn times_are_shown_in_utc() {
    assert_eq!(show_time(Timestamp { secs: 1431648000, nanos: 0 }), "2015-05-15 00:00:00 UTC");
    assert_eq!(show_time(Timestamp { secs: 0, nanos: 500_000_000 }), "1970-01-01 00:00:00.500 UTC");
    assert_eq!(show_time(Timestamp { secs: i64::MAX, nanos: 0 }), "");
    assert_eq!(show_time(Timestamp { secs: 0, nanos: 2_000_000_000 }), "");
}

#[test]
fn clock_gives_the_present() {
    let a = current_time();
    let b = current_time();
    assert!(a.secs > 1_600_000_000);
    assert!(!a.is_later_than(&b));
    assert!(a.nanos < 2_000_000_000);
}

#[test]
fn attachments_lie_in_folders_named_after_their_identifier() {
    assert_eq!(
        appbase_backend::media::attachment_folders("550e8400-e29b-41d4-a716-446655440000"),
        Some(("55".to_string(), "0e".to_string()))
    );
    assert_eq!(appbase_backend::media::attachment_folders("abc"), None);
    assert_eq!(
        appbase_backend::media::display_path("550e8400-e29b", "png").as_deref(),
        Some("/media/attachments/55/0e/550e8400-e29b.png")
    );
    assert_eq!(appbase_backend::media::display_path("", "png"), None);
}

#[test]
fn the_present_can_be_shown() {
    let shown = show_time(current_time());
    assert!(shown.ends_with(" UTC"));
    assert!(shown.starts_with("20"));
}
