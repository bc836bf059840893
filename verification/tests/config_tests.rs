use music_upload::admin::validate_library_path;
use music_upload::admin::validate_password;
use music_upload::admin::validate_username;
use music_upload::admin::visible_upload_logs;
use music_upload::auth::AuthState;
use music_upload::auth::AuthUser;
use music_upload::auth::token_expiry;
use music_upload::config::Config;
use music_upload::config::EnvOverrides;
use music_upload::config::effective_flag;
use music_upload::credentials::hash_password;
use music_upload::credentials::verify_password;
use music_upload::jobs::CreateUploadLog;
use music_upload::jobs::JobKind;
use music_upload::jobs::JobStore;
use music_upload::models::Claims;

#[test]
fn default_config_values() {
    let c = Config::default();
    assert_eq!(c.server.host, "0.0.0.0");
    assert_eq!(c.server.port, 8080);
    assert_eq!(c.database.url, "sqlite:./data/music_upload.db");
    assert_eq!(c.paths.music_dir, "/tmp/music");
    assert_eq!(c.paths.temp_dir, "/tmp/music_upload");
    assert_eq!(c.security.session_timeout_hours, 24);
    assert_eq!(c.upload.max_file_size_mb, 500);
    assert_eq!(
        c.upload.allowed_extensions,
        vec!["mp3", "flac", "ogg", "opus", "m4a", "wav", "aac"]
    );
    assert!(c.youtube.enabled);
    assert_eq!(c.youtube.ytdlp_path, "yt-dlp");
    assert_eq!(c.youtube.format_selector, "bestaudio/best");
    assert_eq!(c.youtube.player_client.as_deref(), Some("web"));
    assert!(c.youtube.extra_args.is_empty());
    assert_eq!(c.spotify.audio_format, "opus");
    assert_eq!(c.max_file_size_bytes(), 500 * 1024 * 1024);
}

#[test]
fn environment_overrides_replace_only_what_they_name() {
    let mut c = Config::default();
    c.apply_overrides(EnvOverrides {
        host: Some("127.0.0.1".to_string()),
        port: Some("9090".to_string()),
        database_url: None,
        jwt_secret: Some("configured-secret".to_string()),
        music_dir: Some("/data/music".to_string()),
        temp_dir: None,
    });
    assert_eq!(c.server.host, "127.0.0.1");
    assert_eq!(c.server.port, 9090);
    assert_eq!(c.database.url, "sqlite:./data/music_upload.db");
    assert_eq!(c.security.jwt_secret, "configured-secret");
    assert_eq!(c.paths.music_dir, "/data/music");
    assert_eq!(c.paths.temp_dir, "/tmp/music_upload");
}

#[test]
fn unparsable_port_overrides_are_ignored() {
    let mut c = Config::default();
    c.apply_overrides(EnvOverrides {
        host: None,
        port: Some("not-a-port".to_string()),
        database_url: None,
        jwt_secret: None,
        music_dir: None,
        temp_dir: None,
    });
    assert_eq!(c.server.port, 8080);
    c.apply_overrides(EnvOverrides {
        host: None,
        port: Some("70000".to_string()),
        database_url: None,
        jwt_secret: None,
        music_dir: None,
        temp_dir: None,
    });
    assert_eq!(c.server.port, 8080);
}

#[test]
fn placeholder_secrets_are_replaced_by_generated_ones() {
    let mut c = Config::default();
    c.ensure_jwt_secret();
    assert_eq!(c.security.jwt_secret.len(), 43);
    assert!(c.security.jwt_secret.chars().all(|ch| ch.is_ascii_alphanumeric()
        || ch == '+'
        || ch == '/'));

    let mut c = Config::default();
    c.security.jwt_secret = String::new();
    c.ensure_jwt_secret();
    assert_eq!(c.security.jwt_secret.len(), 43);

    let mut c = Config::default();
    c.security.jwt_secret = "configured-secret".to_string();
    c.ensure_jwt_secret();
    assert_eq!(c.security.jwt_secret, "configured-secret");
}

#[test]
fn effective_flag_prefers_the_stored_value() {
    assert!(effective_flag(&Some("true".to_string()), false));
    assert!(!effective_flag(&Some("false".to_string()), true));
    assert!(effective_flag(&Some("maybe".to_string()), true));
    assert!(!effective_flag(&Some("maybe".to_string()), false));
    assert!(effective_flag(&None, true));
    assert!(!effective_flag(&None, false));
}

#[test]
fn hashed_passwords_verify_and_reject() {
    let hash = hash_password("hunter2hunter2").unwrap();
    assert!(verify_password("hunter2hunter2", &hash).is_ok());
    assert!(verify_password("wrong-password", &hash).is_err());
    assert!(verify_password("hunter2hunter2", "not a phc string").is_err());
}

#[test]
fn login_accepts_exactly_the_stored_password() {
    let user = music_upload::models::User {
        id: "u1".to_string(),
        username: "alice".to_string(),
        password_hash: hash_password("correct horse").unwrap(),
        is_admin: false,
        library_path: None,
        created_at: 0,
        updated_at: 0,
    };
    assert!(music_upload::credentials::verify_user_password(&user, "correct horse").is_ok());
    assert!(music_upload::credentials::verify_user_password(&user, "battery staple").is_err());
}

#[test]
fn auth_state_and_claims_carry_over() {
    let auth = AuthState::new("secret".to_string(), 24);
    assert_eq!(auth.jwt_secret, "secret");
    assert_eq!(auth.session_timeout_hours, 24);
    let user = AuthUser::from_claims(Claims {
        sub: "u1".to_string(),
        username: "alice".to_string(),
        is_admin: true,
        exp: 12345,
    });
    assert_eq!(user.user_id, "u1");
    assert_eq!(user.username, "alice");
    assert!(user.is_admin);
}

#[test]
fn token_expiry_adds_hours_and_reports_overflow() {
    assert_eq!(token_expiry(1_700_000_000, 24), Some(1_700_000_000 + 24 * 3600));
    assert_eq!(token_expiry(0, 0), Some(0));
    assert_eq!(token_expiry(i64::MAX, 1), None);
    assert_eq!(token_expiry(0, i64::MAX), None);
}

#[test]
fn account_rules_mirror_the_endpoints() {
    assert!(validate_username("abc"));
    assert!(!validate_username("ab"));
    assert!(!validate_username(""));
    assert!(validate_password("12345678"));
    assert!(!validate_password("1234567"));
    assert!(validate_library_path("/srv/music/alice"));
    assert!(!validate_library_path(""));
    assert!(!validate_library_path("/srv/../etc"));
}

#[test]
fn admins_see_all_logs_and_users_their_own() {
    let mut store = JobStore::new();
    for (user, source) in [("alice", "a"), ("bob", "b"), ("alice", "c")] {
        store
            .create_upload_log(
                CreateUploadLog {
                    user_id: user.to_string(),
                    upload_type: JobKind::File,
                    source: source.to_string(),
                },
                1,
            )
            .unwrap();
    }
    let admin = AuthUser {
        user_id: "root".to_string(),
        username: "root".to_string(),
        is_admin: true,
    };
    let alice = AuthUser {
        user_id: "alice".to_string(),
        username: "alice".to_string(),
        is_admin: false,
    };
    assert_eq!(visible_upload_logs(&store, &admin, 100).len(), 3);
    let own = visible_upload_logs(&store, &alice, 100);
    assert_eq!(own.len(), 2);
    assert!(own.iter().all(|j| j.user_id == "alice"));
}
