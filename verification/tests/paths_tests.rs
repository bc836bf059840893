use music_upload::config::Config;
use music_upload::paths::DirSet;
use music_upload::paths::ensure_directory_exists;
use music_upload::paths::get_user_directories;
use music_upload::paths::get_user_music_dir;
use music_upload::paths::get_user_temp_dir;

#[test]
fn test_get_user_music_dir_with_library_path() {
    let config = Config::default();
    let library_path = Some("/srv/navidrome/music/jcledesma".to_string());

    let result = get_user_music_dir(&config, &library_path);
    assert_eq!(result, "/srv/navidrome/music/jcledesma");
}

#[test]
fn test_get_user_music_dir_without_library_path() {
    let config = Config::default();
    let library_path = None;

    let result = get_user_music_dir(&config, &library_path);
    assert_eq!(result, config.paths.music_dir);
}

#[test]
fn test_get_user_music_dir_equals_global_music_dir() {
    let config = Config::default();
    // When library_path equals global music_dir, it should append "/default"
    let library_path = Some(config.paths.music_dir.clone());

    let result = get_user_music_dir(&config, &library_path);
    let expected = format!("{}/default", config.paths.music_dir);
    assert_eq!(result, expected);
}

#[test]
fn test_get_user_temp_dir_with_library_path() {
    let config = Config::default();
    let library_path = Some("/srv/navidrome/music/jcledesma".to_string());

    let result = get_user_temp_dir(&config, &library_path);
    assert_eq!(result, "/srv/navidrome/music/jcledesma/tmp");
}

#[test]
fn test_get_user_temp_dir_without_library_path() {
    let config = Config::default();
    let library_path = None;

    let result = get_user_temp_dir(&config, &library_path);
    assert_eq!(result, config.paths.temp_dir);
}

#[test]
fn test_get_user_temp_dir_equals_global_music_dir() {
    let config = Config::default();
    // When library_path equals global music_dir, use global temp_dir
    // (don't create a tmp folder inside the "default" folder)
    let library_path = Some(config.paths.music_dir.clone());

    let result = get_user_temp_dir(&config, &library_path);
    assert_eq!(result, config.paths.temp_dir);
}

#[test]
fn ensure_directory_is_idempotent() {
    let mut fs = DirSet::new();
    let path = "/srv/music/alice".to_string();
    assert!(ensure_directory_exists(&mut fs, &path));
    assert!(!ensure_directory_exists(&mut fs, &path));
    assert!(!ensure_directory_exists(&mut fs, &path));
    let other = "/srv/music/bob".to_string();
    assert!(ensure_directory_exists(&mut fs, &other));
}

#[test]
fn user_directories_are_created_once() {
    let config = Config::default();
    let mut fs = DirSet::new();
    let library_path = Some("/srv/navidrome/music/jcledesma".to_string());
    let (music, temp) = get_user_directories(&config, &library_path, &mut fs);
    assert_eq!(music, "/srv/navidrome/music/jcledesma");
    assert_eq!(temp, "/srv/navidrome/music/jcledesma/tmp");
    assert!(fs.contains_dir(&music));
    assert!(fs.contains_dir(&temp));
    let (music2, temp2) = get_user_directories(&config, &library_path, &mut fs);
    assert_eq!(music2, music);
    assert_eq!(temp2, temp);
}
