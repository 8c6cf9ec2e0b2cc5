use jieqibox_native::platform::{
    engine_install_target, engine_source_dirs, get_config_file_path, get_user_engine_directory,
    internal_engine_dir, join_path, notation_target, open_external_url, Platform, UrlOpener,
};
use jieqibox_native::text::TextDecoding;

#[test]
fn user_engine_directory_is_fixed() {
    assert_eq!(get_user_engine_directory(), "/storage/emulated/0/jieqibox/engines");
}

#[test]
fn config_path_depends_on_platform() {
    assert_eq!(
        get_config_file_path(Platform::Android, "com.example.box"),
        "/data/data/com.example.box/files/config.ini"
    );
    assert_eq!(get_config_file_path(Platform::Windows, "com.example.box"), "config.ini");
    assert_eq!(get_config_file_path(Platform::Linux, "x"), "config.ini");
}

#[test]
fn engine_directories() {
    assert_eq!(internal_engine_dir("b.id"), "/data/data/b.id/files/engines");
    assert_eq!(
        engine_source_dirs("b.id"),
        vec![
            "/storage/emulated/0/jieqibox/engines".to_string(),
            "/storage/emulated/0/Android/data/b.id/files/engines".to_string(),
        ]
    );
    assert_eq!(join_path("/a", "b"), "/a/b");
}

#[test]
fn notations_only_on_android() {
    let err = notation_target(Platform::MacOs, "b.id", "g.pgn");
    assert_eq!(err.err().unwrap(), "This function is only available on Android");
    let ok = notation_target(Platform::Android, "b.id", "g.pgn").ok().unwrap();
    assert_eq!(ok.dir, "/storage/emulated/0/Android/data/b.id/files/notations");
    assert_eq!(ok.file, "/storage/emulated/0/Android/data/b.id/files/notations/g.pgn");
}

#[test]
fn picked_engine_install_target() {
    let err = engine_install_target("b.id", "pika", "pikafish", "");
    assert_eq!(err.err().unwrap(), "SAF file processing failed: temporary path is empty.");
    let ok = engine_install_target("b.id", "pika", "pikafish", "/tmp/x").ok().unwrap();
    assert_eq!(ok.dir, "/data/data/b.id/files/engines/pika");
    assert_eq!(ok.file, "/data/data/b.id/files/engines/pika/pikafish");
}

#[test]
fn url_openers_per_platform() {
    match open_external_url(Platform::Windows, "https://a.b") {
        UrlOpener::Spawn { program, args } => {
            assert_eq!(program, "cmd");
            assert_eq!(args, vec!["/C".to_string(), "start".to_string(), "https://a.b".to_string()]);
        }
        UrlOpener::Delegate => panic!("expected a program"),
    }
    match open_external_url(Platform::MacOs, "u") {
        UrlOpener::Spawn { program, args } => {
            assert_eq!(program, "open");
            assert_eq!(args, vec!["u".to_string()]);
        }
        UrlOpener::Delegate => panic!("expected a program"),
    }
    match open_external_url(Platform::Linux, "u") {
        UrlOpener::Spawn { program, .. } => assert_eq!(program, "xdg-open"),
        UrlOpener::Delegate => panic!("expected a program"),
    }
    assert!(matches!(open_external_url(Platform::Android, "u"), UrlOpener::Delegate));
}

#[test]
fn decoding_per_platform() {
    assert_eq!(TextDecoding::for_platform(Platform::Windows), TextDecoding::Gbk);
    assert_eq!(TextDecoding::for_platform(Platform::Android), TextDecoding::Utf8Lossy);
    assert_eq!(TextDecoding::for_platform(Platform::Linux), TextDecoding::Utf8Lossy);
}
