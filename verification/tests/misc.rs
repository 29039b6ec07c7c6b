use tempest::desktop::{desktop_entry, desktop_exec, desktop_icon, handler_dir_from, menu_dir_from, uri_handler_entry};
use tempest::games::{game_id_column, games_found_line};
use tempest::logger::{echoes_to_stderr, log_entry, LogLevel};

#[test]
fn desktop_files() {
    let exec = desktop_exec("/usr/bin/tempest", 2);
    assert_eq!(exec, "/usr/bin/tempest play 2");
    assert_eq!(desktop_icon("/i/vortex.jpg", true), "/i/vortex.jpg");
    assert_eq!(desktop_icon("/i/vortex.jpg", false), "application-x-executable");
    let expected = "[Desktop Entry]\nType=Application\nName=Vortex\nComment=Linux launcher for Vortex\nExec=/usr/bin/tempest play 2\nIcon=/i/v.jpg\nTerminal=false\nCategories=Game;\nMimeType=x-scheme-handler/vortex;\nStartupNotify=false\n";
    assert_eq!(desktop_entry(&exec, "/i/v.jpg"), expected);
    assert_eq!(
        uri_handler_entry("/bin/t"),
        "[Desktop Entry]\nName=Tempest (Vortex Launcher)\nExec=/bin/t uri-handler %u\nType=Application\nMimeType=x-scheme-handler/vortex;\nNoDisplay=true\n"
    );
    assert_eq!(menu_dir_from(None, "/h"), "/h/.local/share/applications");
    assert_eq!(menu_dir_from(Some("/s".into()), "/h"), "/s/applications");
    assert_eq!(handler_dir_from(None), "applications");
}

#[test]
fn game_list_columns() {
    assert_eq!(game_id_column(4), "    4");
    assert_eq!(game_id_column(123456), "123456");
    assert_eq!(format!("{:>5}", 42), game_id_column(42));
    assert_eq!(games_found_line(3), "Found 3 game(s)");
}

#[test]
fn log_lines() {
    assert_eq!(log_entry("2024-01-02 03:04:05", LogLevel::Error, "boom"), "[2024-01-02 03:04:05] [ERROR] boom");
    assert_eq!(log_entry("t", LogLevel::Info, "m"), "[t] [INFO] m");
    assert!(echoes_to_stderr(LogLevel::Warn));
    assert!(!echoes_to_stderr(LogLevel::Info));
}
