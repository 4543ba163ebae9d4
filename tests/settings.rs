use invest_log::config::{
    config_dir_from, config_file_in, data_dir_from, default_db_name, get_config_dir,
    get_config_path, get_data_dir, get_icloud_app_folder, icloud_app_folder_in,
    icloud_drive_path, is_first_run, is_icloud_available, AppConfig,
};
use invest_log::paths::Platform;
use invest_log::setup::{choose_storage, get_setup_info};

fn config(use_icloud: bool, data_dir: Option<&str>) -> AppConfig {
    AppConfig {
        setup_complete: true,
        use_icloud,
        data_dir: data_dir.map(|d| d.to_string()),
        db_name: default_db_name(),
    }
}

#[test]
fn default_config_is_before_setup() {
    let c = AppConfig::default();
    assert!(!c.setup_complete);
    assert!(!c.use_icloud);
    assert!(c.data_dir.is_none());
    assert_eq!(c.db_name, "");
    assert_eq!(default_db_name(), "transactions.db");
    assert!(is_first_run(&c));
    assert!(!is_first_run(&config(false, None)));
}

#[test]
fn config_dir_prefers_system_directory() {
    assert_eq!(config_dir_from(Platform::Other, Some("/cfg/investlog".into()), Some("/home/u".into())), "/cfg/investlog");
    assert_eq!(config_dir_from(Platform::Other, None, Some("/home/u".into())), "/home/u/.investlog");
    assert_eq!(config_dir_from(Platform::Windows, None, None), ".investlog");
    assert_eq!(
        config_dir_from(Platform::Windows, None, Some("C:\\Users\\u".into())),
        "C:\\Users\\u\\.investlog"
    );
    assert!(!get_config_dir(Platform::Other).is_empty());
}

#[test]
fn config_file_is_in_config_dir() {
    assert_eq!(config_file_in("/cfg/investlog", Platform::Other), "/cfg/investlog/config.json");
    assert!(get_config_path(Platform::Other).ends_with("config.json"));
    assert!(get_config_path(Platform::Other).starts_with(&get_config_dir(Platform::Other)));
}

#[test]
fn icloud_only_on_macos() {
    assert!(is_icloud_available(Platform::MacOs, true));
    assert!(!is_icloud_available(Platform::MacOs, false));
    assert!(!is_icloud_available(Platform::Windows, true));
    assert_eq!(get_icloud_app_folder(Platform::Other), None);
    assert_eq!(icloud_app_folder_in(Platform::Windows, Some("/home/u".into())), None);
    assert_eq!(icloud_app_folder_in(Platform::MacOs, None), None);
    assert_eq!(
        icloud_app_folder_in(Platform::MacOs, Some("/Users/a".into())).unwrap(),
        "/Users/a/Library/Mobile Documents/com~apple~CloudDocs/InvestLog"
    );
    assert_eq!(
        icloud_drive_path("/Users/a"),
        "/Users/a/Library/Mobile Documents/com~apple~CloudDocs"
    );
}

#[test]
fn data_dir_prefers_chosen_directory() {
    let icloud = Some("/Users/a/icloud".to_string());
    assert_eq!(data_dir_from(&config(true, Some("/mine")), icloud.clone(), "/cfg".into()), "/mine");
    assert_eq!(data_dir_from(&config(true, None), icloud.clone(), "/cfg".into()), "/Users/a/icloud");
    assert_eq!(data_dir_from(&config(true, None), None, "/cfg".into()), "/cfg");
    assert_eq!(data_dir_from(&config(false, None), icloud, "/cfg".into()), "/cfg");
    assert_eq!(get_data_dir(&config(false, Some("/mine")), Platform::Other), "/mine");
    assert_eq!(get_data_dir(&config(false, None), Platform::Other), get_config_dir(Platform::Other));
    assert_eq!(get_data_dir(&config(true, None), Platform::Windows), get_config_dir(Platform::Windows));
}

#[test]
fn storage_choice_icloud() {
    let (c, dir) = choose_storage(AppConfig::default(), true, true, Some("/Users/a/icloud".into()),
        Some("/ignored".into()), "/cfg".into()).unwrap();
    assert!(c.setup_complete && c.use_icloud && c.data_dir.is_none());
    assert_eq!(dir, "/Users/a/icloud");
}

#[test]
fn storage_choice_icloud_without_folder_fails() {
    let r = choose_storage(AppConfig::default(), true, true, None, None, "/cfg".into());
    assert_eq!(r.err().unwrap(), "iCloud not available");
}

#[test]
fn storage_choice_custom_path() {
    let (c, dir) = choose_storage(AppConfig::default(), true, false, None,
        Some("/data/mine".into()), "/cfg".into()).unwrap();
    assert!(c.setup_complete && !c.use_icloud);
    assert_eq!(c.data_dir.as_deref(), Some("/data/mine"));
    assert_eq!(dir, "/data/mine");
}

#[test]
fn storage_choice_default() {
    let mut start = AppConfig::default();
    start.db_name = "other.db".into();
    start.use_icloud = true;
    start.data_dir = Some("/old".into());
    let (c, dir) = choose_storage(start, false, true, Some("/icloud".into()), None, "/cfg".into()).unwrap();
    assert!(c.setup_complete && !c.use_icloud && c.data_dir.is_none());
    assert_eq!(c.db_name, "other.db");
    assert_eq!(dir, "/cfg");
}

#[test]
fn setup_info_reflects_inputs() {
    let info = get_setup_info(&config(true, None), Platform::MacOs, true,
        Some("/Users/a/icloud".into()), "/cfg".into());
    assert!(info.setup_complete && info.is_macos && !info.is_windows && info.icloud_available);
    assert_eq!(info.icloud_path.as_deref(), Some("/Users/a/icloud"));
    assert_eq!(info.default_path, "/cfg");
    assert_eq!(info.current_data_dir, "/Users/a/icloud");
}
