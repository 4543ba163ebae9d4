//! The application's settings and where its files live.

use vstd::prelude::*;
use crate::paths::{join_path, joined, Platform};

verus! {

/// The database file name used unless the settings say otherwise.
pub const DEFAULT_DB_NAME: &'static str = "transactions.db";

/// The settings file, inside the configuration directory.
pub const CONFIG_FILE: &'static str = "config.json";

/// The configuration directory, under the home directory or the working
/// directory, when the system names no per-application one.
pub const FALLBACK_CONFIG_DIR: &'static str = ".investlog";

/// The iCloud Drive folder, under the home directory.
pub const ICLOUD_DRIVE: &'static str = "Library/Mobile Documents/com~apple~CloudDocs";

/// The application's folder in iCloud Drive, under the home directory.
pub const ICLOUD_APP_FOLDER: &'static str = "Library/Mobile Documents/com~apple~CloudDocs/InvestLog";

/// The text of the error when iCloud storage is chosen but has no folder.
pub const ICLOUD_UNAVAILABLE: &'static str = "iCloud not available";

/// The persisted settings.
pub struct AppConfig {
    /// Whether the first-run setup was completed.
    pub setup_complete: bool,
    /// Whether the data lives in iCloud Drive.
    pub use_icloud: bool,
    /// A data directory chosen by the user.
    pub data_dir: Option<String>,
    /// The database file name.
    pub db_name: String,
}

/// The text of an optional string.
pub open spec fn opt_text(o: Option<String>) -> Option<Seq<char>> {
    match o {
        Some(s) => Some(s@),
        None => None,
    }
}

/// The configuration directory: the system's per-application one, else a
/// fallback folder under the home directory, else that folder in the working
/// directory.
pub open spec fn config_dir_text(
    platform: Platform,
    project: Option<Seq<char>>,
    home: Option<Seq<char>>,
) -> Seq<char> {
    match project {
        Some(p) => p,
        None => match home {
            Some(h) => joined(platform, h, FALLBACK_CONFIG_DIR@),
            None => FALLBACK_CONFIG_DIR@,
        },
    }
}

/// The application's iCloud folder: only on macOS, and only with a home
/// directory.
pub open spec fn icloud_folder_text(platform: Platform, home: Option<Seq<char>>) -> Option<
    Seq<char>,
> {
    match home {
        Some(h) if platform == Platform::MacOs => Some(joined(Platform::MacOs, h, ICLOUD_APP_FOLDER@)),
        _ => None,
    }
}

/// The data directory: the one the user chose, else the iCloud folder when
/// iCloud is chosen and has one, else the configuration directory.
pub open spec fn data_dir_text(
    config: AppConfig,
    icloud_folder: Option<Seq<char>>,
    config_dir: Seq<char>,
) -> Seq<char> {
    match config.data_dir {
        Some(d) => d@,
        None => if config.use_icloud && icloud_folder is Some {
            icloud_folder->0
        } else {
            config_dir
        },
    }
}

/// Relies on directories::ProjectDirs::from and ProjectDirs::config_dir: the
/// system's configuration directory for the named application, when the user
/// has a home directory. It depends on the environment; when there is one,
/// it is a non-empty base directory joined with the project's path, so never
/// empty.
#[verifier::external_body]
fn project_config_dir(qualifier: &str, organization: &str, application: &str) -> (r: Option<
    String,
>)
    ensures
        r matches Some(d) ==> d@.len() > 0,
{
    directories::ProjectDirs::from(qualifier, organization, application).map(
        |d| d.config_dir().to_string_lossy().to_string(),
    )
}

/// Relies on dirs::home_dir: the user's home directory, when there is one. It
/// depends on the environment: nothing is promised.
#[verifier::external_body]
fn home_dir() -> (r: Option<String>) {
    dirs::home_dir().map(|h| h.to_string_lossy().to_string())
}

/// A copy of an optional string.
fn copy_opt(o: &Option<String>) -> (r: Option<String>)
    ensures
        opt_text(r) == opt_text(*o),
{
    match o {
        Some(s) => Some(String::from_str(s.as_str())),
        None => None,
    }
}

/// The database file name used unless the settings say otherwise.
pub fn default_db_name() -> (r: String)
    ensures
        r@ == DEFAULT_DB_NAME@,
{
    String::from_str(DEFAULT_DB_NAME)
}

impl Default for AppConfig {
    /// Settings before the first run, or when none can be read: setup not
    /// done, local storage, no database name.
    fn default() -> (r: AppConfig)
        ensures
            !r.setup_complete,
            !r.use_icloud,
            r.data_dir is None,
            r.db_name@ == Seq::<char>::empty(),
    {
        AppConfig { setup_complete: false, use_icloud: false, data_dir: None, db_name: String::new() }
    }
}

/// Whether the first-run setup is still to be done.
pub fn is_first_run(config: &AppConfig) -> (r: bool)
    ensures
        r == !config.setup_complete,
{
    !config.setup_complete
}

/// The configuration directory, from the system's per-application directory
/// and the home directory, either of which may be unknown.
pub fn config_dir_from(platform: Platform, project: Option<String>, home: Option<String>) -> (r:
    String)
    ensures
        r@ == config_dir_text(platform, opt_text(project), opt_text(home)),
{
    match project {
        Some(p) => p,
        None => match home {
            Some(h) => join_path(h.as_str(), FALLBACK_CONFIG_DIR, platform),
            None => String::from_str(FALLBACK_CONFIG_DIR),
        },
    }
}

/// The configuration directory of this system. What the system reports
/// depends on the environment; `config_dir_from` states how the result
/// follows from it.
pub fn get_config_dir(platform: Platform) -> (r: String)
    ensures
        r@.len() > 0,
        exists|project: Option<Seq<char>>, home: Option<Seq<char>>|
            {
                &&& r@ == config_dir_text(platform, project, home)
                &&& project matches Some(p) ==> p.len() > 0
            },
{
    let project = project_config_dir("com", "investlog", "InvestLog");
    let home = if project.is_some() {
        None
    } else {
        home_dir()
    };
    let ghost (p, h) = (opt_text(project), opt_text(home));
    proof {
        reveal_strlit(".investlog");
    }
    let r = config_dir_from(platform, project, home);
    assert(r@ == config_dir_text(platform, p, h));
    r
}

/// The settings file in the configuration directory `dir`.
pub fn config_file_in(dir: &str, platform: Platform) -> (r: String)
    ensures
        r@ == joined(platform, dir@, CONFIG_FILE@),
{
    join_path(dir, CONFIG_FILE, platform)
}

/// The settings file of this system: `config.json` in its configuration
/// directory.
pub fn get_config_path(platform: Platform) -> (r: String)
    ensures
        exists|dir: Seq<char>|
            {
                &&& dir.len() > 0
                &&& r@ == joined(platform, dir, CONFIG_FILE@)
            },
{
    let dir = get_config_dir(platform);
    config_file_in(dir.as_str(), platform)
}

/// The iCloud Drive folder under the home directory `home`, whose existence
/// tells whether iCloud is available.
pub fn icloud_drive_path(home: &str) -> (r: String)
    ensures
        r@ == joined(Platform::MacOs, home@, ICLOUD_DRIVE@),
{
    join_path(home, ICLOUD_DRIVE, Platform::MacOs)
}

/// Whether iCloud storage can be offered: only on macOS, where the iCloud
/// Drive folder exists (`drive_exists`).
pub fn is_icloud_available(platform: Platform, drive_exists: bool) -> (r: bool)
    ensures
        r == (platform == Platform::MacOs && drive_exists),
{
    match platform {
        Platform::MacOs => drive_exists,
        _ => false,
    }
}

/// The application's iCloud folder, for the home directory `home`.
pub fn icloud_app_folder_in(platform: Platform, home: Option<String>) -> (r: Option<String>)
    ensures
        opt_text(r) == icloud_folder_text(platform, opt_text(home)),
{
    match platform {
        Platform::MacOs => match home {
            Some(h) => Some(join_path(h.as_str(), ICLOUD_APP_FOLDER, Platform::MacOs)),
            None => None,
        },
        _ => None,
    }
}

/// The application's iCloud folder on this system.
pub fn get_icloud_app_folder(platform: Platform) -> (r: Option<String>)
    ensures
        exists|home: Option<Seq<char>>| opt_text(r) == icloud_folder_text(platform, home),
        platform != Platform::MacOs ==> r is None,
{
    if platform != Platform::MacOs {
        assert(opt_text(None) == icloud_folder_text(platform, None));
        return None;
    }
    let home = home_dir();
    let ghost h = opt_text(home);
    let r = icloud_app_folder_in(platform, home);
    assert(opt_text(r) == icloud_folder_text(platform, h));
    r
}

/// The data directory for `config`, given the iCloud folder and the
/// configuration directory.
pub fn data_dir_from(config: &AppConfig, icloud_folder: Option<String>, config_dir: String) -> (r:
    String)
    ensures
        r@ == data_dir_text(*config, opt_text(icloud_folder), config_dir@),
{
    match &config.data_dir {
        Some(d) => String::from_str(d.as_str()),
        None => if config.use_icloud {
            match icloud_folder {
                Some(f) => f,
                None => config_dir,
            }
        } else {
            config_dir
        },
    }
}

/// The data directory for `config` on this system: the chosen directory when
/// there is one, else the iCloud folder when iCloud is chosen and this system
/// has one, else the configuration directory. The folder and the directory
/// that the system reports depend on the environment: the result is
/// `data_dir_text` of what it reported.
pub fn get_data_dir(config: &AppConfig, platform: Platform) -> (r: String)
    ensures
        exists|icloud_folder: Option<Seq<char>>, config_dir: Seq<char>|
            {
                &&& r@ == data_dir_text(*config, icloud_folder, config_dir)
                &&& (platform != Platform::MacOs || !config.use_icloud) ==> icloud_folder is None
                &&& icloud_folder matches Some(f) ==> exists|home: Seq<char>|
                    f == joined(Platform::MacOs, home, ICLOUD_APP_FOLDER@)
            },
{
    if config.data_dir.is_some() {
        let r = data_dir_from(config, None, String::new());
        assert(r@ == data_dir_text(*config, None, Seq::<char>::empty()));
        return r;
    }
    let icloud_folder = if config.use_icloud {
        get_icloud_app_folder(platform)
    } else {
        None
    };
    let ghost f = opt_text(icloud_folder);
    let config_dir = if icloud_folder.is_some() {
        String::new()
    } else {
        get_config_dir(platform)
    };
    let ghost c = config_dir@;
    let r = data_dir_from(config, icloud_folder, config_dir);
    assert(r@ == data_dir_text(*config, f, c));
    r
}

} // verus!
