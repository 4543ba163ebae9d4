//! The first-run setup: the storage choice and what the setup screen shows.

use vstd::prelude::*;
use crate::config::{data_dir_from, data_dir_text, opt_text, AppConfig, ICLOUD_UNAVAILABLE};
use crate::paths::Platform;

verus! {

/// What the setup screen shows.
pub struct SetupInfo {
    pub setup_complete: bool,
    pub is_macos: bool,
    pub is_windows: bool,
    pub icloud_available: bool,
    pub icloud_path: Option<String>,
    pub default_path: String,
    pub current_data_dir: String,
}

/// What the setup screen shows for `config` on `platform`, given whether
/// iCloud is available, the iCloud folder and the default (configuration)
/// directory.
pub fn get_setup_info(
    config: &AppConfig,
    platform: Platform,
    icloud_available: bool,
    icloud_path: Option<String>,
    default_path: String,
) -> (r: SetupInfo)
    ensures
        r.setup_complete == config.setup_complete,
        r.is_macos == (platform == Platform::MacOs),
        r.is_windows == (platform == Platform::Windows),
        r.icloud_available == icloud_available,
        opt_text(r.icloud_path) == opt_text(icloud_path),
        r.default_path@ == default_path@,
        r.current_data_dir@ == data_dir_text(*config, opt_text(icloud_path), default_path@),
{
    let folder = match &icloud_path {
        Some(p) => Some(String::from_str(p.as_str())),
        None => None,
    };
    let current = data_dir_from(config, folder, String::from_str(default_path.as_str()));
    SetupInfo {
        setup_complete: config.setup_complete,
        is_macos: platform == Platform::MacOs,
        is_windows: platform == Platform::Windows,
        icloud_available,
        icloud_path,
        default_path,
        current_data_dir: current,
    }
}

/// Applies the user's storage choice to `config` and marks the setup done.
/// iCloud is used when it is asked for and available, and then its folder
/// must be known; otherwise a custom path is used when one is given, else
/// the default directory. Returns the new settings and the data directory
/// that the host must create before saving them.
pub fn choose_storage(
    config: AppConfig,
    use_icloud: bool,
    icloud_available: bool,
    icloud_folder: Option<String>,
    custom_path: Option<String>,
    default_dir: String,
) -> (r: Result<(AppConfig, String), String>)
    ensures
        (r is Err) == (use_icloud && icloud_available && icloud_folder is None),
        r matches Err(e) ==> e@ == ICLOUD_UNAVAILABLE@,
        r matches Ok((c, dir)) ==> {
            &&& c.setup_complete
            &&& c.db_name == config.db_name
            &&& if use_icloud && icloud_available {
                &&& c.use_icloud
                &&& c.data_dir is None
                &&& opt_text(icloud_folder) == Some(dir@)
            } else if custom_path is Some {
                &&& !c.use_icloud
                &&& opt_text(c.data_dir) == opt_text(custom_path)
                &&& opt_text(custom_path) == Some(dir@)
            } else {
                &&& !c.use_icloud
                &&& c.data_dir is None
                &&& dir@ == default_dir@
            }
        },
{
    let AppConfig { db_name, .. } = config;
    if use_icloud && icloud_available {
        match icloud_folder {
            None => Err(String::from_str(ICLOUD_UNAVAILABLE)),
            Some(folder) => Ok(
                (AppConfig { setup_complete: true, use_icloud: true, data_dir: None, db_name }, folder),
            ),
        }
    } else {
        match custom_path {
            Some(path) => {
                let dir = String::from_str(path.as_str());
                Ok(
                    (
                        AppConfig {
                            setup_complete: true,
                            use_icloud: false,
                            data_dir: Some(path),
                            db_name,
                        },
                        dir,
                    ),
                )
            },
            None => Ok(
                (
                    AppConfig { setup_complete: true, use_icloud: false, data_dir: None, db_name },
                    default_dir,
                ),
            ),
        }
    }
}

} // verus!
