use vstd::prelude::*;

verus! {

/// Where the configuration folder lies.
#[derive(Clone, Copy, Debug, PartialEq, Eq, Structural)]
pub enum ConfigBase {
    /// The folder named by `XDG_CONFIG_HOME` (on Windows, `APPDATA`).
    Variable,
    /// `.config` in the folder named by `HOME`.
    HomeDotConfig,
    /// The current folder.
    CurrentDirectory,
}

/// The configuration folder on Linux: `XDG_CONFIG_HOME` if it is set, else `~/.config`
/// if `HOME` is set, else the current folder.
pub fn linux_config_base(xdg_config_home_set: bool, home_set: bool) -> (r: ConfigBase)
    ensures
        r == if xdg_config_home_set {
            ConfigBase::Variable
        } else if home_set {
            ConfigBase::HomeDotConfig
        } else {
            ConfigBase::CurrentDirectory
        },
{
    if xdg_config_home_set {
        ConfigBase::Variable
    } else if home_set {
        ConfigBase::HomeDotConfig
    } else {
        ConfigBase::CurrentDirectory
    }
}

/// The configuration folder on Windows: `APPDATA` if it is set, else the current folder.
pub fn windows_config_base(appdata_set: bool) -> (r: ConfigBase)
    ensures
        r == if appdata_set {
            ConfigBase::Variable
        } else {
            ConfigBase::CurrentDirectory
        },
{
    if appdata_set {
        ConfigBase::Variable
    } else {
        ConfigBase::CurrentDirectory
    }
}

/// The folder, under the configuration folder, that holds the presets on Linux; earlier
/// development builds used another name, which is still read.
pub fn linux_preset_folder(legacy: bool) -> (r: &'static str)
    ensures
        r@ == if legacy {
            "mint-autoclicker"@
        } else {
            "a-simple-autoclicker"@
        },
{
    if legacy {
        "mint-autoclicker"
    } else {
        "a-simple-autoclicker"
    }
}

/// The folder, under the configuration folder, that holds the presets on Windows.
pub const WINDOWS_PRESET_FOLDER: &'static str = "A Simple Autoclicker";

/// The name of the preset file.
pub const PRESET_FILE_NAME: &'static str = "presets.json";

/// A path that no Windows installation has, read in place of a legacy preset file.
pub const WINDOWS_LEGACY_PRESET_PATH: &'static str = "__no_legacy_windows_preset_file__";

} // verus!
