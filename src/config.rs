//! Per-profile metadata and the global settings that decide which optional
//! attributes are captured and restored.
use vstd::prelude::*;

verus! {

/// A shell command with its arguments, run before or after a profile is applied.
#[derive(Debug, Clone, Default)]
pub struct RunCommand {
    pub target: String,
    pub args: String,
}

impl RunCommand {
    /// True when neither a target nor arguments are set.
    pub fn is_empty(&self) -> (r: bool)
        ensures
            r == (self.target@.len() == 0 && self.args@.len() == 0),
    {
        self.target.as_str().is_empty() && self.args.as_str().is_empty()
    }
}

/// The commands around an apply.
#[derive(Debug, Clone, Default)]
pub struct Run {
    pub before: RunCommand,
    pub after: RunCommand,
}

impl Run {
    pub open spec fn spec_is_empty(&self) -> bool {
        &&& self.before.target@.len() == 0
        &&& self.before.args@.len() == 0
        &&& self.after.target@.len() == 0
        &&& self.after.args@.len() == 0
    }

    /// True when neither command is set.
    pub fn is_empty(&self) -> (r: bool)
        ensures
            r == self.spec_is_empty(),
    {
        self.before.is_empty() && self.after.is_empty()
    }
}

/// The metadata file of a profile: name, description, icon and run commands.
#[derive(Debug, Clone, Default)]
pub struct Config {
    pub name: String,
    pub description: String,
    pub run: Run,
    pub icon: String,
}

impl Config {
    /// True when every field is empty.
    pub fn is_empty(&self) -> (r: bool)
        ensures
            r == (self.name@.len() == 0 && self.description@.len() == 0
                && self.run.spec_is_empty() && self.icon@.len() == 0),
    {
        self.name.as_str().is_empty() && self.description.as_str().is_empty() && self.run.is_empty()
            && self.icon.as_str().is_empty()
    }
}

/// Application-wide settings, among them the policy of which optional
/// attributes a snapshot captures and an apply restores.
#[derive(Debug, Clone, Default)]
pub struct GlobalConfig {
    pub autostart: bool,
    pub theme: String,
    pub tray_icon: String,
    pub run_commands: bool,
    pub save_dpi_scale: bool,
    pub save_icon_size: bool,
    pub save_hdr_state: bool,
    pub save_sdr_white_level: bool,
    pub save_wallpaper_info: bool,
    pub save_audio_output: bool,
}

impl GlobalConfig {
    /// The settings of a fresh installation: no optional attribute is saved,
    /// run commands are enabled, theme "system", tray icon "womp".
    pub fn new() -> (r: Self)
        ensures
            !r.autostart,
            r.theme@ == "system"@,
            r.tray_icon@ == "womp"@,
            r.run_commands,
            !r.save_dpi_scale,
            !r.save_icon_size,
            !r.save_hdr_state,
            !r.save_sdr_white_level,
            !r.save_wallpaper_info,
            !r.save_audio_output,
    {
        GlobalConfig {
            autostart: false,
            theme: String::from_str("system"),
            tray_icon: String::from_str("womp"),
            run_commands: true,
            save_dpi_scale: false,
            save_icon_size: false,
            save_hdr_state: false,
            save_sdr_white_level: false,
            save_wallpaper_info: false,
            save_audio_output: false,
        }
    }
}

/// A profile as listed to the user: its directory name and its metadata, if
/// the metadata file could be read.
#[derive(Debug, Clone)]
pub struct Profile {
    pub name: String,
    pub config: Option<Config>,
}

} // verus!
