//! The platform wallpaper applier: how a file becomes the desktop background
//! on each platform, given as the child processes and steps to perform.

use vstd::prelude::*;

use crate::configuration::BingWallpaperConfiguration;
use crate::text::{
    decimal, push_decimal, replace_all, replaced, same_text, split_words, texts, words,
};

verus! {

/// A child process to spawn and wait for: a program and its arguments.
#[derive(Debug, PartialEq, Eq)]
pub struct ProcessCommand {
    pub program: String,
    pub args: Vec<String>,
}

impl View for ProcessCommand {
    type V = (Seq<char>, Seq<Seq<char>>);

    open spec fn view(&self) -> (Seq<char>, Seq<Seq<char>>) {
        (self.program@, texts(self.args@))
    }
}

/// What a sequence of commands holds.
pub open spec fn command_views(v: Seq<ProcessCommand>) -> Seq<(Seq<char>, Seq<Seq<char>>)> {
    Seq::new(v.len(), |i: int| v[i]@)
}

/// The family of the host operating system.
#[derive(PartialEq, Eq, Structural, Clone, Copy, Debug)]
pub enum HostOs {
    /// Linux and the BSDs.
    Linux,
    MacOs,
    Windows,
    Other,
}

/// The way the wallpaper gets applied.
#[derive(PartialEq, Eq, Structural, Clone, Copy, Debug)]
pub enum Applier {
    /// The command configured by the user.
    ExternalCommand,
    /// The desktop settings of a Linux or BSD session.
    LinuxDesktop,
    MacOs,
    Windows,
    /// No way is known on this host.
    Unsupported,
}

/// Why a wallpaper cannot be applied.
#[derive(PartialEq, Eq, Structural, Clone, Copy, Debug)]
pub enum ApplyError {
    /// The configured command holds nothing but white space.
    BlankCommand,
    /// No desktop session is named in the environment.
    UnknownSession,
    /// The wallpaper path has no parent directory or no file name.
    UnusablePath,
    /// The host's operating system has no way to apply a wallpaper.
    UnsupportedOs,
}

/// The applier used on `os`: the configured command when there is one, else
/// the platform's own way.
pub open spec fn applier_for(has_command: bool, os: HostOs) -> Applier {
    if has_command {
        Applier::ExternalCommand
    } else {
        match os {
            HostOs::Linux => Applier::LinuxDesktop,
            HostOs::MacOs => Applier::MacOs,
            HostOs::Windows => Applier::Windows,
            HostOs::Other => Applier::Unsupported,
        }
    }
}

/// Returns the way to apply the wallpaper on `os` under `configuration`.
pub fn select_applier(configuration: &BingWallpaperConfiguration, os: HostOs) -> (r: Applier)
    ensures
        r == applier_for(configuration.exec_apply_wallpaper is Some, os),
{
    if configuration.exec_apply_wallpaper.is_some() {
        Applier::ExternalCommand
    } else {
        match os {
            HostOs::Linux => Applier::LinuxDesktop,
            HostOs::MacOs => Applier::MacOs,
            HostOs::Windows => Applier::Windows,
            HostOs::Other => Applier::Unsupported,
        }
    }
}

/// The message that describes `e`.
pub open spec fn apply_error_text(e: ApplyError) -> Seq<char> {
    match e {
        ApplyError::BlankCommand => "Can't change wallpaper: the command to apply it is blank"@,
        ApplyError::UnknownSession => "Can't change wallpaper: DESKTOP_SESSION is not set"@,
        ApplyError::UnusablePath =>
            "Can't change wallpaper: the wallpaper path has no directory or no file name"@,
        ApplyError::UnsupportedOs =>
            "Can't change wallpaper: this operating system is not handled"@,
    }
}

impl ApplyError {
    /// Returns the message that describes the error.
    pub fn message(&self) -> (r: String)
        ensures
            r@ == apply_error_text(*self),
    {
        match self {
            ApplyError::BlankCommand => String::from_str(
                "Can't change wallpaper: the command to apply it is blank",
            ),
            ApplyError::UnknownSession => String::from_str(
                "Can't change wallpaper: DESKTOP_SESSION is not set",
            ),
            ApplyError::UnusablePath => String::from_str(
                "Can't change wallpaper: the wallpaper path has no directory or no file name",
            ),
            ApplyError::UnsupportedOs => String::from_str(
                "Can't change wallpaper: this operating system is not handled",
            ),
        }
    }
}

/// The command template with its placeholders `{target_filename}`,
/// `{image_dimension_width}` and `{image_dimension_height}` substituted, in
/// that order.
pub open spec fn expanded_command(template: Seq<char>, target: Seq<char>, width: nat, height: nat) -> Seq<
    char,
> {
    replaced(
        replaced(
            replaced(template, "{target_filename}"@, target),
            "{image_dimension_width}"@,
            decimal(width),
        ),
        "{image_dimension_height}"@,
        decimal(height),
    )
}

/// Whether `s` is one character that UTF-8 writes in one byte.
pub open spec fn is_one_byte(s: Seq<char>) -> bool {
    s.len() == 1 && (s[0] as u32) < 0x80
}

/// What the configured command runs: nothing for an empty command; the whole
/// command as the program when it is one byte long; else its first word as
/// the program and the other words as arguments.
pub open spec fn command_for(expanded: Seq<char>) -> Result<
    Option<(Seq<char>, Seq<Seq<char>>)>,
    ApplyError,
> {
    if expanded.len() == 0 {
        Ok(None)
    } else if is_one_byte(expanded) {
        Ok(Some((expanded, seq![])))
    } else if words(expanded).len() == 0 {
        Err(ApplyError::BlankCommand)
    } else {
        Ok(Some((words(expanded)[0], words(expanded).drop_first())))
    }
}

/// Returns the command of `words`: the first word and the others.
fn command_of_words(words: Vec<String>) -> (r: ProcessCommand)
    requires
        words.len() > 0,
    ensures
        r@ == (texts(words@)[0], texts(words@).drop_first()),
{
    let mut args = words;
    let program = args.remove(0);
    assert(texts(args@) =~= texts(words@).drop_first());
    ProcessCommand { program, args }
}

/// Returns the command that the configured template `template` runs for the
/// wallpaper `target` of `width` by `height` pixels; `Ok(None)` when the
/// command is empty, which runs nothing.
pub fn exec_apply_wallpaper(template: &str, target: &str, width: u32, height: u32) -> (r: Result<
    Option<ProcessCommand>,
    ApplyError,
>)
    ensures
        match (r, command_for(expanded_command(template@, target@, width as nat, height as nat))) {
            (Ok(None), Ok(None)) => true,
            (Ok(Some(c)), Ok(Some(v))) => c@ == v,
            (Err(e), Err(f)) => e == f,
            _ => false,
        },
{
    let mut width_text = String::new();
    push_decimal(&mut width_text, width as u128);
    let mut height_text = String::new();
    push_decimal(&mut height_text, height as u128);
    proof {
        reveal_strlit("{target_filename}");
        reveal_strlit("{image_dimension_width}");
        reveal_strlit("{image_dimension_height}");
    }
    let cmd = replace_all(template, "{target_filename}", target);
    let cmd = replace_all(cmd.as_str(), "{image_dimension_width}", width_text.as_str());
    let cmd = replace_all(cmd.as_str(), "{image_dimension_height}", height_text.as_str());
    assert(width_text@ =~= decimal(width as nat));
    assert(height_text@ =~= decimal(height as nat));
    let n = cmd.as_str().unicode_len();
    if n == 0 {
        return Ok(None);
    }
    if n == 1 && (cmd.as_str().get_char(0) as u32) < 0x80 {
        let c = ProcessCommand { program: cmd, args: Vec::new() };
        assert(c@.1 =~= Seq::<Seq<char>>::empty());
        return Ok(Some(c));
    }
    let tokens = split_words(cmd.as_str());
    if tokens.len() == 0 {
        assert(texts(tokens@).len() == 0);
        Err(ApplyError::BlankCommand)
    } else {
        Ok(Some(command_of_words(tokens)))
    }
}

/// The `gsettings` call that sets `key` of `schema` to `value`.
pub open spec fn gsettings_set(schema: Seq<char>, key: Seq<char>, value: Seq<char>) -> (
    Seq<char>,
    Seq<Seq<char>>,
) {
    ("gsettings"@, seq!["set"@, schema, key, value])
}

/// The calls that set `target` as the background of the desktop session
/// `session`: the Cinnamon key for a Cinnamon session, else both the light and
/// the dark GNOME keys.
pub open spec fn linux_commands(session: Seq<char>, target: Seq<char>) -> Seq<
    (Seq<char>, Seq<Seq<char>>),
> {
    if session == "cinnamon"@ {
        seq![
            gsettings_set(
                "org.cinnamon.desktop.background"@,
                "picture-uri"@,
                "file://"@ + target,
            ),
        ]
    } else {
        seq![
            gsettings_set("org.gnome.desktop.background"@, "picture-uri"@, target),
            gsettings_set("org.gnome.desktop.background"@, "picture-uri-dark"@, target),
        ]
    }
}

/// Returns the `gsettings` call that sets `key` of `schema` to `value`.
fn gsettings_set_command(schema: &str, key: &str, value: String) -> (r: ProcessCommand)
    ensures
        r@ == gsettings_set(schema@, key@, value@),
{
    let mut args: Vec<String> = Vec::new();
    args.push(String::from_str("set"));
    args.push(String::from_str(schema));
    args.push(String::from_str(key));
    args.push(value);
    let r = ProcessCommand { program: String::from_str("gsettings"), args };
    assert(r@.1 =~= seq!["set"@, schema@, key@, value@]);
    r
}

/// Returns the calls, to run one after the other, that set `target` as the
/// background of the desktop session named `session` (the value of
/// `DESKTOP_SESSION`); an unnamed session is an error.
pub fn change_wallpaper_linux(session: Option<&str>, target: &str) -> (r: Result<
    Vec<ProcessCommand>,
    ApplyError,
>)
    ensures
        match session {
            None => r == Err::<Vec<ProcessCommand>, ApplyError>(ApplyError::UnknownSession),
            Some(s) => r is Ok && command_views(r->Ok_0@) == linux_commands(s@, target@),
        },
{
    let session = match session {
        None => {
            return Err(ApplyError::UnknownSession);
        },
        Some(s) => s,
    };
    let mut commands: Vec<ProcessCommand> = Vec::new();
    proof {
        reveal_strlit("cinnamon");
    }
    if same_text(session, "cinnamon") {
        let mut uri = String::from_str("file://");
        uri.append(target);
        commands.push(
            gsettings_set_command("org.cinnamon.desktop.background", "picture-uri", uri),
        );
    } else {
        commands.push(
            gsettings_set_command(
                "org.gnome.desktop.background",
                "picture-uri",
                String::from_str(target),
            ),
        );
        commands.push(
            gsettings_set_command(
                "org.gnome.desktop.background",
                "picture-uri-dark",
                String::from_str(target),
            ),
        );
    }
    assert(command_views(commands@) =~= linux_commands(session@, target@));
    Ok(commands)
}

/// The directory part of `path`, as `Path::parent` gives it.
pub uninterp spec fn parent_of(path: Seq<char>) -> Option<Seq<char>>;

/// The last component of `path`, as `Path::file_name` gives it.
pub uninterp spec fn file_name_of(path: Seq<char>) -> Option<Seq<char>>;

/// Relies on `std::path::Path::parent`: the path without its final component,
/// `None` for a path that ends in a root or is empty; a function of the text.
#[verifier::external_body]
fn path_parent(path: &str) -> (r: Option<String>)
    ensures
        match r {
            Some(p) => parent_of(path@) == Some(p@),
            None => parent_of(path@) is None,
        },
{
    match std::path::Path::new(path).parent() {
        Some(p) => Some(p.to_string_lossy().into_owned()),
        None => None,
    }
}

/// Relies on `std::path::Path::file_name`: the final component of the path,
/// `None` when the path ends in `..`; a function of the text.
#[verifier::external_body]
fn path_file_name(path: &str) -> (r: Option<String>)
    ensures
        match r {
            Some(n) => file_name_of(path@) == Some(n@),
            None => file_name_of(path@) is None,
        },
{
    match std::path::Path::new(path).file_name() {
        Some(n) => Some(n.to_string_lossy().into_owned()),
        None => None,
    }
}

/// Where the script that applies a wallpaper on macOS is written.
pub const SWIFT_SCRIPT_PATH: &'static str = "/tmp/bingwallpaper.swift";

/// The script that sets the image named by its argument on every screen.
pub const SWIFT_SCRIPT: &'static str = "import Cocoa\ndo {\n    for screen in NSScreen.screens {\n        let url = URL(fileURLWithPath: CommandLine.arguments[1])\n        try NSWorkspace.shared.setDesktopImageURL(url, for: screen, options: [:])\n    }\n} catch {\n    print(error)\n}\n";

/// How the wallpaper is applied on macOS. The desktop is not redrawn when the
/// same file name is applied again, so a copy under a new name is applied:
/// remove the files of `directory` whose path starts with `temp_prefix`,
/// copy the wallpaper to `temp_filename`, write `script` to `script_path`,
/// run `command` and wait for it, give the desktop a moment, and remove the
/// script.
#[derive(Debug, PartialEq, Eq)]
pub struct MacOsPlan {
    pub directory: String,
    pub script_path: String,
    pub script: String,
    pub temp_prefix: String,
    pub temp_filename: String,
    pub command: ProcessCommand,
}

/// The prefix of the hidden copies of the file `name` in directory `parent`.
pub open spec fn temp_prefix_of(parent: Seq<char>, name: Seq<char>) -> Seq<char> {
    parent + "/._"@ + name + "_"@
}

/// Whether `plan` applies the file `name` of directory `parent` on the day
/// `date_token`.
pub open spec fn is_macos_plan(
    plan: MacOsPlan,
    parent: Seq<char>,
    name: Seq<char>,
    date_token: Seq<char>,
) -> bool {
    let prefix = temp_prefix_of(parent, name);
    &&& plan.directory@ == parent
    &&& plan.script_path@ == SWIFT_SCRIPT_PATH@
    &&& plan.script@ == SWIFT_SCRIPT@
    &&& plan.temp_prefix@ == prefix
    &&& plan.temp_filename@ == prefix + date_token
    &&& plan.command@ == ("swift"@, seq![SWIFT_SCRIPT_PATH@, prefix + date_token])
}

/// Returns how to apply the file `name` of directory `parent` on macOS on
/// the day `date_token`.
pub fn macos_plan(parent: String, name: &str, date_token: &str) -> (r: MacOsPlan)
    ensures
        is_macos_plan(r, parent@, name@, date_token@),
{
    let mut prefix = parent.clone();
    prefix.append("/._");
    prefix.append(name);
    prefix.append("_");
    let mut temp_filename = prefix.clone();
    temp_filename.append(date_token);
    let mut args: Vec<String> = Vec::new();
    args.push(String::from_str(SWIFT_SCRIPT_PATH));
    args.push(temp_filename.clone());
    let command = ProcessCommand { program: String::from_str("swift"), args };
    assert(command@.1 =~= seq![SWIFT_SCRIPT_PATH@, temp_filename@]);
    MacOsPlan {
        directory: parent,
        script_path: String::from_str(SWIFT_SCRIPT_PATH),
        script: String::from_str(SWIFT_SCRIPT),
        temp_prefix: prefix,
        temp_filename,
        command,
    }
}

/// Returns how to apply `target` on macOS on the day `date_token`; a path
/// without a directory or a file name cannot be used.
pub fn change_wallpaper_macos(target: &str, date_token: &str) -> (r: Result<MacOsPlan, ApplyError>)
    ensures
        match (parent_of(target@), file_name_of(target@)) {
            (Some(parent), Some(name)) => r matches Ok(plan) && is_macos_plan(
                plan,
                parent,
                name,
                date_token@,
            ),
            _ => r == Err::<MacOsPlan, ApplyError>(ApplyError::UnusablePath),
        },
{
    let parent = match path_parent(target) {
        Some(p) => p,
        None => {
            return Err(ApplyError::UnusablePath);
        },
    };
    let name = match path_file_name(target) {
        Some(n) => n,
        None => {
            return Err(ApplyError::UnusablePath);
        },
    };
    Ok(macos_plan(parent, name.as_str(), date_token))
}

/// A Windows version: major, minor and build numbers.
#[derive(PartialEq, Eq, Structural, Clone, Copy, Debug)]
pub struct WindowsVersion {
    pub major: u32,
    pub minor: u32,
    pub build: u32,
}

/// Whether `v` is `major.minor.build` or later, compared number by number.
pub open spec fn version_at_least(v: WindowsVersion, major: u32, minor: u32, build: u32) -> bool {
    v.major > major || (v.major == major && (v.minor > minor || (v.minor == minor && v.build
        >= build)))
}

impl WindowsVersion {
    /// Tells whether this version sets a wallpaper per virtual desktop
    /// (10.0.22621 or later).
    pub fn supports_virtual_desktop_wallpaper(&self) -> (r: bool)
        ensures
            r == version_at_least(*self, 10, 0, 22621),
    {
        self.major > 10 || (self.major == 10 && (self.minor > 0 || (self.minor == 0 && self.build
            >= 22621)))
    }
}

/// A Windows interface that sets the wallpaper.
#[derive(PartialEq, Eq, Structural, Clone, Copy, Debug)]
pub enum WindowsApi {
    /// The wallpaper of every virtual desktop.
    VirtualDesktop,
    /// The system parameter of the legacy interface.
    Legacy,
}

/// The interfaces to try, in order, until one succeeds: the virtual desktops
/// first where the version supports them and more than one desktop exists,
/// the legacy interface in any case.
pub open spec fn windows_attempts(version: WindowsVersion, desktop_count: u32) -> Seq<WindowsApi> {
    if version_at_least(version, 10, 0, 22621) && desktop_count > 1 {
        seq![WindowsApi::VirtualDesktop, WindowsApi::Legacy]
    } else {
        seq![WindowsApi::Legacy]
    }
}

/// Returns the interfaces to try, in order, until one succeeds, on `version`
/// with `desktop_count` virtual desktops.
pub fn change_wallpaper_windows(version: WindowsVersion, desktop_count: u32) -> (r: Vec<WindowsApi>)
    ensures
        r@ == windows_attempts(version, desktop_count),
{
    let mut attempts: Vec<WindowsApi> = Vec::new();
    if version.supports_virtual_desktop_wallpaper() && desktop_count > 1 {
        attempts.push(WindowsApi::VirtualDesktop);
    }
    attempts.push(WindowsApi::Legacy);
    assert(attempts@ =~= windows_attempts(version, desktop_count));
    attempts
}

} // verus!
