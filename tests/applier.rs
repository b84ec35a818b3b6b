use bingwallpaper::configuration::BingWallpaperConfiguration;
use bingwallpaper::wallpaper_changer::{
    change_wallpaper_linux, change_wallpaper_macos, change_wallpaper_windows,
    exec_apply_wallpaper, macos_plan, select_applier, Applier, ApplyError, HostOs, ProcessCommand,
    WindowsApi, WindowsVersion, SWIFT_SCRIPT, SWIFT_SCRIPT_PATH,
};

fn command(program: &str, args: &[&str]) -> ProcessCommand {
    ProcessCommand {
        program: program.to_string(),
        args: args.iter().map(|a| a.to_string()).collect(),
    }
}

#[test]
fn external_command_template_is_substituted_and_split() {
    let r = exec_apply_wallpaper("/usr/bin/feh --bg-fill {target_filename}", "/tmp/w.jpg", 1920, 1080);
    assert_eq!(r, Ok(Some(command("/usr/bin/feh", &["--bg-fill", "/tmp/w.jpg"]))));
}

#[test]
fn external_command_dimensions_are_substituted() {
    let r = exec_apply_wallpaper(
        "setbg  -s {image_dimension_width}x{image_dimension_height}\t{target_filename}",
        "/home/me/w.png",
        2560,
        1440,
    );
    assert_eq!(r, Ok(Some(command("setbg", &["-s", "2560x1440", "/home/me/w.png"]))));
}

#[test]
fn external_command_edge_cases() {
    assert_eq!(exec_apply_wallpaper("", "/tmp/w.jpg", 1, 1), Ok(None));
    assert_eq!(exec_apply_wallpaper("x", "/tmp/w.jpg", 1, 1), Ok(Some(command("x", &[]))));
    assert_eq!(exec_apply_wallpaper(" ", "/tmp/w.jpg", 1, 1), Ok(Some(command(" ", &[]))));
    assert_eq!(exec_apply_wallpaper("   ", "/tmp/w.jpg", 1, 1), Err(ApplyError::BlankCommand));
    // the template is only the placeholder, and the target is empty
    assert_eq!(exec_apply_wallpaper("{target_filename}", "", 1, 1), Ok(None));
}

#[test]
fn applier_selection() {
    let mut config = BingWallpaperConfiguration::default();
    assert_eq!(select_applier(&config, HostOs::Linux), Applier::LinuxDesktop);
    assert_eq!(select_applier(&config, HostOs::MacOs), Applier::MacOs);
    assert_eq!(select_applier(&config, HostOs::Windows), Applier::Windows);
    assert_eq!(select_applier(&config, HostOs::Other), Applier::Unsupported);
    config.exec_apply_wallpaper = Some("feh {target_filename}".to_string());
    assert_eq!(select_applier(&config, HostOs::Windows), Applier::ExternalCommand);
    assert_eq!(select_applier(&config, HostOs::Other), Applier::ExternalCommand);
}

#[test]
fn linux_cinnamon_session() {
    let r = change_wallpaper_linux(Some("cinnamon"), "/tmp/w.jpg");
    assert_eq!(
        r,
        Ok(vec![command(
            "gsettings",
            &["set", "org.cinnamon.desktop.background", "picture-uri", "file:///tmp/w.jpg"]
        )])
    );
}

#[test]
fn linux_gnome_sets_light_and_dark_keys() {
    let r = change_wallpaper_linux(Some("ubuntu"), "/tmp/w.jpg");
    assert_eq!(
        r,
        Ok(vec![
            command("gsettings", &["set", "org.gnome.desktop.background", "picture-uri", "/tmp/w.jpg"]),
            command(
                "gsettings",
                &["set", "org.gnome.desktop.background", "picture-uri-dark", "/tmp/w.jpg"]
            ),
        ])
    );
}

#[test]
fn linux_without_session_is_an_error() {
    assert_eq!(change_wallpaper_linux(None, "/tmp/w.jpg"), Err(ApplyError::UnknownSession));
    assert!(!ApplyError::UnknownSession.message().is_empty());
}

#[test]
fn macos_applies_a_dated_hidden_copy() {
    let plan = change_wallpaper_macos("/tmp/w.jpg", "20240101").unwrap();
    assert_eq!(plan.script_path, SWIFT_SCRIPT_PATH);
    assert_eq!(plan.script, SWIFT_SCRIPT);
    assert_eq!(plan.temp_prefix, "/tmp/._w.jpg_");
    assert_eq!(plan.temp_filename, "/tmp/._w.jpg_20240101");
    assert_eq!(plan.command, command("swift", &["/tmp/bingwallpaper.swift", "/tmp/._w.jpg_20240101"]));
}

#[test]
fn macos_relative_and_unusable_paths() {
    let plan = change_wallpaper_macos("w.jpg", "20240101").unwrap();
    assert_eq!(plan.temp_prefix, "/._w.jpg_");
    assert_eq!(change_wallpaper_macos("/", "20240101"), Err(ApplyError::UnusablePath));
    assert_eq!(change_wallpaper_macos("/tmp/..", "20240101"), Err(ApplyError::UnusablePath));
}

#[test]
fn windows_tries_virtual_desktops_first_where_supported() {
    let new = WindowsVersion { major: 10, minor: 0, build: 22621 };
    let old = WindowsVersion { major: 10, minor: 0, build: 19045 };
    let later = WindowsVersion { major: 11, minor: 0, build: 0 };
    assert!(new.supports_virtual_desktop_wallpaper());
    assert!(!old.supports_virtual_desktop_wallpaper());
    assert_eq!(change_wallpaper_windows(new, 2), vec![WindowsApi::VirtualDesktop, WindowsApi::Legacy]);
    assert_eq!(change_wallpaper_windows(new, 1), vec![WindowsApi::Legacy]);
    assert_eq!(change_wallpaper_windows(old, 4), vec![WindowsApi::Legacy]);
    assert_eq!(change_wallpaper_windows(later, 3), vec![WindowsApi::VirtualDesktop, WindowsApi::Legacy]);
}

#[test]
fn macos_plan_from_directory_and_name() {
    let plan = macos_plan("/Users/me/Pictures".to_string(), "bing.png", "20240229");
    assert_eq!(plan.directory, "/Users/me/Pictures");
    assert_eq!(plan.temp_prefix, "/Users/me/Pictures/._bing.png_");
    assert_eq!(plan.temp_filename, "/Users/me/Pictures/._bing.png_20240229");
    assert_eq!(
        plan.command,
        command("swift", &["/tmp/bingwallpaper.swift", "/Users/me/Pictures/._bing.png_20240229"])
    );
}

#[test]
fn error_messages() {
    assert_eq!(
        ApplyError::BlankCommand.message(),
        "Can't change wallpaper: the command to apply it is blank"
    );
    assert_eq!(
        ApplyError::UnsupportedOs.message(),
        "Can't change wallpaper: this operating system is not handled"
    );
}
