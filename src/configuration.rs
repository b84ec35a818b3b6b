//! The configuration value object: what to fetch, where to keep it, how to
//! stamp it and how to apply it.

use vstd::prelude::*;

verus! {

/// Interval between two cycles in loop mode, in seconds, when none is set.
pub const DEFAULT_LOOP_INTERVAL_SECOND: u64 = 900;

/// Bing wallpaper application configuration.
#[derive(Debug, PartialEq, Eq)]
pub struct BingWallpaperConfiguration {
    /// Seconds to wait between two cycles in loop mode.
    pub loop_interval_second: Option<u64>,
    /// Requested image width, in pixels.
    pub image_dimension_width: u32,
    /// Requested image height, in pixels.
    pub image_dimension_height: u32,
    /// Where the wallpaper image is kept.
    pub target_filename: String,
    /// Corner where the description is stamped (`TOP_LEFT`, `TOP_RIGHT`,
    /// `BOTTOM_LEFT` or `BOTTOM_RIGHT`); no stamp when absent.
    pub text_overlay_position: Option<String>,
    /// Horizontal shift of the stamp, in pixels.
    pub text_overlay_position_offset_x: Option<u32>,
    /// Vertical shift of the stamp, in pixels.
    pub text_overlay_position_offset_y: Option<u32>,
    /// Command that applies the wallpaper in place of the platform's own way.
    pub exec_apply_wallpaper: Option<String>,
    /// Proxy through which the service is reached.
    pub proxy_url: Option<String>,
}

impl Default for BingWallpaperConfiguration {
    fn default() -> (r: Self)
        ensures
            r.loop_interval_second == Some(DEFAULT_LOOP_INTERVAL_SECOND),
            r.image_dimension_width == 1920,
            r.image_dimension_height == 1080,
            r.target_filename@ == "/tmp/bingwallpaper.jpg"@,
            r.text_overlay_position is None,
            r.text_overlay_position_offset_x is None,
            r.text_overlay_position_offset_y is None,
            r.exec_apply_wallpaper is None,
            r.proxy_url is None,
    {
        BingWallpaperConfiguration {
            loop_interval_second: Some(DEFAULT_LOOP_INTERVAL_SECOND),
            image_dimension_width: 1920,
            image_dimension_height: 1080,
            target_filename: String::from_str("/tmp/bingwallpaper.jpg"),
            text_overlay_position: None,
            text_overlay_position_offset_x: None,
            text_overlay_position_offset_y: None,
            exec_apply_wallpaper: None,
            proxy_url: None,
        }
    }
}

/// Where a new configuration places the wallpaper, under the home directory.
pub open spec fn initial_target(home: Seq<char>, macos: bool) -> Seq<char> {
    if macos {
        home + "/Pictures/bing-wallpaper.png"@
    } else {
        home + "/.bingwallpaper.png"@
    }
}

impl BingWallpaperConfiguration {
    /// Returns the configuration that a new configuration file holds: the
    /// defaults, with the monitor's dimensions and a wallpaper kept under the
    /// home directory `home`.
    pub fn initial(width: u32, height: u32, home: &str, macos: bool) -> (r: Self)
        ensures
            r.loop_interval_second == Some(DEFAULT_LOOP_INTERVAL_SECOND),
            r.image_dimension_width == width,
            r.image_dimension_height == height,
            r.target_filename@ == initial_target(home@, macos),
            r.text_overlay_position is None,
            r.text_overlay_position_offset_x is None,
            r.text_overlay_position_offset_y is None,
            r.exec_apply_wallpaper is None,
            r.proxy_url is None,
    {
        let mut target = String::from_str(home);
        if macos {
            target.append("/Pictures/bing-wallpaper.png");
        } else {
            target.append("/.bingwallpaper.png");
        }
        let mut config = BingWallpaperConfiguration::default();
        config.image_dimension_width = width;
        config.image_dimension_height = height;
        config.target_filename = target;
        config
    }

    /// Returns the number of seconds between two cycles in loop mode.
    pub fn loop_interval(&self) -> (r: u64)
        ensures
            r == match self.loop_interval_second {
                Some(s) => s,
                None => DEFAULT_LOOP_INTERVAL_SECOND,
            },
    {
        match self.loop_interval_second {
            Some(s) => s,
            None => DEFAULT_LOOP_INTERVAL_SECOND,
        }
    }

    /// Returns the per-user configuration file under the home directory `home`.
    pub fn home_file_path(home: &str) -> (r: String)
        ensures
            r@ == home@ + "/.bingwallpaper.conf"@,
    {
        let mut path = String::from_str(home);
        path.append("/.bingwallpaper.conf");
        path
    }

    /// Resolves the configuration file to use: the one named, else the
    /// per-user file `existing_home_file` when it exists, else the system-wide
    /// `/etc/bingwallpaper.conf`.
    pub fn resolve_file_path(file_name: Option<String>, existing_home_file: Option<String>) -> (r:
        String)
        ensures
            r@ == match (file_name, existing_home_file) {
                (Some(f), _) => f@,
                (None, Some(h)) => h@,
                (None, None) => "/etc/bingwallpaper.conf"@,
            },
    {
        match file_name {
            Some(value) => value,
            None => match existing_home_file {
                Some(home_file) => home_file,
                None => String::from_str("/etc/bingwallpaper.conf"),
            },
        }
    }
}

} // verus!
