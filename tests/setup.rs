use bingwallpaper::arguments::{after_cycle, AfterCycle, BingWallpaperArguments, RunPlan};
use bingwallpaper::bingapiclient::{archive_uri, image_uri, BingAPIImagesArchive, BingAPIImagesArchiveImage, API_ENDPOINT};
use bingwallpaper::configuration::BingWallpaperConfiguration;

fn image(url: &str) -> BingAPIImagesArchiveImage {
    BingAPIImagesArchiveImage {
        url: url.to_string(),
        title: "T".to_string(),
        copyright: "C".to_string(),
        copyrightlink: "L".to_string(),
        startdate: "20240101".to_string(),
    }
}

fn arguments() -> BingWallpaperArguments {
    BingWallpaperArguments {
        config_file: None,
        init_config_file: None,
        download_only: false,
        must_loop: false,
        nowindow: false,
        show_version: false,
    }
}

#[test]
fn loop_mode_goes_on_after_a_failed_cycle() {
    let first = after_cycle(true, false, 5, Ok(()));
    assert_eq!(first, AfterCycle::Wait { seconds: 5, failure: None });
    let second = after_cycle(true, false, 5, Err("Can't fetch Bing API".to_string()));
    assert_eq!(
        second,
        AfterCycle::Wait {
            seconds: 5,
            failure: Some("Can't change wallpaper: Can't fetch Bing API".to_string())
        }
    );
}

#[test]
fn single_run_stops_or_fails() {
    assert_eq!(after_cycle(false, true, 900, Ok(())), AfterCycle::Stop);
    assert_eq!(
        after_cycle(false, true, 900, Err("e".to_string())),
        AfterCycle::Fail { message: "Can't download wallpaper: e".to_string() }
    );
}

#[test]
fn argument_plans() {
    let mut a = arguments();
    a.show_version = true;
    a.init_config_file = Some("/tmp/c.conf".to_string());
    assert_eq!(a.plan(), RunPlan::ShowVersion);
    let mut a = arguments();
    a.init_config_file = Some("/tmp/c.conf".to_string());
    assert_eq!(a.plan(), RunPlan::InitConfigFile { file_name: Some("/tmp/c.conf".to_string()) });
    let mut a = arguments();
    a.must_loop = true;
    a.config_file = Some("/tmp/c.conf".to_string());
    assert_eq!(
        a.plan(),
        RunPlan::Run { config_file: Some("/tmp/c.conf".to_string()), must_loop: true, download_only: false }
    );
}

#[test]
fn default_configuration() {
    let c = BingWallpaperConfiguration::default();
    assert_eq!(c.loop_interval_second, Some(900));
    assert_eq!(c.image_dimension_width, 1920);
    assert_eq!(c.image_dimension_height, 1080);
    assert_eq!(c.target_filename, "/tmp/bingwallpaper.jpg");
    assert_eq!(c.loop_interval(), 900);
    let mut c = c;
    c.loop_interval_second = None;
    assert_eq!(c.loop_interval(), 900);
    c.loop_interval_second = Some(5);
    assert_eq!(c.loop_interval(), 5);
}

#[test]
fn initial_configuration() {
    let c = BingWallpaperConfiguration::initial(2560, 1440, "/home/me", false);
    assert_eq!(c.image_dimension_width, 2560);
    assert_eq!(c.image_dimension_height, 1440);
    assert_eq!(c.target_filename, "/home/me/.bingwallpaper.png");
    let c = BingWallpaperConfiguration::initial(1, 1, "/Users/me", true);
    assert_eq!(c.target_filename, "/Users/me/Pictures/bing-wallpaper.png");
}

#[test]
fn configuration_file_resolution() {
    assert_eq!(BingWallpaperConfiguration::home_file_path("/home/me"), "/home/me/.bingwallpaper.conf");
    assert_eq!(
        BingWallpaperConfiguration::resolve_file_path(Some("/a.conf".into()), Some("/home/me/.bingwallpaper.conf".into())),
        "/a.conf"
    );
    assert_eq!(
        BingWallpaperConfiguration::resolve_file_path(None, Some("/home/me/.bingwallpaper.conf".into())),
        "/home/me/.bingwallpaper.conf"
    );
    assert_eq!(BingWallpaperConfiguration::resolve_file_path(None, None), "/etc/bingwallpaper.conf");
}

#[test]
fn service_addresses() {
    assert_eq!(
        archive_uri(API_ENDPOINT, 1_700_000_000_123, 1920, 1080),
        "https://www.bing.com/HPImageArchive.aspx?format=js&idx=0&n=1&nc=1700000000123&uhd=1&uhdwidth=1920&uhdheight=1080"
    );
    assert_eq!(image_uri(API_ENDPOINT, "/th?id=X"), "https://www.bing.com/th?id=X");
}

#[test]
fn first_image_of_the_archive_is_authoritative() {
    let archive = BingAPIImagesArchive { images: vec![image("/th?id=A"), image("/th?id=B")] };
    assert_eq!(archive.latest_image(), Ok(image("/th?id=A")));
    let empty = BingAPIImagesArchive { images: vec![] };
    assert!(empty.latest_image().is_err());
}
