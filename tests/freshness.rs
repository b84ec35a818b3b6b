use bingwallpaper::freshness::{
    date_token_of, format_date_token, get_date_current_wallpaper, get_date_system, no_date_token,
};

#[test]
fn absent_wallpaper_gives_zero_token() {
    assert_eq!(get_date_current_wallpaper(None), "00000000");
    assert_eq!(no_date_token(), "00000000");
}

#[test]
fn modification_time_gives_its_utc_date() {
    // 2024-01-01T00:00:00Z
    assert_eq!(get_date_current_wallpaper(Some(1_704_067_200)), "20240101");
    // one second earlier
    assert_eq!(get_date_current_wallpaper(Some(1_704_067_199)), "20231231");
    assert_eq!(get_date_current_wallpaper(Some(0)), "19700101");
    assert_eq!(get_date_current_wallpaper(Some(-1)), "19691231");
    // 2000-02-29T12:00:00Z
    assert_eq!(get_date_current_wallpaper(Some(951_825_600)), "20000229");
}

#[test]
fn unplaceable_modification_time_gives_zero_token() {
    assert_eq!(date_token_of(i64::MAX), None);
    assert_eq!(get_date_current_wallpaper(Some(i64::MAX)), "00000000");
    assert_eq!(get_date_current_wallpaper(Some(i64::MIN)), "00000000");
}

#[test]
fn system_date_is_a_utc_token() {
    assert_eq!(get_date_system(1_704_067_200), Some("20240101".to_string()));
    assert_eq!(get_date_system(86_399), Some("19700101".to_string()));
    assert_eq!(get_date_system(86_400), Some("19700102".to_string()));
}

#[test]
fn years_are_written_as_percent_y_writes_them() {
    assert_eq!(format_date_token(2024, 1, 1), "20240101");
    assert_eq!(format_date_token(5, 3, 4), "00050304");
    assert_eq!(format_date_token(0, 12, 31), "00001231");
    assert_eq!(format_date_token(9999, 12, 31), "99991231");
    assert_eq!(format_date_token(10000, 1, 1), "+100000101");
    assert_eq!(format_date_token(-1, 1, 1), "-00010101");
    assert_eq!(format_date_token(-12345, 6, 7), "-123450607");
}
