use wally::service::{
    api_error_message, fetch_random_image_plan, should_track_download, wallpaper_filename,
};
use wally::settings::WallpaperSettings;

fn settings(api_key: &str, collection_id: &str) -> WallpaperSettings {
    WallpaperSettings {
        api_key: api_key.to_string(),
        collection_id: collection_id.to_string(),
        interval_value: 3,
        interval_unit: "hours".to_string(),
        auto_change: false,
    }
}

#[test]
fn missing_credential_is_rejected() {
    let r = fetch_random_image_plan(&settings("", "880012"));
    assert_eq!(r.err(), Some("API key not configured".to_string()));
}

#[test]
fn request_with_collection_filter() {
    let r = fetch_random_image_plan(&settings("secret", "880012")).unwrap();
    assert_eq!(
        r.url,
        "https://api.unsplash.com/photos/random?orientation=landscape&collections=880012"
    );
    assert_eq!(r.auth_header, "Client-ID secret");
}

#[test]
fn request_without_collection_filter() {
    let r = fetch_random_image_plan(&settings("secret", "")).unwrap();
    assert_eq!(
        r.url,
        "https://api.unsplash.com/photos/random?orientation=landscape"
    );
}

#[test]
fn api_error_text() {
    assert_eq!(
        api_error_message("403 Forbidden", "rate limited"),
        "API error: 403 Forbidden - rate limited"
    );
}

#[test]
fn download_file_name() {
    assert_eq!(wallpaper_filename("AbC-123"), "wallpaper_AbC-123.jpg");
    assert_eq!(wallpaper_filename(""), "wallpaper_.jpg");
}

#[test]
fn download_tracking_needs_a_credential() {
    assert!(should_track_download(&settings("secret", "")));
    assert!(!should_track_download(&settings("", "880012")));
}
