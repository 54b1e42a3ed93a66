use wally::images::{CurrentWallpaper, make_current, make_current_now, UnsplashImage, UnsplashLinks, UnsplashUser, UnsplashUrls};
use wally::watcher::{watcher_tick, WatcherAction};

fn image(id: &str) -> UnsplashImage {
    UnsplashImage {
        id: id.to_string(),
        description: None,
        alt_description: Some("alt".to_string()),
        urls: UnsplashUrls {
            raw: "r".to_string(),
            full: "f".to_string(),
            regular: "g".to_string(),
            small: "s".to_string(),
            thumb: "t".to_string(),
        },
        user: UnsplashUser { name: "n".to_string(), username: "u".to_string() },
        links: UnsplashLinks {
            html: "h".to_string(),
            download: "d".to_string(),
            download_location: "dl".to_string(),
        },
    }
}

fn desired(path: &str) -> CurrentWallpaper {
    make_current(image("i1"), path.to_string(), "2024-01-01T00:00:00Z".to_string())
}

#[test]
fn skips_when_no_wallpaper_recorded() {
    let d = CurrentWallpaper::default();
    assert_eq!(watcher_tick(&d, true, Some("/a.jpg")), WatcherAction::Skip);
}

#[test]
fn never_applies_a_missing_file() {
    // The desired file is gone from disk: the tick is skipped silently,
    // and nothing is attempted against the operating system, even when
    // the observation differs.
    let d = desired("/pics/wallpaper_1.jpg");
    assert_eq!(watcher_tick(&d, false, Some("/other.jpg")), WatcherAction::Skip);
    assert_eq!(watcher_tick(&d, false, None), WatcherAction::Skip);
}

#[test]
fn skips_when_observation_fails() {
    let d = desired("/pics/wallpaper_1.jpg");
    assert_eq!(watcher_tick(&d, true, None), WatcherAction::Skip);
}

#[test]
fn skips_when_already_in_sync() {
    let d = desired("/pics/wallpaper_1.jpg");
    assert_eq!(
        watcher_tick(&d, true, Some("/pics/wallpaper_1.jpg")),
        WatcherAction::Skip
    );
}

#[test]
fn reapplies_on_mismatch() {
    let d = desired("/pics/wallpaper_1.jpg");
    assert_eq!(
        watcher_tick(&d, true, Some("/pics/wallpaper_0.jpg")),
        WatcherAction::Reapply
    );
}

#[test]
fn current_record_is_fully_populated() {
    let c = make_current(image("abc"), "/p.jpg".to_string(), "now".to_string());
    assert_eq!(c.image.as_ref().unwrap().id, "abc");
    assert_eq!(c.local_path.as_deref(), Some("/p.jpg"));
    assert_eq!(c.set_at.as_deref(), Some("now"));

    let c2 = make_current_now(image("xyz"), "/q.jpg".to_string());
    assert_eq!(c2.image.as_ref().unwrap().id, "xyz");
    assert_eq!(c2.local_path.as_deref(), Some("/q.jpg"));
    assert!(c2.set_at.is_some());
}
