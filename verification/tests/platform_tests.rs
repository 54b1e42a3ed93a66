use wally::platform::{
    get_platform, is_gnome, is_kde, next_mechanism, set_wallpaper_gnome, set_wallpaper_kde,
    set_wallpaper_linux, set_wallpaper_macos, set_wallpaper_platform, set_wallpaper_windows,
    CmdOutcome, Mechanism, OsKind,
};

fn ok() -> CmdOutcome {
    CmdOutcome { launched: true, success: true, detail: String::new() }
}

fn fail(detail: &str) -> CmdOutcome {
    CmdOutcome { launched: true, success: false, detail: detail.to_string() }
}

fn not_found(detail: &str) -> CmdOutcome {
    CmdOutcome { launched: false, success: false, detail: detail.to_string() }
}

#[test]
fn macos_primary_succeeds() {
    let r = set_wallpaper_macos(&vec![ok()]);
    assert_eq!(r.attempted, vec![Mechanism::OsaDesktopImage]);
    assert!(r.result.is_ok());
}

#[test]
fn macos_falls_back_then_succeeds() {
    let r = set_wallpaper_macos(&vec![fail("no permission"), ok()]);
    assert_eq!(
        r.attempted,
        vec![Mechanism::OsaDesktopImage, Mechanism::OsaSystemEvents]
    );
    assert!(r.result.is_ok());
}

#[test]
fn macos_falls_back_to_database_rewrite() {
    let r = set_wallpaper_macos(&vec![fail("first"), fail("second"), ok()]);
    assert_eq!(
        r.attempted,
        vec![
            Mechanism::OsaDesktopImage,
            Mechanism::OsaSystemEvents,
            Mechanism::MacDbRewrite
        ]
    );
    assert!(r.result.is_ok());
}

#[test]
fn macos_retries_session_script_as_last_resort() {
    let r = set_wallpaper_macos(&vec![fail("first"), fail("second"), fail("db"), ok()]);
    assert_eq!(
        r.attempted,
        vec![
            Mechanism::OsaDesktopImage,
            Mechanism::OsaSystemEvents,
            Mechanism::MacDbRewrite,
            Mechanism::OsaSystemEvents
        ]
    );
    assert!(r.result.is_ok());
}

#[test]
fn macos_exhausts_chain_before_failing() {
    let r = set_wallpaper_macos(&vec![fail("first"), fail("second"), fail("db"), fail("last")]);
    assert_eq!(
        r.attempted,
        vec![
            Mechanism::OsaDesktopImage,
            Mechanism::OsaSystemEvents,
            Mechanism::MacDbRewrite,
            Mechanism::OsaSystemEvents
        ]
    );
    assert_eq!(r.result, Err("All methods failed: last".to_string()));
}

#[test]
fn macos_launch_error_is_surfaced() {
    let r = set_wallpaper_macos(&vec![not_found("no such file")]);
    assert_eq!(r.attempted, vec![Mechanism::OsaDesktopImage]);
    assert_eq!(r.result, Err("AppleScript failed: no such file".to_string()));
}

#[test]
fn kde_first_binary_succeeds() {
    let r = set_wallpaper_kde(&vec![ok()]);
    assert_eq!(r.attempted, vec![Mechanism::KdeQdbus6]);
    assert!(r.result.is_ok());
}

#[test]
fn kde_falls_back_to_older_binary() {
    let r = set_wallpaper_kde(&vec![not_found("qdbus6 missing"), ok()]);
    assert_eq!(r.attempted, vec![Mechanism::KdeQdbus6, Mechanism::KdeQdbus]);
    assert!(r.result.is_ok());
}

#[test]
fn kde_falls_back_to_apply_tool() {
    let r = set_wallpaper_kde(&vec![fail("script rejected"), not_found("gone"), ok()]);
    assert_eq!(
        r.attempted,
        vec![
            Mechanism::KdeQdbus6,
            Mechanism::KdeQdbus,
            Mechanism::KdePlasmaApplyTool
        ]
    );
    assert!(r.result.is_ok());
}

#[test]
fn kde_exhausts_all_three_before_failing() {
    let r = set_wallpaper_kde(&vec![fail("a"), fail("b"), fail("c")]);
    assert_eq!(
        r.attempted,
        vec![
            Mechanism::KdeQdbus6,
            Mechanism::KdeQdbus,
            Mechanism::KdePlasmaApplyTool
        ]
    );
    assert_eq!(
        r.result,
        Err("Failed to set KDE wallpaper. Last error: plasma-apply-wallpaperimage failed: c"
            .to_string())
    );
}

#[test]
fn kde_last_error_wording_for_missing_tool() {
    let r = set_wallpaper_kde(&vec![fail("a"), fail("b"), not_found("not installed")]);
    assert_eq!(
        r.result,
        Err(
            "Failed to set KDE wallpaper. Last error: plasma-apply-wallpaperimage error: not installed"
                .to_string()
        )
    );
}

#[test]
fn gnome_sets_dark_variant_best_effort() {
    // The dark-variant key is attempted after success, and its failure
    // does not change the result.
    let r = set_wallpaper_gnome(&vec![ok(), fail("dark key rejected")]);
    assert_eq!(
        r.attempted,
        vec![Mechanism::GnomePictureUri, Mechanism::GnomePictureUriDark]
    );
    assert!(r.result.is_ok());
}

#[test]
fn gnome_primary_failure_is_an_error_without_dark_attempt() {
    let r = set_wallpaper_gnome(&vec![fail("denied")]);
    assert_eq!(r.attempted, vec![Mechanism::GnomePictureUri]);
    assert_eq!(r.result, Err("Failed to set GNOME wallpaper: denied".to_string()));
}

#[test]
fn gnome_launch_error_is_plain() {
    let r = set_wallpaper_gnome(&vec![not_found("gsettings missing")]);
    assert_eq!(r.result, Err("gsettings missing".to_string()));
}

#[test]
fn windows_full_sequence_succeeds() {
    let r = set_wallpaper_windows(&vec![ok(), ok(), ok()]);
    assert_eq!(
        r.attempted,
        vec![
            Mechanism::WinComCreate,
            Mechanism::WinComSetPosition,
            Mechanism::WinComSetWallpaper
        ]
    );
    assert!(r.result.is_ok());
}

#[test]
fn windows_stops_at_first_failing_step() {
    let r = set_wallpaper_windows(&vec![ok(), fail("bad mode")]);
    assert_eq!(
        r.attempted,
        vec![Mechanism::WinComCreate, Mechanism::WinComSetPosition]
    );
    assert_eq!(r.result, Err("Failed to set wallpaper position: bad mode".to_string()));
}

#[test]
fn windows_create_failure() {
    let r = set_wallpaper_windows(&vec![fail("denied")]);
    assert_eq!(r.attempted, vec![Mechanism::WinComCreate]);
    assert_eq!(r.result, Err("Failed to create IDesktopWallpaper: denied".to_string()));
}

#[test]
fn linux_missing_file_is_not_attempted() {
    let r = set_wallpaper_linux(true, false, "/tmp/x.jpg", false, &vec![]);
    assert!(r.attempted.is_empty());
    assert_eq!(
        r.result,
        Err("Wallpaper file does not exist: /tmp/x.jpg".to_string())
    );
}

#[test]
fn linux_unrecognized_environment() {
    let r = set_wallpaper_linux(false, false, "/tmp/x.jpg", true, &vec![]);
    assert!(r.attempted.is_empty());
    assert_eq!(
        r.result,
        Err("Unsupported Linux desktop environment. Currently supports KDE Plasma and GNOME."
            .to_string())
    );
}

#[test]
fn platform_dispatch_and_unsupported() {
    let r = set_wallpaper_platform(OsKind::Other, false, false, "/p.jpg", true, &vec![]);
    assert!(r.attempted.is_empty());
    assert_eq!(r.result, Err("Unsupported platform".to_string()));

    let r = set_wallpaper_platform(OsKind::Windows, false, false, "/p.jpg", false, &vec![]);
    assert_eq!(r.result, Err("Wallpaper file does not exist: /p.jpg".to_string()));

    let r = set_wallpaper_platform(OsKind::MacOs, false, false, "/p.jpg", true, &vec![ok()]);
    assert!(r.result.is_ok());

    let r = set_wallpaper_platform(OsKind::Linux, false, true, "/p.jpg", true, &vec![ok(), ok()]);
    assert!(r.result.is_ok());
}

#[test]
fn next_mechanism_drives_the_kde_chain_in_order() {
    let script = vec![fail("a"), not_found("b"), ok()];
    let mut outcomes: Vec<CmdOutcome> = Vec::new();
    let mut asked: Vec<Mechanism> = Vec::new();
    while let Some(m) = next_mechanism(OsKind::Linux, true, false, true, &outcomes) {
        asked.push(m);
        outcomes.push(CmdOutcome {
            launched: script[outcomes.len()].launched,
            success: script[outcomes.len()].success,
            detail: script[outcomes.len()].detail.clone(),
        });
    }
    assert_eq!(
        asked,
        vec![
            Mechanism::KdeQdbus6,
            Mechanism::KdeQdbus,
            Mechanism::KdePlasmaApplyTool
        ]
    );
    let r = set_wallpaper_platform(OsKind::Linux, true, false, "/p.jpg", true, &outcomes);
    assert_eq!(r.attempted, asked);
    assert!(r.result.is_ok());
}

#[test]
fn environment_classification() {
    assert!(is_kde(true, None));
    assert!(is_kde(false, Some("KDE")));
    assert!(is_kde(false, Some("plasma-kde-wayland")));
    assert!(!is_kde(false, Some("GNOME")));
    assert!(!is_kde(false, None));

    assert!(is_gnome(true, None));
    assert!(is_gnome(false, Some("ubuntu:GNOME")));
    assert!(is_gnome(false, Some("gnome")));
    assert!(!is_gnome(false, Some("kde")));
    assert!(!is_gnome(false, None));
}

#[test]
fn platform_labels() {
    assert_eq!(get_platform(OsKind::MacOs, false, false), "macos");
    assert_eq!(get_platform(OsKind::Linux, true, false), "linux-kde");
    assert_eq!(get_platform(OsKind::Linux, false, true), "linux-gnome");
    assert_eq!(get_platform(OsKind::Linux, false, false), "linux");
    assert_eq!(get_platform(OsKind::Windows, false, false), "windows");
    assert_eq!(get_platform(OsKind::Other, false, false), "unknown");
}
