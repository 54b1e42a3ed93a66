use vstd::prelude::*;
use vstd::string::*;
use crate::text::{contains_ci, str_contains_ci};

verus! {

/// The operating-system family the process runs on, as the caller
/// determined it at build time.
#[derive(PartialEq, Eq, Structural, Clone, Copy, Debug)]
pub enum OsKind {
    MacOs,
    Linux,
    Windows,
    Other,
}

/// One concrete way of asking the operating system to change the
/// desktop background. The setter tries these in a fixed per-platform
/// order.
#[derive(PartialEq, Eq, Structural, Clone, Copy, Debug)]
pub enum Mechanism {
    /// AppleScript driving the desktop-image API for every screen.
    OsaDesktopImage,
    /// AppleScript asking the session manager to set every desktop's picture.
    OsaSystemEvents,
    /// Rewriting the desktop-picture database directly and restarting
    /// the desktop shell, for older releases of the desktop-image
    /// platform.
    MacDbRewrite,
    /// Plasma shell scripting over the newer message-bus binary.
    KdeQdbus6,
    /// Plasma shell scripting over the older message-bus binary.
    KdeQdbus,
    /// The single-purpose Plasma wallpaper tool.
    KdePlasmaApplyTool,
    /// The configuration-store key for the background picture.
    GnomePictureUri,
    /// The parallel dark-variant key; failures here are cosmetic.
    GnomePictureUriDark,
    /// Creating the desktop-wallpaper control object.
    WinComCreate,
    /// Setting the wallpaper fill mode on the control object.
    WinComSetPosition,
    /// Setting the wallpaper path on the control object.
    WinComSetWallpaper,
}

/// What happened when one mechanism was tried: whether the command or
/// API call could be made at all, whether it reported success, and its
/// diagnostic text (the launch error when it could not be made, its
/// error output when it ran).
pub struct CmdOutcome {
    pub launched: bool,
    pub success: bool,
    pub detail: String,
}

impl Clone for CmdOutcome {
    fn clone(&self) -> (r: Self)
        ensures
            r.launched == self.launched,
            r.success == self.success,
            r.detail@ == self.detail@,
    {
        CmdOutcome { launched: self.launched, success: self.success, detail: self.detail.clone() }
    }
}

/// A mechanism worked: it could be invoked and reported success.
pub open spec fn mech_ok(o: CmdOutcome) -> bool {
    o.launched && o.success
}

/// Whether the desktop-environment indicators point at KDE Plasma: the
/// full-session flag is set, or the current-desktop string mentions
/// the environment, compared ASCII-case-insensitively.
pub open spec fn is_kde_spec(kde_full_session: bool, xdg_current_desktop: Option<&str>) -> bool {
    kde_full_session || match xdg_current_desktop {
        Some(d) => contains_ci(d@, "kde"@),
        None => false,
    }
}

/// Whether the desktop-environment indicators point at GNOME.
pub open spec fn is_gnome_spec(gnome_session: bool, xdg_current_desktop: Option<&str>) -> bool {
    gnome_session || match xdg_current_desktop {
        Some(d) => contains_ci(d@, "gnome"@),
        None => false,
    }
}

/// Classifies the session as KDE Plasma from the environment
/// indicators the caller read: the full-session flag and the
/// current-desktop string.
pub fn is_kde(kde_full_session: bool, xdg_current_desktop: Option<&str>) -> (r: bool)
    ensures
        r == is_kde_spec(kde_full_session, xdg_current_desktop),
{
    if kde_full_session {
        return true;
    }
    match xdg_current_desktop {
        Some(d) => str_contains_ci(d, "kde"),
        None => false,
    }
}

/// Classifies the session as GNOME from the environment indicators the
/// caller read: the session-id flag and the current-desktop string.
pub fn is_gnome(gnome_session: bool, xdg_current_desktop: Option<&str>) -> (r: bool)
    ensures
        r == is_gnome_spec(gnome_session, xdg_current_desktop),
{
    if gnome_session {
        return true;
    }
    match xdg_current_desktop {
        Some(d) => str_contains_ci(d, "gnome"),
        None => false,
    }
}

/// The diagnostic label for a platform and environment classification.
pub open spec fn platform_label(os: OsKind, kde: bool, gnome: bool) -> Seq<char> {
    match os {
        OsKind::MacOs => "macos"@,
        OsKind::Linux => if kde {
            "linux-kde"@
        } else if gnome {
            "linux-gnome"@
        } else {
            "linux"@
        },
        OsKind::Windows => "windows"@,
        OsKind::Other => "unknown"@,
    }
}

/// The platform/environment classification exposed to callers for
/// diagnostics and display.
pub fn get_platform(os: OsKind, kde: bool, gnome: bool) -> (r: String)
    ensures
        r@ == platform_label(os, kde, gnome),
{
    match os {
        OsKind::MacOs => String::from_str("macos"),
        OsKind::Linux => if kde {
            String::from_str("linux-kde")
        } else if gnome {
            String::from_str("linux-gnome")
        } else {
            String::from_str("linux")
        },
        OsKind::Windows => String::from_str("windows"),
        OsKind::Other => String::from_str("unknown"),
    }
}

/// The error text for a target file that is no longer on disk.
pub open spec fn missing_file_text(path: Seq<char>) -> Seq<char> {
    "Wallpaper file does not exist: "@ + path
}

/// The last-error text the KDE chain keeps for one failed attempt of a
/// named command: one wording when the command ran and failed, another
/// when it could not be invoked.
pub open spec fn kde_err_of(cmd: Seq<char>, o: CmdOutcome) -> Seq<char> {
    if o.launched {
        cmd + " failed: "@ + o.detail@
    } else {
        cmd + " error: "@ + o.detail@
    }
}

/// The mechanisms the desktop-image platform attempts, given what each
/// attempt returned: the session-manager script runs only when the
/// primary script ran and reported failure; then the database rewrite,
/// and the session-manager script once more as a last resort.
pub open spec fn macos_attempts(outs: Seq<CmdOutcome>) -> Seq<Mechanism> {
    if !outs[0].launched || outs[0].success {
        seq![Mechanism::OsaDesktopImage]
    } else if !outs[1].launched || outs[1].success {
        seq![Mechanism::OsaDesktopImage, Mechanism::OsaSystemEvents]
    } else if mech_ok(outs[2]) {
        seq![Mechanism::OsaDesktopImage, Mechanism::OsaSystemEvents, Mechanism::MacDbRewrite]
    } else {
        seq![
            Mechanism::OsaDesktopImage,
            Mechanism::OsaSystemEvents,
            Mechanism::MacDbRewrite,
            Mechanism::OsaSystemEvents,
        ]
    }
}

/// The result of the desktop-image platform's chain: a script that
/// cannot be invoked at all ends the chain with its launch error;
/// otherwise every fallback is exhausted before failure.
pub open spec fn macos_result(outs: Seq<CmdOutcome>) -> Result<(), Seq<char>> {
    if !outs[0].launched {
        Err("AppleScript failed: "@ + outs[0].detail@)
    } else if outs[0].success {
        Ok(())
    } else if !outs[1].launched {
        Err("Fallback AppleScript failed: "@ + outs[1].detail@)
    } else if outs[1].success {
        Ok(())
    } else if mech_ok(outs[2]) {
        Ok(())
    } else if mech_ok(outs[3]) {
        Ok(())
    } else {
        Err("All methods failed: "@ + outs[3].detail@)
    }
}

/// The mechanisms the KDE chain attempts: each is tried only when all
/// earlier ones failed or could not be invoked.
pub open spec fn kde_attempts(outs: Seq<CmdOutcome>) -> Seq<Mechanism> {
    if mech_ok(outs[0]) {
        seq![Mechanism::KdeQdbus6]
    } else if mech_ok(outs[1]) {
        seq![Mechanism::KdeQdbus6, Mechanism::KdeQdbus]
    } else {
        seq![Mechanism::KdeQdbus6, Mechanism::KdeQdbus, Mechanism::KdePlasmaApplyTool]
    }
}

/// The result of the KDE chain: success as soon as one mechanism
/// works; otherwise an error carrying the last attempt's diagnostic.
pub open spec fn kde_result(outs: Seq<CmdOutcome>) -> Result<(), Seq<char>> {
    if mech_ok(outs[0]) || mech_ok(outs[1]) || mech_ok(outs[2]) {
        Ok(())
    } else {
        Err(
            "Failed to set KDE wallpaper. Last error: "@ + kde_err_of(
                "plasma-apply-wallpaperimage"@,
                outs[2],
            ),
        )
    }
}

/// The mechanisms the GNOME path attempts: the dark-variant key is set
/// only after the main key succeeded.
pub open spec fn gnome_attempts(outs: Seq<CmdOutcome>) -> Seq<Mechanism> {
    if mech_ok(outs[0]) {
        seq![Mechanism::GnomePictureUri, Mechanism::GnomePictureUriDark]
    } else {
        seq![Mechanism::GnomePictureUri]
    }
}

/// The result of the GNOME path: only the main key is load-bearing;
/// the dark-variant outcome is ignored.
pub open spec fn gnome_result(outs: Seq<CmdOutcome>) -> Result<(), Seq<char>> {
    if !outs[0].launched {
        Err(outs[0].detail@)
    } else if !outs[0].success {
        Err("Failed to set GNOME wallpaper: "@ + outs[0].detail@)
    } else {
        Ok(())
    }
}

/// The steps the component-object platform attempts: a strict
/// sequence, stopping at the first failure.
pub open spec fn windows_attempts(outs: Seq<CmdOutcome>) -> Seq<Mechanism> {
    if !mech_ok(outs[0]) {
        seq![Mechanism::WinComCreate]
    } else if !mech_ok(outs[1]) {
        seq![Mechanism::WinComCreate, Mechanism::WinComSetPosition]
    } else {
        seq![Mechanism::WinComCreate, Mechanism::WinComSetPosition, Mechanism::WinComSetWallpaper]
    }
}

/// The result of the component-object platform: each step's error is
/// surfaced distinctly, funnelled into one error value.
pub open spec fn windows_result(outs: Seq<CmdOutcome>) -> Result<(), Seq<char>> {
    if !mech_ok(outs[0]) {
        Err("Failed to create IDesktopWallpaper: "@ + outs[0].detail@)
    } else if !mech_ok(outs[1]) {
        Err("Failed to set wallpaper position: "@ + outs[1].detail@)
    } else if !mech_ok(outs[2]) {
        Err("Failed to set wallpaper: "@ + outs[2].detail@)
    } else {
        Ok(())
    }
}

/// The mechanisms the setter attempts for a classification, given the
/// target file's presence and what each attempt returned. Nothing is
/// attempted on an unsupported classification or against a missing
/// file on the platforms that check for one.
pub open spec fn apply_attempts(
    os: OsKind,
    kde: bool,
    gnome: bool,
    path_exists: bool,
    outs: Seq<CmdOutcome>,
) -> Seq<Mechanism> {
    match os {
        OsKind::MacOs => macos_attempts(outs),
        OsKind::Linux => if !path_exists {
            Seq::<Mechanism>::empty()
        } else if kde {
            kde_attempts(outs)
        } else if gnome {
            gnome_attempts(outs)
        } else {
            Seq::<Mechanism>::empty()
        },
        OsKind::Windows => if !path_exists {
            Seq::<Mechanism>::empty()
        } else {
            windows_attempts(outs)
        },
        OsKind::Other => Seq::<Mechanism>::empty(),
    }
}

/// The setter's result for a classification, the target file's
/// presence, and what each attempt returned.
pub open spec fn apply_result(
    os: OsKind,
    kde: bool,
    gnome: bool,
    path: Seq<char>,
    path_exists: bool,
    outs: Seq<CmdOutcome>,
) -> Result<(), Seq<char>> {
    match os {
        OsKind::MacOs => macos_result(outs),
        OsKind::Linux => if !path_exists {
            Err(missing_file_text(path))
        } else if kde {
            kde_result(outs)
        } else if gnome {
            gnome_result(outs)
        } else {
            Err(
                "Unsupported Linux desktop environment. Currently supports KDE Plasma and GNOME."@,
            )
        },
        OsKind::Windows => if !path_exists {
            Err(missing_file_text(path))
        } else {
            windows_result(outs)
        },
        OsKind::Other => Err("Unsupported platform"@),
    }
}

/// The next mechanism the setter is to try, given what the attempts so
/// far returned; nothing when the chain is finished, for better or
/// worse.
pub open spec fn next_needed(
    os: OsKind,
    kde: bool,
    gnome: bool,
    path_exists: bool,
    outs: Seq<CmdOutcome>,
) -> Option<Mechanism> {
    match os {
        OsKind::MacOs => if outs.len() == 0 {
            Some(Mechanism::OsaDesktopImage)
        } else if !outs[0].launched || outs[0].success {
            None
        } else if outs.len() == 1 {
            Some(Mechanism::OsaSystemEvents)
        } else if !outs[1].launched || outs[1].success {
            None
        } else if outs.len() == 2 {
            Some(Mechanism::MacDbRewrite)
        } else if mech_ok(outs[2]) {
            None
        } else if outs.len() == 3 {
            Some(Mechanism::OsaSystemEvents)
        } else {
            None
        },
        OsKind::Linux => if !path_exists {
            None
        } else if kde {
            if outs.len() == 0 {
                Some(Mechanism::KdeQdbus6)
            } else if mech_ok(outs[0]) {
                None
            } else if outs.len() == 1 {
                Some(Mechanism::KdeQdbus)
            } else if mech_ok(outs[1]) {
                None
            } else if outs.len() == 2 {
                Some(Mechanism::KdePlasmaApplyTool)
            } else {
                None
            }
        } else if gnome {
            if outs.len() == 0 {
                Some(Mechanism::GnomePictureUri)
            } else if !mech_ok(outs[0]) {
                None
            } else if outs.len() == 1 {
                Some(Mechanism::GnomePictureUriDark)
            } else {
                None
            }
        } else {
            None
        },
        OsKind::Windows => if !path_exists {
            None
        } else if outs.len() == 0 {
            Some(Mechanism::WinComCreate)
        } else if !mech_ok(outs[0]) {
            None
        } else if outs.len() == 1 {
            Some(Mechanism::WinComSetPosition)
        } else if !mech_ok(outs[1]) {
            None
        } else if outs.len() == 2 {
            Some(Mechanism::WinComSetWallpaper)
        } else {
            None
        },
        OsKind::Other => None,
    }
}

/// Tells a driver which mechanism to try next, from the classification,
/// the target file's presence, and the outcomes of the attempts so far.
pub fn next_mechanism(
    os: OsKind,
    kde: bool,
    gnome: bool,
    path_exists: bool,
    outcomes: &Vec<CmdOutcome>,
) -> (r: Option<Mechanism>)
    ensures
        r == next_needed(os, kde, gnome, path_exists, outcomes@),
{
    let n = outcomes.len();
    match os {
        OsKind::MacOs => {
            if n == 0 {
                Some(Mechanism::OsaDesktopImage)
            } else if !outcomes[0].launched || outcomes[0].success {
                None
            } else if n == 1 {
                Some(Mechanism::OsaSystemEvents)
            } else if !outcomes[1].launched || outcomes[1].success {
                None
            } else if n == 2 {
                Some(Mechanism::MacDbRewrite)
            } else if outcomes[2].launched && outcomes[2].success {
                None
            } else if n == 3 {
                Some(Mechanism::OsaSystemEvents)
            } else {
                None
            }
        },
        OsKind::Linux => {
            if !path_exists {
                None
            } else if kde {
                if n == 0 {
                    Some(Mechanism::KdeQdbus6)
                } else if outcomes[0].launched && outcomes[0].success {
                    None
                } else if n == 1 {
                    Some(Mechanism::KdeQdbus)
                } else if outcomes[1].launched && outcomes[1].success {
                    None
                } else if n == 2 {
                    Some(Mechanism::KdePlasmaApplyTool)
                } else {
                    None
                }
            } else if gnome {
                if n == 0 {
                    Some(Mechanism::GnomePictureUri)
                } else if !(outcomes[0].launched && outcomes[0].success) {
                    None
                } else if n == 1 {
                    Some(Mechanism::GnomePictureUriDark)
                } else {
                    None
                }
            } else {
                None
            }
        },
        OsKind::Windows => {
            if !path_exists {
                None
            } else if n == 0 {
                Some(Mechanism::WinComCreate)
            } else if !(outcomes[0].launched && outcomes[0].success) {
                None
            } else if n == 1 {
                Some(Mechanism::WinComSetPosition)
            } else if !(outcomes[1].launched && outcomes[1].success) {
                None
            } else if n == 2 {
                Some(Mechanism::WinComSetWallpaper)
            } else {
                None
            }
        },
        OsKind::Other => None,
    }
}

/// What one complete run of the setter did: the mechanisms attempted,
/// in order, and the overall result.
pub struct SetterRun {
    pub attempted: Vec<Mechanism>,
    pub result: Result<(), String>,
}

fn err_with_detail(prefix: &str, o: &CmdOutcome) -> (r: String)
    ensures
        r@ == prefix@ + o.detail@,
{
    let mut msg = String::from_str(prefix);
    msg.append(o.detail.as_str());
    msg
}

/// The desktop-image platform's chain: the primary script for every
/// screen; the session-manager script when the primary ran and
/// reported failure; then, for older releases, a rewrite of the
/// desktop-picture database with a restart of the desktop shell; and
/// the session-manager script once more as a last resort. A script
/// that cannot be invoked at all ends the chain with its launch error.
pub fn set_wallpaper_macos(outcomes: &Vec<CmdOutcome>) -> (r: SetterRun)
    requires
        next_needed(OsKind::MacOs, false, false, true, outcomes@) is None,
    ensures
        r.attempted@ == macos_attempts(outcomes@),
        r.result is Ok <==> macos_result(outcomes@) is Ok,
        r.result is Err ==> r.result->Err_0@ == macos_result(outcomes@)->Err_0,
{
    let mut attempted: Vec<Mechanism> = Vec::new();
    attempted.push(Mechanism::OsaDesktopImage);
    let first = &outcomes[0];
    if !first.launched {
        let msg = err_with_detail("AppleScript failed: ", first);
        return SetterRun { attempted, result: Err(msg) };
    }
    if first.success {
        return SetterRun { attempted, result: Ok(()) };
    }
    attempted.push(Mechanism::OsaSystemEvents);
    let second = &outcomes[1];
    if !second.launched {
        let msg = err_with_detail("Fallback AppleScript failed: ", second);
        return SetterRun { attempted, result: Err(msg) };
    }
    if second.success {
        return SetterRun { attempted, result: Ok(()) };
    }
    attempted.push(Mechanism::MacDbRewrite);
    let third = &outcomes[2];
    if third.launched && third.success {
        return SetterRun { attempted, result: Ok(()) };
    }
    attempted.push(Mechanism::OsaSystemEvents);
    let fourth = &outcomes[3];
    if fourth.launched && fourth.success {
        return SetterRun { attempted, result: Ok(()) };
    }
    let msg = err_with_detail("All methods failed: ", fourth);
    SetterRun { attempted, result: Err(msg) }
}

fn kde_last_error(cmd: &str, o: &CmdOutcome) -> (r: String)
    ensures
        r@ == kde_err_of(cmd@, *o),
{
    let mut msg = String::from_str(cmd);
    if o.launched {
        msg.append(" failed: ");
    } else {
        msg.append(" error: ");
    }
    msg.append(o.detail.as_str());
    msg
}

/// The KDE chain: shell scripting over the newer message-bus binary,
/// then the older one, then the dedicated wallpaper tool; failure only
/// after all three, with the last diagnostic captured.
pub fn set_wallpaper_kde(outcomes: &Vec<CmdOutcome>) -> (r: SetterRun)
    requires
        next_needed(OsKind::Linux, true, false, true, outcomes@) is None,
    ensures
        r.attempted@ == kde_attempts(outcomes@),
        r.result is Ok <==> kde_result(outcomes@) is Ok,
        r.result is Err ==> r.result->Err_0@ == kde_result(outcomes@)->Err_0,
{
    let mut attempted: Vec<Mechanism> = Vec::new();
    attempted.push(Mechanism::KdeQdbus6);
    let first = &outcomes[0];
    if first.launched && first.success {
        return SetterRun { attempted, result: Ok(()) };
    }
    attempted.push(Mechanism::KdeQdbus);
    let second = &outcomes[1];
    if second.launched && second.success {
        return SetterRun { attempted, result: Ok(()) };
    }
    attempted.push(Mechanism::KdePlasmaApplyTool);
    let third = &outcomes[2];
    if third.launched && third.success {
        return SetterRun { attempted, result: Ok(()) };
    }
    let last = kde_last_error("plasma-apply-wallpaperimage", third);
    let mut msg = String::from_str("Failed to set KDE wallpaper. Last error: ");
    msg.append(last.as_str());
    SetterRun { attempted, result: Err(msg) }
}

/// The GNOME path: set the background-picture key, then best-effort
/// the dark-variant key, whose failure is ignored.
pub fn set_wallpaper_gnome(outcomes: &Vec<CmdOutcome>) -> (r: SetterRun)
    requires
        next_needed(OsKind::Linux, false, true, true, outcomes@) is None,
    ensures
        r.attempted@ == gnome_attempts(outcomes@),
        r.result is Ok <==> gnome_result(outcomes@) is Ok,
        r.result is Err ==> r.result->Err_0@ == gnome_result(outcomes@)->Err_0,
{
    let mut attempted: Vec<Mechanism> = Vec::new();
    attempted.push(Mechanism::GnomePictureUri);
    let first = &outcomes[0];
    if !first.launched {
        let msg = first.detail.clone();
        return SetterRun { attempted, result: Err(msg) };
    }
    if !first.success {
        let msg = err_with_detail("Failed to set GNOME wallpaper: ", first);
        return SetterRun { attempted, result: Err(msg) };
    }
    attempted.push(Mechanism::GnomePictureUriDark);
    SetterRun { attempted, result: Ok(()) }
}

/// The component-object platform: create the desktop-wallpaper object,
/// set the fill mode, set the path; a strict sequence stopping at the
/// first failure, each error surfaced distinctly.
pub fn set_wallpaper_windows(outcomes: &Vec<CmdOutcome>) -> (r: SetterRun)
    requires
        next_needed(OsKind::Windows, false, false, true, outcomes@) is None,
    ensures
        r.attempted@ == windows_attempts(outcomes@),
        r.result is Ok <==> windows_result(outcomes@) is Ok,
        r.result is Err ==> r.result->Err_0@ == windows_result(outcomes@)->Err_0,
{
    let mut attempted: Vec<Mechanism> = Vec::new();
    attempted.push(Mechanism::WinComCreate);
    let first = &outcomes[0];
    if !(first.launched && first.success) {
        let msg = err_with_detail("Failed to create IDesktopWallpaper: ", first);
        return SetterRun { attempted, result: Err(msg) };
    }
    attempted.push(Mechanism::WinComSetPosition);
    let second = &outcomes[1];
    if !(second.launched && second.success) {
        let msg = err_with_detail("Failed to set wallpaper position: ", second);
        return SetterRun { attempted, result: Err(msg) };
    }
    attempted.push(Mechanism::WinComSetWallpaper);
    let third = &outcomes[2];
    if !(third.launched && third.success) {
        let msg = err_with_detail("Failed to set wallpaper: ", third);
        return SetterRun { attempted, result: Err(msg) };
    }
    SetterRun { attempted, result: Ok(()) }
}

fn missing_file_message(file_path: &str) -> (r: String)
    ensures
        r@ == missing_file_text(file_path@),
{
    let mut msg = String::from_str("Wallpaper file does not exist: ");
    msg.append(file_path);
    msg
}

/// The Linux dispatch: refuse a missing file, then pick the chain for
/// the detected desktop environment; an unrecognized environment is an
/// error without any attempt.
pub fn set_wallpaper_linux(
    kde: bool,
    gnome: bool,
    file_path: &str,
    path_exists: bool,
    outcomes: &Vec<CmdOutcome>,
) -> (r: SetterRun)
    requires
        next_needed(OsKind::Linux, kde, gnome, path_exists, outcomes@) is None,
    ensures
        r.attempted@ == apply_attempts(OsKind::Linux, kde, gnome, path_exists, outcomes@),
        r.result is Ok <==> apply_result(
            OsKind::Linux,
            kde,
            gnome,
            file_path@,
            path_exists,
            outcomes@,
        ) is Ok,
        r.result is Err ==> r.result->Err_0@ == apply_result(
            OsKind::Linux,
            kde,
            gnome,
            file_path@,
            path_exists,
            outcomes@,
        )->Err_0,
{
    if !path_exists {
        return SetterRun { attempted: Vec::new(), result: Err(missing_file_message(file_path)) };
    }
    if kde {
        return set_wallpaper_kde(outcomes);
    }
    if gnome {
        return set_wallpaper_gnome(outcomes);
    }
    SetterRun {
        attempted: Vec::new(),
        result: Err(
            String::from_str(
                "Unsupported Linux desktop environment. Currently supports KDE Plasma and GNOME.",
            ),
        ),
    }
}

/// Applies a wallpaper for the given classification: dispatches to the
/// per-platform chain, records every mechanism attempted in order, and
/// reports the chain's result. The outcomes are what each attempted
/// mechanism returned, in the same order, as `next_mechanism` asked
/// for them.
pub fn set_wallpaper_platform(
    os: OsKind,
    kde: bool,
    gnome: bool,
    file_path: &str,
    path_exists: bool,
    outcomes: &Vec<CmdOutcome>,
) -> (r: SetterRun)
    requires
        next_needed(os, kde, gnome, path_exists, outcomes@) is None,
    ensures
        r.attempted@ == apply_attempts(os, kde, gnome, path_exists, outcomes@),
        r.result is Ok <==> apply_result(os, kde, gnome, file_path@, path_exists, outcomes@) is Ok,
        r.result is Err ==> r.result->Err_0@ == apply_result(
            os,
            kde,
            gnome,
            file_path@,
            path_exists,
            outcomes@,
        )->Err_0,
{
    match os {
        OsKind::MacOs => set_wallpaper_macos(outcomes),
        OsKind::Linux => set_wallpaper_linux(kde, gnome, file_path, path_exists, outcomes),
        OsKind::Windows => {
            if !path_exists {
                SetterRun {
                    attempted: Vec::new(),
                    result: Err(missing_file_message(file_path)),
                }
            } else {
                set_wallpaper_windows(outcomes)
            }
        },
        OsKind::Other => SetterRun {
            attempted: Vec::new(),
            result: Err(String::from_str("Unsupported platform")),
        },
    }
}

/// A driver that feeds outcomes until `next_mechanism` asks for no
/// more has supplied every outcome the setter reads: once nothing more
/// is needed, the attempted mechanisms never outnumber the outcomes.
pub proof fn lemma_outcomes_cover_attempts(
    os: OsKind,
    kde: bool,
    gnome: bool,
    path_exists: bool,
    outs: Seq<CmdOutcome>,
)
    requires
        next_needed(os, kde, gnome, path_exists, outs) is None,
    ensures
        apply_attempts(os, kde, gnome, path_exists, outs).len() <= outs.len(),
{
}

/// On every supported classification the setter either succeeds or
/// exhausts its documented fallbacks, in order, before reporting
/// failure: when the result is an error, the attempted mechanisms are
/// the platform's whole chain; success comes exactly when some
/// attempted mechanism worked. On the desktop-image platform this
/// holds of runs whose scripts could all be invoked: a script that
/// cannot be launched at all ends the chain early with its launch
/// error.
pub proof fn lemma_fallback_exhaustion(
    os: OsKind,
    kde: bool,
    gnome: bool,
    path: Seq<char>,
    outs: Seq<CmdOutcome>,
)
    requires
        next_needed(os, kde, gnome, true, outs) is None,
        os == OsKind::MacOs ==> outs[0].launched && (outs.len() > 1 ==> outs[1].launched),
    ensures
        os == OsKind::MacOs ==> (apply_result(os, kde, gnome, path, true, outs) is Err
            ==> apply_attempts(os, kde, gnome, true, outs) =~= seq![
            Mechanism::OsaDesktopImage,
            Mechanism::OsaSystemEvents,
            Mechanism::MacDbRewrite,
            Mechanism::OsaSystemEvents,
        ]),
        os == OsKind::MacOs ==> (apply_result(os, kde, gnome, path, true, outs) is Ok
            <==> exists|i: int|
            0 <= i < apply_attempts(os, kde, gnome, true, outs).len() && mech_ok(outs[i])),
        os == OsKind::Linux && kde ==> (apply_result(os, kde, gnome, path, true, outs) is Err
            ==> apply_attempts(os, kde, gnome, true, outs) =~= seq![
            Mechanism::KdeQdbus6,
            Mechanism::KdeQdbus,
            Mechanism::KdePlasmaApplyTool,
        ]),
        os == OsKind::Linux && kde ==> (apply_result(os, kde, gnome, path, true, outs) is Ok
            <==> exists|i: int|
            0 <= i < apply_attempts(os, kde, gnome, true, outs).len() && mech_ok(outs[i])),
        os == OsKind::Linux && !kde && gnome ==> (apply_result(
            os,
            kde,
            gnome,
            path,
            true,
            outs,
        ) is Err ==> apply_attempts(os, kde, gnome, true, outs) =~= seq![
            Mechanism::GnomePictureUri,
        ]),
        os == OsKind::Linux && !kde && gnome ==> (apply_result(
            os,
            kde,
            gnome,
            path,
            true,
            outs,
        ) is Ok <==> mech_ok(outs[0])),
        os == OsKind::Windows ==> (apply_result(os, kde, gnome, path, true, outs) is Ok
            <==> mech_ok(outs[0]) && mech_ok(outs[1]) && mech_ok(outs[2])),
        os == OsKind::Windows ==> (apply_result(os, kde, gnome, path, true, outs) is Err ==> {
            let att = apply_attempts(os, kde, gnome, true, outs);
            !mech_ok(outs[att.len() - 1]) && forall|k: int| 0 <= k < att.len() - 1 ==> mech_ok(
                outs[k],
            )
        }),
{
    if os == OsKind::MacOs {
        if macos_result(outs) is Ok {
            if outs[0].success {
                assert(0 <= 0 < macos_attempts(outs).len() && mech_ok(outs[0]));
            } else if outs[1].success {
                assert(0 <= 1 < macos_attempts(outs).len() && mech_ok(outs[1]));
            } else if mech_ok(outs[2]) {
                assert(0 <= 2 < macos_attempts(outs).len() && mech_ok(outs[2]));
            } else {
                assert(0 <= 3 < macos_attempts(outs).len() && mech_ok(outs[3]));
            }
        } else {
            assert(forall|i: int|
                0 <= i < macos_attempts(outs).len() ==> !mech_ok(outs[i]));
        }
    }
    if os == OsKind::Linux && kde {
        if kde_result(outs) is Ok {
            if mech_ok(outs[0]) {
                assert(0 <= 0 < kde_attempts(outs).len() && mech_ok(outs[0]));
            } else if mech_ok(outs[1]) {
                assert(0 <= 1 < kde_attempts(outs).len() && mech_ok(outs[1]));
            } else {
                assert(0 <= 2 < kde_attempts(outs).len() && mech_ok(outs[2]));
            }
        } else {
            assert(forall|i: int|
                0 <= i < kde_attempts(outs).len() ==> !mech_ok(outs[i]));
        }
    }
}

} // verus!
