use vstd::prelude::*;
use crate::images::CurrentWallpaper;
use crate::text::str_eq;

verus! {

/// What the reconciliation watcher does on one tick.
#[derive(PartialEq, Eq, Structural, Clone, Copy, Debug)]
pub enum WatcherAction {
    /// Nothing to do: no desired wallpaper is recorded, its file is
    /// gone, the observation failed, or the desktop already shows it.
    Skip,
    /// The active desktop shows something else: re-apply the desired
    /// wallpaper.
    Reapply,
}

/// One tick of the reconciliation watcher: given the desired
/// wallpaper record, whether its file is still on disk, and the
/// background the operating system reports for the active desktop,
/// decide whether to re-apply. A missing record, a missing file or a
/// failed observation skips the tick; in particular no re-apply is
/// ever attempted against a file that no longer exists.
pub fn watcher_tick(
    desired: &CurrentWallpaper,
    path_exists: bool,
    observed: Option<&str>,
) -> (r: WatcherAction)
    ensures
        desired.local_path is None ==> r == WatcherAction::Skip,
        !path_exists ==> r == WatcherAction::Skip,
        observed is None ==> r == WatcherAction::Skip,
        r == WatcherAction::Reapply <==> desired.local_path is Some && path_exists && observed
            is Some && observed->0@ != desired.local_path->Some_0@,
{
    match &desired.local_path {
        None => WatcherAction::Skip,
        Some(want) => {
            if !path_exists {
                WatcherAction::Skip
            } else {
                match observed {
                    None => WatcherAction::Skip,
                    Some(cur) => {
                        if str_eq(cur, want.as_str()) {
                            WatcherAction::Skip
                        } else {
                            WatcherAction::Reapply
                        }
                    },
                }
            }
        },
    }
}

} // verus!
