use wally::daemon::{
    daemon_after_sleep, daemon_cycle_start, run_sleep_phase, simulate_daemon, sleep_phase_step,
    AfterSleep, AppState, CycleEnv, CycleOutcome, CycleStart, SleepStep,
};
use wally::images::CurrentWallpaper;
use wally::settings::WallpaperSettings;

fn settings(auto: bool, value: u32, unit: &str) -> WallpaperSettings {
    WallpaperSettings {
        api_key: "k".to_string(),
        collection_id: "880012".to_string(),
        interval_value: value,
        interval_unit: unit.to_string(),
        auto_change: auto,
    }
}

fn env(auto: bool, value: u32, unit: &str, flag_off_at: Option<u64>, rotation_ok: bool) -> CycleEnv {
    CycleEnv { settings: settings(auto, value, unit), flag_off_at, rotation_ok }
}

#[test]
fn state_start_stop_status() {
    let mut st = AppState::new(settings(true, 3, "hours"), CurrentWallpaper::default());
    assert!(!st.get_daemon_status());
    assert!(st.should_start_daemon_at_launch());
    assert!(st.start_auto_change());
    assert!(st.get_daemon_status());
    // starting again is a no-op: no second task to spawn
    assert!(!st.start_auto_change());
    st.stop_auto_change();
    assert!(!st.get_daemon_status());
}

#[test]
fn cycle_start_decisions() {
    let on = settings(true, 3, "hours");
    let off = settings(false, 3, "hours");
    assert_eq!(daemon_cycle_start(false, &on), CycleStart::ExitNotRunning);
    assert_eq!(daemon_cycle_start(true, &off), CycleStart::ExitAutoOff);
    assert_eq!(daemon_cycle_start(true, &on), CycleStart::Sleep(10800));
}

#[test]
fn sleep_step_decisions() {
    assert_eq!(sleep_phase_step(0, 100, true), SleepStep::SleepSlice);
    assert_eq!(sleep_phase_step(90, 100, true), SleepStep::SleepSlice);
    assert_eq!(sleep_phase_step(100, 100, true), SleepStep::Finished);
    assert_eq!(sleep_phase_step(50, 100, false), SleepStep::Stopped);
    assert_eq!(daemon_after_sleep(true), AfterSleep::Rotate);
    assert_eq!(daemon_after_sleep(false), AfterSleep::ExitStopped);
}

#[test]
fn sleep_phase_summary() {
    assert_eq!(run_sleep_phase(100, None), (10, false));
    assert_eq!(run_sleep_phase(95, None), (10, false));
    assert_eq!(run_sleep_phase(0, None), (0, false));
    assert_eq!(run_sleep_phase(100, Some(4)), (4, true));
    assert_eq!(run_sleep_phase(100, Some(10)), (10, false));
    assert_eq!(run_sleep_phase(100, Some(99)), (10, false));
}

#[test]
fn auto_off_self_terminates_without_stop() {
    // The flag never goes off, yet the loop exits on its own once the
    // re-read settings have rotation disabled, before any sleeping.
    let run = simulate_daemon(&vec![env(false, 3, "hours", None, true)]);
    assert_eq!(run.outcomes, vec![CycleOutcome::ExitAutoOff]);
    assert_eq!(run.quanta, 0);
    assert_eq!(run.rotations, 0);
}

#[test]
fn auto_off_after_some_rotations() {
    let run = simulate_daemon(&vec![
        env(true, 1, "minutes", None, true),
        env(true, 1, "minutes", None, true),
        env(false, 1, "minutes", None, true),
        env(true, 1, "minutes", None, true),
    ]);
    assert_eq!(
        run.outcomes,
        vec![
            CycleOutcome::Rotated,
            CycleOutcome::Rotated,
            CycleOutcome::ExitAutoOff
        ]
    );
    assert_eq!(run.quanta, 12);
    assert_eq!(run.rotations, 2);
}

#[test]
fn stop_mid_sleep_ends_within_one_quantum() {
    // A one-minute interval is 6 slices; the flag goes off at overall
    // read 4, i.e. after 3 slices: the loop exits stopped without
    // rotating.
    let run = simulate_daemon(&vec![env(true, 1, "minutes", Some(4), true)]);
    assert_eq!(run.outcomes, vec![CycleOutcome::ExitStopped]);
    assert_eq!(run.quanta, 3);
    assert_eq!(run.rotations, 0);
}

#[test]
fn stop_mid_rotation_lets_it_complete() {
    // The flag goes off only after the post-sleep check: the in-flight
    // rotation completes, and the stop is observed at the next cycle top.
    let run = simulate_daemon(&vec![
        env(true, 1, "minutes", Some(100), true),
        env(true, 1, "minutes", Some(0), true),
    ]);
    assert_eq!(
        run.outcomes,
        vec![CycleOutcome::Rotated, CycleOutcome::ExitNotRunning]
    );
    assert_eq!(run.rotations, 1);
}

#[test]
fn rotation_failure_is_not_fatal() {
    let run = simulate_daemon(&vec![
        env(true, 1, "minutes", None, false),
        env(true, 1, "minutes", None, true),
    ]);
    assert_eq!(
        run.outcomes,
        vec![CycleOutcome::RotationFailed, CycleOutcome::Rotated]
    );
    assert_eq!(run.rotations, 1);
}

#[test]
fn launch_configuration_end_to_end() {
    // Settings {credential "k", collection "880012", 3 hours, auto on}:
    // the scheduler starts running at launch, and its first tick comes
    // after exactly the three-hour interval on the simulated clock.
    let s = settings(true, 3, "hours");
    let st = AppState::new(s.clone(), CurrentWallpaper::default());
    assert!(st.should_start_daemon_at_launch());

    let run = simulate_daemon(&vec![CycleEnv {
        settings: s.clone(),
        flag_off_at: None,
        rotation_ok: true,
    }]);
    assert_eq!(run.outcomes, vec![CycleOutcome::Rotated]);
    // 10800 s in 10-second slices: the tick comes at 3 h sharp.
    assert_eq!(run.quanta * 10, 10800);

    // If auto_change flips false before the first tick, the loop exits
    // with no rotation: the desired wallpaper is left unchanged.
    let run = simulate_daemon(&vec![CycleEnv {
        settings: settings(false, 3, "hours"),
        flag_off_at: None,
        rotation_ok: true,
    }]);
    assert_eq!(run.outcomes, vec![CycleOutcome::ExitAutoOff]);
    assert_eq!(run.rotations, 0);
}
