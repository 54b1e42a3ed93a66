use vstd::prelude::*;
use crate::images::CurrentWallpaper;
use crate::settings::{get_interval_duration, interval_secs, WallpaperSettings};

verus! {

/// Number of seconds the rotation scheduler sleeps per slice while it
/// waits out a configured interval, so that a stop request is observed
/// promptly even during a multi-day interval.
pub const POLL_QUANTUM_SECS: u64 = 10;

/// An upper bound on the interval the scheduler can be asked to wait
/// out, in seconds: above the largest interval value times the largest
/// unit factor.
pub const MAX_INTERVAL_SECS: u64 = 2_600_000_000_000_000;

/// The shared state the command layer operates on: the loaded
/// settings, the desired wallpaper, and the two cooperative running
/// flags.
pub struct AppState {
    pub settings: WallpaperSettings,
    pub current_wallpaper: CurrentWallpaper,
    pub daemon_running: bool,
    pub space_watcher_running: bool,
}

impl AppState {
    /// Fresh state at process start: both loops idle.
    pub fn new(settings: WallpaperSettings, current_wallpaper: CurrentWallpaper) -> (r: AppState)
        ensures
            r.settings == settings,
            r.current_wallpaper == current_wallpaper,
            !r.daemon_running,
            !r.space_watcher_running,
    {
        AppState { settings, current_wallpaper, daemon_running: false, space_watcher_running: false }
    }

    /// Whether the rotation scheduler should start at launch: exactly
    /// when the persisted settings have automatic rotation enabled,
    /// captured once; later edits act only through the loop's own
    /// re-reads.
    pub fn should_start_daemon_at_launch(&self) -> (r: bool)
        ensures
            r == self.settings.auto_change,
    {
        self.settings.auto_change
    }

    /// Marks the scheduler running. Tells the caller whether a new
    /// loop task must be spawned: starting an already-running
    /// scheduler is a no-op.
    pub fn start_auto_change(&mut self) -> (spawn: bool)
        ensures
            final(self).daemon_running,
            spawn == !old(self).daemon_running,
            final(self).settings == old(self).settings,
            final(self).current_wallpaper == old(self).current_wallpaper,
            final(self).space_watcher_running == old(self).space_watcher_running,
    {
        let was = self.daemon_running;
        self.daemon_running = true;
        !was
    }

    /// Requests cooperative termination of the scheduler; the loop
    /// observes it at its next flag check.
    pub fn stop_auto_change(&mut self)
        ensures
            !final(self).daemon_running,
            final(self).settings == old(self).settings,
            final(self).current_wallpaper == old(self).current_wallpaper,
            final(self).space_watcher_running == old(self).space_watcher_running,
    {
        self.daemon_running = false;
    }

    /// Whether the scheduler is currently marked running.
    pub fn get_daemon_status(&self) -> (r: bool)
        ensures
            r == self.daemon_running,
    {
        self.daemon_running
    }

    /// A copy of the settings, for callers outside the command layer.
    pub fn get_settings(&self) -> (r: WallpaperSettings)
        ensures
            r@ == self.settings@,
    {
        self.settings.clone()
    }

    /// A copy of the desired-wallpaper record.
    pub fn get_current_wallpaper(&self) -> (r: CurrentWallpaper)
        ensures
            r.local_path is Some <==> self.current_wallpaper.local_path is Some,
            r.local_path is Some ==> r.local_path->Some_0@
                == self.current_wallpaper.local_path->Some_0@,
            r.image is Some <==> self.current_wallpaper.image is Some,
            r.set_at is Some <==> self.current_wallpaper.set_at is Some,
    {
        self.current_wallpaper.clone()
    }

    /// Replaces the in-memory settings after a successful durable save.
    pub fn set_settings(&mut self, settings: WallpaperSettings)
        ensures
            final(self).settings == settings,
            final(self).current_wallpaper == old(self).current_wallpaper,
            final(self).daemon_running == old(self).daemon_running,
            final(self).space_watcher_running == old(self).space_watcher_running,
    {
        self.settings = settings;
    }

    /// Replaces the in-memory desired wallpaper after a successful
    /// durable save.
    pub fn set_current_wallpaper(&mut self, current: CurrentWallpaper)
        ensures
            final(self).current_wallpaper == current,
            final(self).settings == old(self).settings,
            final(self).daemon_running == old(self).daemon_running,
            final(self).space_watcher_running == old(self).space_watcher_running,
    {
        self.current_wallpaper = current;
    }
}

/// What the scheduler decides at the top of a cycle, after re-reading
/// the settings from durable storage.
#[derive(PartialEq, Eq, Structural, Clone, Copy, Debug)]
pub enum CycleStart {
    /// The running flag was already off.
    ExitNotRunning,
    /// Automatic rotation was switched off externally: the loop shuts
    /// itself down without an explicit stop request.
    ExitAutoOff,
    /// Wait out this many seconds, in bounded slices, then rotate.
    Sleep(u64),
}

/// The decision at the top of a scheduler cycle: stop when the flag is
/// off; shut down when the freshly re-read settings have automatic
/// rotation disabled; otherwise sleep for the configured interval.
pub fn daemon_cycle_start(running: bool, settings: &WallpaperSettings) -> (r: CycleStart)
    ensures
        !running ==> r == CycleStart::ExitNotRunning,
        running && !settings.auto_change ==> r == CycleStart::ExitAutoOff,
        running && settings.auto_change ==> (r matches CycleStart::Sleep(s) && s == interval_secs(
            settings.interval_value,
            settings.interval_unit@,
        )),
{
    if !running {
        CycleStart::ExitNotRunning
    } else if !settings.auto_change {
        CycleStart::ExitAutoOff
    } else {
        CycleStart::Sleep(get_interval_duration(settings.interval_value, settings.interval_unit.as_str()))
    }
}

/// What the sleeping loop does between two slices.
#[derive(PartialEq, Eq, Structural, Clone, Copy, Debug)]
pub enum SleepStep {
    /// Sleep one more slice of `POLL_QUANTUM_SECS`.
    SleepSlice,
    /// The interval is waited out.
    Finished,
    /// The running flag went off mid-sleep.
    Stopped,
}

/// One check of the sleeping loop: continue slicing while the interval
/// is not waited out and the running flag still reads true; a stop is
/// thus observed within one slice.
pub fn sleep_phase_step(elapsed_secs: u64, interval_secs_val: u64, running: bool) -> (r: SleepStep)
    ensures
        r == SleepStep::SleepSlice <==> elapsed_secs < interval_secs_val && running,
        r == SleepStep::Finished <==> elapsed_secs >= interval_secs_val,
        r == SleepStep::Stopped <==> elapsed_secs < interval_secs_val && !running,
{
    if elapsed_secs >= interval_secs_val {
        SleepStep::Finished
    } else if running {
        SleepStep::SleepSlice
    } else {
        SleepStep::Stopped
    }
}

/// How many sleep slices an interval takes when nothing stops it.
pub open spec fn quanta_for(interval: int) -> int {
    (interval + 9) / 10
}

/// Summarizes one sleep phase: how many slices are slept and whether
/// the phase ended by a stop. The flag is read once before each slice;
/// `flag_off_at` is the index of the first read that returns false.
pub fn run_sleep_phase(interval: u64, flag_off_at: Option<u64>) -> (r: (u64, bool))
    requires
        interval <= MAX_INTERVAL_SECS,
    ensures
        flag_off_at is None ==> r.0 == quanta_for(interval as int) && !r.1,
        flag_off_at matches Some(c) ==> (if c < quanta_for(interval as int) {
            r.0 == c && r.1
        } else {
            r.0 == quanta_for(interval as int) && !r.1
        }),
{
    let total = (interval + 9) / 10;
    match flag_off_at {
        None => (total, false),
        Some(c) => if c < total {
            (c, true)
        } else {
            (total, false)
        },
    }
}

/// The decision after the sleep phase completed: rotate only when the
/// running flag still reads true.
#[derive(PartialEq, Eq, Structural, Clone, Copy, Debug)]
pub enum AfterSleep {
    Rotate,
    ExitStopped,
}

/// The flag check between sleeping and rotating.
pub fn daemon_after_sleep(running: bool) -> (r: AfterSleep)
    ensures
        r == AfterSleep::Rotate <==> running,
{
    if running {
        AfterSleep::Rotate
    } else {
        AfterSleep::ExitStopped
    }
}

/// The environment one scheduler cycle runs against: the settings the
/// cycle re-reads from durable storage, how the running flag behaves
/// (`flag_off_at` is the index of the first flag read, counted over
/// the whole cycle, that returns false), and whether the rotation, if
/// reached, succeeds.
pub struct CycleEnv {
    pub settings: WallpaperSettings,
    pub flag_off_at: Option<u64>,
    pub rotation_ok: bool,
}

/// How one scheduler cycle ended.
#[derive(PartialEq, Eq, Structural, Clone, Copy, Debug)]
pub enum CycleOutcome {
    /// The flag was off at the top of the cycle.
    ExitNotRunning,
    /// The re-read settings had automatic rotation disabled.
    ExitAutoOff,
    /// The flag went off during or right after the sleep phase.
    ExitStopped,
    /// A rotation ran and succeeded.
    Rotated,
    /// A rotation ran and failed; the loop goes on regardless.
    RotationFailed,
}

/// The outcomes that end the loop.
pub open spec fn is_exit(o: CycleOutcome) -> bool {
    o == CycleOutcome::ExitNotRunning || o == CycleOutcome::ExitAutoOff || o
        == CycleOutcome::ExitStopped
}

/// The interval, in seconds, a cycle's settings denote.
pub open spec fn env_interval(env: CycleEnv) -> int {
    interval_secs(env.settings.interval_value, env.settings.interval_unit@)
}

/// How a rotation ends when the cycle reaches one.
pub open spec fn rotate_outcome(env: CycleEnv) -> CycleOutcome {
    if env.rotation_ok {
        CycleOutcome::Rotated
    } else {
        CycleOutcome::RotationFailed
    }
}

/// How one cycle ends against its environment. Flag reads are
/// numbered over the cycle: read 0 at the top, reads 1 onward before
/// each sleep slice, and one more read between sleeping and rotating.
pub open spec fn cycle_outcome(env: CycleEnv) -> CycleOutcome {
    if env.flag_off_at matches Some(c) && c == 0 {
        CycleOutcome::ExitNotRunning
    } else if !env.settings.auto_change {
        CycleOutcome::ExitAutoOff
    } else {
        let q = quanta_for(env_interval(env));
        match env.flag_off_at {
            None => rotate_outcome(env),
            Some(c) => if c - 1 < q {
                CycleOutcome::ExitStopped
            } else if c == q + 1 {
                CycleOutcome::ExitStopped
            } else {
                rotate_outcome(env)
            },
        }
    }
}

/// How many sleep slices one cycle spends against its environment.
pub open spec fn cycle_quanta(env: CycleEnv) -> int {
    if env.flag_off_at matches Some(c) && c == 0 {
        0
    } else if !env.settings.auto_change {
        0
    } else {
        let q = quanta_for(env_interval(env));
        match env.flag_off_at {
            None => q,
            Some(c) => if c - 1 < q {
                c - 1
            } else {
                q
            },
        }
    }
}

/// The sleep slices of the first `n` cycles, taken together.
pub open spec fn total_quanta(envs: Seq<CycleEnv>, n: int) -> int
    decreases n,
{
    if n <= 0 {
        0
    } else {
        total_quanta(envs, n - 1) + cycle_quanta(envs[n - 1])
    }
}

/// How many of the first `n` outcomes are successful rotations.
pub open spec fn count_rotated(outs: Seq<CycleOutcome>, n: int) -> int
    decreases n,
{
    if n <= 0 {
        0
    } else {
        count_rotated(outs, n - 1) + if outs[n - 1] == CycleOutcome::Rotated {
            1int
        } else {
            0int
        }
    }
}

proof fn lemma_count_rotated_prefix(a: Seq<CycleOutcome>, b: Seq<CycleOutcome>, n: int)
    requires
        n <= a.len(),
        n <= b.len(),
        forall|k: int| 0 <= k < n ==> a[k] == b[k],
    ensures
        count_rotated(a, n) == count_rotated(b, n),
    decreases n,
{
    if n > 0 {
        lemma_count_rotated_prefix(a, b, n - 1);
    }
}

proof fn lemma_count_rotated_push(outs: Seq<CycleOutcome>, o: CycleOutcome)
    ensures
        count_rotated(outs.push(o), outs.len() as int + 1) == count_rotated(outs, outs.len() as int) + if o
            == CycleOutcome::Rotated {
            1int
        } else {
            0int
        },
{
    lemma_count_rotated_prefix(outs.push(o), outs, outs.len() as int);
}

/// What a whole scheduler run did: the outcome of every cycle it
/// entered, the sleep slices spent, and the successful rotations.
pub struct DaemonRun {
    pub outcomes: Vec<CycleOutcome>,
    pub quanta: u64,
    pub rotations: u64,
}

/// Runs the scheduler loop against a sequence of per-cycle
/// environments, under a simulated clock: each cycle re-reads its
/// settings, shuts down when rotation was disabled, sleeps in slices
/// observing the flag, rotates, and goes on; the loop ends at the
/// first exiting cycle or when the environments run out.
pub fn simulate_daemon(envs: &Vec<CycleEnv>) -> (r: DaemonRun)
    requires
        envs@.len() <= 65000,
    ensures
        r.outcomes@.len() <= envs@.len(),
        forall|k: int|
            0 <= k < r.outcomes@.len() ==> r.outcomes@[k] == cycle_outcome(envs@[k]),
        forall|k: int| 0 <= k < r.outcomes@.len() - 1 ==> !is_exit(r.outcomes@[k]),
        r.outcomes@.len() < envs@.len() ==> is_exit(r.outcomes@[r.outcomes@.len() - 1]),
        r.quanta == total_quanta(envs@, r.outcomes@.len() as int),
        r.rotations == count_rotated(r.outcomes@, r.outcomes@.len() as int),
{
    let mut outcomes: Vec<CycleOutcome> = Vec::new();
    let mut quanta: u64 = 0;
    let mut rotations: u64 = 0;
    let mut exited = false;
    let mut i: usize = 0;
    while i < envs.len() && !exited
        invariant
            envs@.len() <= 65000,
            i <= envs@.len(),
            outcomes@.len() == i,
            forall|k: int| 0 <= k < i ==> outcomes@[k] == cycle_outcome(envs@[k]),
            forall|k: int| 0 <= k < i - 1 ==> !is_exit(outcomes@[k]),
            exited <==> (i > 0 && is_exit(outcomes@[i - 1])),
            quanta == total_quanta(envs@, i as int),
            quanta <= i * 260_000_000_000_000,
            rotations == count_rotated(outcomes@, i as int),
            rotations <= i,
        decreases envs@.len() - i,
    {
        let env = &envs[i];
        let ghost old_outcomes = outcomes@;
        proof {
            assert(env_interval(*env) <= 4294967295int * 604800);
        }
        let flag0 = match env.flag_off_at {
            None => true,
            Some(c) => c > 0,
        };
        match daemon_cycle_start(flag0, &env.settings) {
            CycleStart::ExitNotRunning => {
                outcomes.push(CycleOutcome::ExitNotRunning);
                exited = true;
            },
            CycleStart::ExitAutoOff => {
                outcomes.push(CycleOutcome::ExitAutoOff);
                exited = true;
            },
            CycleStart::Sleep(secs) => {
                let sleep_flag = match env.flag_off_at {
                    None => None,
                    Some(c) => Some(c - 1),
                };
                let (q, stopped) = run_sleep_phase(secs, sleep_flag);
                proof {
                    assert(q <= quanta_for(secs as int));
                    assert(quanta_for(secs as int) <= 260_000_000_000_000);
                }
                quanta = quanta + q;
                if stopped {
                    outcomes.push(CycleOutcome::ExitStopped);
                    exited = true;
                } else {
                    let post_running = match env.flag_off_at {
                        None => true,
                        Some(c) => q + 1 < c,
                    };
                    match daemon_after_sleep(post_running) {
                        AfterSleep::ExitStopped => {
                            outcomes.push(CycleOutcome::ExitStopped);
                            exited = true;
                        },
                        AfterSleep::Rotate => {
                            if env.rotation_ok {
                                outcomes.push(CycleOutcome::Rotated);
                                rotations = rotations + 1;
                            } else {
                                outcomes.push(CycleOutcome::RotationFailed);
                            }
                        },
                    }
                }
            },
        }
        proof {
            lemma_count_rotated_push(old_outcomes, outcomes@[outcomes@.len() - 1]);
            assert(outcomes@ =~= old_outcomes.push(outcomes@[outcomes@.len() - 1]));
        }
        i = i + 1;
    }
    DaemonRun { outcomes, quanta, rotations }
}

/// The scheduler shuts itself down when automatic rotation is switched
/// off externally: a cycle that re-reads settings with rotation
/// disabled, while no stop was requested, exits at once, with no
/// sleeping and no rotation.
pub proof fn lemma_auto_off_self_terminates(env: CycleEnv)
    requires
        !env.settings.auto_change,
        !(env.flag_off_at matches Some(c) && c == 0),
    ensures
        cycle_outcome(env) == CycleOutcome::ExitAutoOff,
        cycle_quanta(env) == 0,
{
}

/// A stop observed mid-sleep ends the cycle within one slice: when the
/// flag's first false read falls inside the sleep phase, the cycle
/// exits stopped after exactly the slices slept before that read, and
/// no rotation runs.
pub proof fn lemma_stop_mid_sleep(env: CycleEnv)
    requires
        env.settings.auto_change,
        env.flag_off_at matches Some(c) && 1 <= c && c - 1 < quanta_for(env_interval(env)),
    ensures
        cycle_outcome(env) == CycleOutcome::ExitStopped,
        cycle_quanta(env) == env.flag_off_at->0 - 1,
{
}

/// A cycle never sleeps past its configured interval: whatever the
/// flag does, the slices spent stay within the interval's own count,
/// so a rotation, when one comes, comes within the interval.
pub proof fn lemma_cycle_sleep_bound(env: CycleEnv)
    ensures
        0 <= cycle_quanta(env) <= quanta_for(env_interval(env)),
{
}

/// A stop issued mid-rotation lets the rotation complete: when the
/// flag's first false read falls after the post-sleep check, the cycle
/// still ends in its rotation outcome, and the stop is observed at the
/// top of the next cycle.
pub proof fn lemma_stop_mid_rotation(env: CycleEnv, next: CycleEnv)
    requires
        env.settings.auto_change,
        env.flag_off_at matches Some(c) && c > quanta_for(env_interval(env)) + 1,
        next.flag_off_at == Some(0u64),
    ensures
        cycle_outcome(env) == rotate_outcome(env),
        cycle_outcome(next) == CycleOutcome::ExitNotRunning,
{
}

} // verus!
