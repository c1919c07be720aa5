//! The game's state machine: score, elapsed time, the started/clickable
//! flags and the repeating-timer resource, driven by three external events.
//!
//! Time advances by a fixed step per tick, never by wall-clock deltas, so the
//! elapsed time is exact: one tick is one hundredth of a second, and a round
//! lasts `ROUND_DURATION_CENTIS` hundredths. The machine itself owns no
//! timer, audio or rendering resource; each transition reports, in an
//! [`UpdateOutcome`], what the host event loop must do with them.

use vstd::prelude::*;
use vstd::string::StringExecFns;

use crate::position::Pos;
use crate::text::{dec_digits, digit_char};

verus! {

/// Hundredths of a second that one `OnInterval` tick adds to the elapsed
/// time (the timer fires every 0.01 s).
pub const TIME_STEP_CENTIS: u64 = 1;

/// Length of a round, in hundredths of a second (10 s).
pub const ROUND_DURATION_CENTIS: u64 = 1000;

/// The three events the host event loop can deliver.
#[derive(Clone, Copy, Debug, PartialEq, Eq, Structural)]
pub enum AppMessage {
    /// The player clicked the target.
    TargetClick,
    /// The repeating timer fired.
    OnInterval,
    /// The restart control was used.
    Restart,
}

/// What a transition asks the host to do with the repeating-timer resource.
#[derive(Clone, Copy, Debug, PartialEq, Eq, Structural)]
pub enum TimerCmd {
    /// Leave the timer as it is.
    Keep,
    /// Start the repeating timer; the machine held none before.
    Acquire,
    /// Stop and drop the held timer.
    Release,
}

/// Everything a transition asks of the host: whether to re-render, what to
/// do with the timer, and whether to play the audio cue (rewind, then play).
#[derive(Clone, Copy, Debug, PartialEq, Eq, Structural)]
pub struct UpdateOutcome {
    pub render: bool,
    pub timer: TimerCmd,
    pub audio_cue: bool,
}

/// The single mutable entity of the game. `timer_held` mirrors the host's
/// ownership of the repeating-timer resource: the host acquires and releases
/// it exactly as the [`TimerCmd`] of each transition directs.
#[derive(Clone, Copy, Debug, PartialEq, Eq, Structural)]
pub struct Game {
    pub pos: Pos,
    pub score: u64,
    pub elapsed_centis: u64,
    pub is_started: bool,
    pub is_clickable: bool,
    pub timer_held: bool,
}

impl Game {
    /// The state invariant, established at creation and preserved by every
    /// transition:
    /// - the position never touches a viewport edge;
    /// - the countdown runs exactly while a timer resource is held;
    /// - the elapsed time never exceeds the round duration, and is strictly
    ///   under it while the countdown runs;
    /// - once clicks are locked out, the countdown no longer runs;
    /// - before the first click of a round, no time has elapsed.
    pub open spec fn wf(self) -> bool {
        &&& self.pos.wf()
        &&& self.is_started == self.timer_held
        &&& self.elapsed_centis <= ROUND_DURATION_CENTIS
        &&& (self.is_started ==> self.elapsed_centis < ROUND_DURATION_CENTIS)
        &&& (!self.is_clickable ==> !self.is_started)
        &&& (!self.is_started && self.is_clickable ==> self.elapsed_centis == 0)
    }

    /// The initial state and the state after a restart: nothing scored, no
    /// time elapsed, countdown not running, target clickable, no timer held.
    pub open spec fn is_idle(self) -> bool {
        &&& self.score == 0
        &&& self.elapsed_centis == 0
        &&& !self.is_started
        &&& self.is_clickable
        &&& !self.timer_held
    }

    /// Countdown active: the target can still be clicked and the timer runs.
    pub open spec fn is_running(self) -> bool {
        self.is_started && self.is_clickable
    }

    /// The round is over: clicks are locked out until a restart.
    pub open spec fn is_ended(self) -> bool {
        !self.is_clickable
    }

    /// What `new` returns for a pair of raw position samples.
    pub open spec fn initial_spec(raw_x: u8, raw_y: u8) -> Game {
        Game {
            pos: Pos::new_spec(raw_x, raw_y),
            score: 0,
            elapsed_centis: 0,
            is_started: false,
            is_clickable: true,
            timer_held: false,
        }
    }

    /// The state created at component mount: idle, with a fresh target
    /// position built from the two raw samples.
    pub fn new(raw_x: u8, raw_y: u8) -> (g: Game)
        ensures
            g == Game::initial_spec(raw_x, raw_y),
            g.wf(),
            g.is_idle(),
    {
        Game {
            pos: Pos::new(raw_x, raw_y),
            score: 0,
            elapsed_centis: 0,
            is_started: false,
            is_clickable: true,
            timer_held: false,
        }
    }
}

/// The `TargetClick` transition. A click while clicks are locked out changes
/// nothing; otherwise it relocates the target, scores a point, and on the
/// first click of a round starts the countdown.
pub open spec fn click_step(s: Game, raw_x: u8, raw_y: u8) -> Game {
    if !s.is_clickable {
        s
    } else {
        Game {
            pos: Pos::new_spec(raw_x, raw_y),
            score: (s.score + 1) as u64,
            elapsed_centis: s.elapsed_centis,
            is_started: true,
            is_clickable: true,
            timer_held: true,
        }
    }
}

/// The `OnInterval` transition. A stray tick while the countdown is not
/// running changes nothing; otherwise the elapsed time advances one step,
/// and on reaching the round duration the round ends: the elapsed time is
/// clamped to exactly the duration, the timer is released, and clicks are
/// locked out.
pub open spec fn tick_step(s: Game) -> Game {
    if !s.is_started {
        s
    } else if s.elapsed_centis + TIME_STEP_CENTIS >= ROUND_DURATION_CENTIS {
        Game {
            pos: s.pos,
            score: s.score,
            elapsed_centis: ROUND_DURATION_CENTIS,
            is_started: false,
            is_clickable: false,
            timer_held: false,
        }
    } else {
        Game {
            pos: s.pos,
            score: s.score,
            elapsed_centis: (s.elapsed_centis + TIME_STEP_CENTIS) as u64,
            is_started: s.is_started,
            is_clickable: s.is_clickable,
            timer_held: s.timer_held,
        }
    }
}

/// The `Restart` transition: back to the idle state, keeping only the
/// target's position.
pub open spec fn restart_step(s: Game) -> Game {
    Game {
        pos: s.pos,
        score: 0,
        elapsed_centis: 0,
        is_started: false,
        is_clickable: true,
        timer_held: false,
    }
}

/// The full transition relation: the state after `msg` hits `s`, with the
/// raw position samples used only by `TargetClick`.
pub open spec fn step(s: Game, msg: AppMessage, raw_x: u8, raw_y: u8) -> Game {
    match msg {
        AppMessage::TargetClick => click_step(s, raw_x, raw_y),
        AppMessage::OnInterval => tick_step(s),
        AppMessage::Restart => restart_step(s),
    }
}

/// What each transition asks of the host. Only an ignored click skips the
/// re-render; the audio cue plays exactly on scoring clicks; the timer is
/// acquired only by the first click of a round and released when the round
/// ends or a restart finds one still held.
pub open spec fn step_outcome(s: Game, msg: AppMessage) -> UpdateOutcome {
    match msg {
        AppMessage::TargetClick => if !s.is_clickable {
            UpdateOutcome { render: false, timer: TimerCmd::Keep, audio_cue: false }
        } else if !s.is_started {
            UpdateOutcome { render: true, timer: TimerCmd::Acquire, audio_cue: true }
        } else {
            UpdateOutcome { render: true, timer: TimerCmd::Keep, audio_cue: true }
        },
        AppMessage::OnInterval => UpdateOutcome {
            render: true,
            timer: if s.is_started && s.elapsed_centis + TIME_STEP_CENTIS
                >= ROUND_DURATION_CENTIS {
                TimerCmd::Release
            } else {
                TimerCmd::Keep
            },
            audio_cue: false,
        },
        AppMessage::Restart => UpdateOutcome {
            render: true,
            timer: if s.timer_held {
                TimerCmd::Release
            } else {
                TimerCmd::Keep
            },
            audio_cue: false,
        },
    }
}

impl Game {
    /// React to one event: step the state and report what the host must do.
    ///
    /// An ignored click (clicks locked out) changes no field and requests no
    /// re-render; a scoring click from the idle state acquires exactly one
    /// timer resource, and a later one acquires none; a restart always lands
    /// in the idle state, keeping only the target's position.
    pub fn update(&mut self, msg: AppMessage, raw_x: u8, raw_y: u8) -> (out: UpdateOutcome)
        requires
            old(self).wf(),
            msg is TargetClick && old(self).is_clickable ==> old(self).score < u64::MAX,
        ensures
            *final(self) == step(*old(self), msg, raw_x, raw_y),
            out == step_outcome(*old(self), msg),
            final(self).wf(),
            msg is TargetClick && !old(self).is_clickable ==> *final(self) == *old(self)
                && !out.render && out.timer is Keep && !out.audio_cue,
            msg is TargetClick && old(self).is_clickable && !old(self).is_started ==> (
                final(self).is_started && final(self).timer_held && !old(self).timer_held
                    && out.timer is Acquire),
            msg is TargetClick && old(self).is_running() ==> out.timer is Keep
                && final(self).timer_held,
            msg is Restart ==> final(self).is_idle() && final(self).pos == old(self).pos,
    {
        match msg {
            AppMessage::TargetClick => {
                if !self.is_clickable {
                    return UpdateOutcome { render: false, timer: TimerCmd::Keep, audio_cue: false };
                }
                let acquire = !self.is_started;
                if acquire {
                    self.is_started = true;
                    self.timer_held = true;
                }
                self.pos = Pos::new(raw_x, raw_y);
                self.score = self.score + 1;
                UpdateOutcome {
                    render: true,
                    timer: if acquire {
                        TimerCmd::Acquire
                    } else {
                        TimerCmd::Keep
                    },
                    audio_cue: true,
                }
            },
            AppMessage::OnInterval => {
                if self.is_started {
                    self.elapsed_centis = self.elapsed_centis + TIME_STEP_CENTIS;
                    if self.elapsed_centis >= ROUND_DURATION_CENTIS {
                        self.elapsed_centis = ROUND_DURATION_CENTIS;
                        self.is_started = false;
                        self.is_clickable = false;
                        self.timer_held = false;
                        return UpdateOutcome {
                            render: true,
                            timer: TimerCmd::Release,
                            audio_cue: false,
                        };
                    }
                }
                UpdateOutcome { render: true, timer: TimerCmd::Keep, audio_cue: false }
            },
            AppMessage::Restart => {
                let release = self.timer_held;
                self.elapsed_centis = 0;
                self.score = 0;
                self.is_clickable = true;
                self.is_started = false;
                self.timer_held = false;
                UpdateOutcome {
                    render: true,
                    timer: if release {
                        TimerCmd::Release
                    } else {
                        TimerCmd::Keep
                    },
                    audio_cue: false,
                }
            },
        }
    }

    /// Whether the restart control is disabled: everywhere but in the ended
    /// state.
    pub fn restart_disabled(&self) -> (r: bool)
        ensures
            r == (self.is_started || self.is_clickable),
    {
        self.is_started || self.is_clickable
    }

    /// The elapsed time rendered with two decimal places, e.g. `"5.00"`.
    pub fn time_text(&self) -> (r: String)
        ensures
            r@ == time_text_spec(self.elapsed_centis as int),
    {
        let whole = self.elapsed_centis / 100;
        let frac = self.elapsed_centis % 100;
        let mut s = crate::text::u64_to_string(whole);
        proof {
            reveal_strlit(".");
        }
        s.append(".");
        s.append(crate::text::digit_str((frac / 10) as u8));
        s.append(crate::text::digit_str((frac % 10) as u8));
        proof {
            assert(s@ =~= time_text_spec(self.elapsed_centis as int));
        }
        s
    }
}

/// The two-decimal rendering of a count of hundredths: the whole seconds,
/// a point, then the remaining hundredths as exactly two digits.
pub open spec fn time_text_spec(centis: int) -> Seq<char> {
    dec_digits(centis / 100) + seq!['.', digit_char((centis % 100) / 10), digit_char(centis % 10)]
}

/// The state after `n` consecutive `OnInterval` ticks hit `s`.
pub open spec fn run_ticks(s: Game, n: nat) -> Game
    decreases n,
{
    if n == 0 {
        s
    } else {
        run_ticks(tick_step(s), (n - 1) as nat)
    }
}

/// Every transition preserves the state invariant.
pub proof fn lemma_step_preserves_wf(s: Game, msg: AppMessage, raw_x: u8, raw_y: u8)
    requires
        s.wf(),
    ensures
        step(s, msg, raw_x, raw_y).wf(),
{
}

/// While the countdown is not running, ticks are no-ops: however many stray
/// ticks arrive, the state stays exactly as it is.
pub proof fn lemma_stray_ticks_ignored(s: Game, n: nat)
    requires
        !s.is_started,
    ensures
        run_ticks(s, n) == s,
    decreases n,
{
    if n > 0 {
        lemma_stray_ticks_ignored(s, (n - 1) as nat);
    }
}

/// As long as the round duration is not reached, ticks only accumulate
/// elapsed time: after `n` of them the machine is still running, the score,
/// position and timer are untouched, and the elapsed time has grown by
/// exactly `n` steps.
pub proof fn lemma_ticks_accumulate(s: Game, n: nat)
    requires
        s.wf(),
        s.is_started,
        s.elapsed_centis + n < ROUND_DURATION_CENTIS,
    ensures
        run_ticks(s, n).wf(),
        run_ticks(s, n).is_started,
        run_ticks(s, n).is_clickable == s.is_clickable,
        run_ticks(s, n).timer_held,
        run_ticks(s, n).score == s.score,
        run_ticks(s, n).pos == s.pos,
        run_ticks(s, n).elapsed_centis == s.elapsed_centis + n,
    decreases n,
{
    if n > 0 {
        lemma_ticks_accumulate(tick_step(s), (n - 1) as nat);
    }
}

/// A round always ends on time: once enough ticks have arrived to cover the
/// round duration — exactly `ROUND_DURATION_CENTIS` of them from a fresh
/// start — the machine is in the ended state, with the elapsed time clamped
/// to exactly the round duration, the timer released, and the score and
/// position as they were; any further ticks leave it there.
pub proof fn lemma_round_ends(s: Game, n: nat)
    requires
        s.wf(),
        s.is_started,
        s.elapsed_centis + n >= ROUND_DURATION_CENTIS,
    ensures
        run_ticks(s, n).wf(),
        run_ticks(s, n).is_ended(),
        !run_ticks(s, n).is_started,
        !run_ticks(s, n).timer_held,
        run_ticks(s, n).elapsed_centis == ROUND_DURATION_CENTIS,
        run_ticks(s, n).score == s.score,
        run_ticks(s, n).pos == s.pos,
    decreases n,
{
    let t = tick_step(s);
    if t.is_started {
        lemma_round_ends(t, (n - 1) as nat);
    } else {
        lemma_stray_ticks_ignored(t, (n - 1) as nat);
    }
}

/// Restarting is idempotent: a second `Restart` in a row changes nothing.
pub proof fn lemma_restart_idempotent(s: Game)
    ensures
        restart_step(restart_step(s)) == restart_step(s),
{
}

/// From the idle state a `Restart` is a no-op, so any number of them in a
/// row leaves the state unchanged: still idle, score 0, no time elapsed.
pub proof fn lemma_restart_from_idle_is_noop(s: Game)
    requires
        s.is_idle(),
    ensures
        restart_step(s) == s,
{
}

} // verus!
