//! The LED status state machine.
//!
//! The LED task owns one phase value and loops: it drives the LED to the
//! phase's output level, suspends as the phase's wait says (forever for a
//! steady phase, up to the blink interval for a blink phase), and steps the
//! phase by whichever event ended the wait — a newly arrived command or the
//! elapsed deadline. A command preempts any phase immediately; an elapsed
//! blink deadline toggles the lit half-period to the dark one and back, so an
//! undisturbed `Blink(n)` produces a square wave of period `2 * n`.

use vstd::prelude::*;

verus! {

/// Command to control the LED. A blink interval is in milliseconds and is
/// meaningful only when positive.
#[derive(Clone, Copy, Debug, PartialEq, Eq, Structural)]
pub enum LedCmd {
    On,
    Off,
    /// Blink with the given half-period in milliseconds.
    Blink(u64),
}

/// The phase the LED task is in. The phase determines both the LED output
/// level and how the task waits for its next event.
#[derive(Clone, Copy, Debug, PartialEq, Eq, Structural)]
pub enum LedPhase {
    /// Lit or dark indefinitely, waiting for the next command.
    Steady { lit: bool },
    /// Lit half-period of a blink, waiting up to the interval.
    BlinkLit { interval_ms: u64 },
    /// Dark half-period of a blink, waiting up to the interval.
    BlinkDark { interval_ms: u64 },
}

/// What ended the task's wait: a command arrived, or the deadline of a timed
/// wait elapsed first.
#[derive(Clone, Copy, Debug, PartialEq, Eq, Structural)]
pub enum LedEvent {
    Command(LedCmd),
    TimeoutElapsed,
}

/// How the task suspends in a given phase: indefinitely, or up to a deadline
/// that many milliseconds away, racing against command arrival.
#[derive(Clone, Copy, Debug, PartialEq, Eq, Structural)]
pub enum LedWait {
    Forever,
    UpTo(u64),
}

/// The phase a command puts the task in, from any phase.
pub open spec fn phase_of_cmd(c: LedCmd) -> LedPhase {
    match c {
        LedCmd::On => LedPhase::Steady { lit: true },
        LedCmd::Off => LedPhase::Steady { lit: false },
        LedCmd::Blink(interval_ms) => LedPhase::BlinkLit { interval_ms },
    }
}

/// One step of the LED state machine. A command transitions immediately,
/// regardless of phase; an elapsed deadline toggles a blink phase and leaves a
/// steady phase (which never sets a deadline) unchanged.
pub open spec fn led_step_model(p: LedPhase, e: LedEvent) -> LedPhase {
    match e {
        LedEvent::Command(c) => phase_of_cmd(c),
        LedEvent::TimeoutElapsed => match p {
            LedPhase::Steady { lit } => LedPhase::Steady { lit },
            LedPhase::BlinkLit { interval_ms } => LedPhase::BlinkDark { interval_ms },
            LedPhase::BlinkDark { interval_ms } => LedPhase::BlinkLit { interval_ms },
        },
    }
}

/// The LED output level a phase drives.
pub open spec fn led_lit(p: LedPhase) -> bool {
    match p {
        LedPhase::Steady { lit } => lit,
        LedPhase::BlinkLit { .. } => true,
        LedPhase::BlinkDark { .. } => false,
    }
}

/// How the task waits in a phase.
pub open spec fn led_wait_model(p: LedPhase) -> LedWait {
    match p {
        LedPhase::Steady { .. } => LedWait::Forever,
        LedPhase::BlinkLit { interval_ms } => LedWait::UpTo(interval_ms),
        LedPhase::BlinkDark { interval_ms } => LedWait::UpTo(interval_ms),
    }
}

/// The phase the LED task starts in: dark, waiting for the first command.
pub fn led_initial() -> (p: LedPhase)
    ensures
        p == (LedPhase::Steady { lit: false }),
{
    LedPhase::Steady { lit: false }
}

/// Steps the LED state machine by one event.
pub fn led_step(p: LedPhase, e: LedEvent) -> (q: LedPhase)
    ensures
        q == led_step_model(p, e),
{
    match e {
        LedEvent::Command(c) => match c {
            LedCmd::On => LedPhase::Steady { lit: true },
            LedCmd::Off => LedPhase::Steady { lit: false },
            LedCmd::Blink(interval_ms) => LedPhase::BlinkLit { interval_ms },
        },
        LedEvent::TimeoutElapsed => match p {
            LedPhase::Steady { lit } => LedPhase::Steady { lit },
            LedPhase::BlinkLit { interval_ms } => LedPhase::BlinkDark { interval_ms },
            LedPhase::BlinkDark { interval_ms } => LedPhase::BlinkLit { interval_ms },
        },
    }
}

/// The LED output level the task drives on entering a phase.
pub fn led_output(p: &LedPhase) -> (lit: bool)
    ensures
        lit == led_lit(*p),
{
    match p {
        LedPhase::Steady { lit } => *lit,
        LedPhase::BlinkLit { .. } => true,
        LedPhase::BlinkDark { .. } => false,
    }
}

/// How the task suspends after driving the phase's output.
pub fn led_wait(p: &LedPhase) -> (w: LedWait)
    ensures
        w == led_wait_model(*p),
{
    match p {
        LedPhase::Steady { .. } => LedWait::Forever,
        LedPhase::BlinkLit { interval_ms } => LedWait::UpTo(*interval_ms),
        LedPhase::BlinkDark { interval_ms } => LedWait::UpTo(*interval_ms),
    }
}

/// The phase reached from `p` after `k` elapsed deadlines with no command in
/// between.
pub open spec fn led_after_timeouts(p: LedPhase, k: nat) -> LedPhase
    decreases k,
{
    if k == 0 {
        p
    } else {
        led_step_model(led_after_timeouts(p, (k - 1) as nat), LedEvent::TimeoutElapsed)
    }
}

/// Law: a `Blink(n)` command from any phase produces a square wave until the
/// next command. The command lights the LED at once; after `k` undisturbed
/// elapsed deadlines the LED is lit exactly when `k` is even — so, each wait
/// being bounded by `n` milliseconds, the LED is on at time `0`, off at `n`,
/// on at `2 * n`, and so forth; and every phase on the way waits at most `n`,
/// so a command arriving in any phase is taken up immediately.
pub proof fn lemma_blink_square_wave(p0: LedPhase, n: u64, k: nat)
    requires
        n > 0,
    ensures
        led_step_model(p0, LedEvent::Command(LedCmd::Blink(n))) == (LedPhase::BlinkLit {
            interval_ms: n,
        }),
        led_lit(led_after_timeouts(LedPhase::BlinkLit { interval_ms: n }, k)) == (k % 2 == 0),
        led_wait_model(led_after_timeouts(LedPhase::BlinkLit { interval_ms: n }, k)) == LedWait::UpTo(
            n,
        ),
    decreases k,
{
    if k > 0 {
        lemma_blink_square_wave(p0, n, (k - 1) as nat);
        assert(k % 2 == if (k - 1) as nat % 2 == 0 {
            1nat
        } else {
            0nat
        });
    }
}

/// Law: a command preempts the LED task immediately, whatever phase it is in
/// and whichever half of a blink period is running.
pub proof fn lemma_command_preempts(p: LedPhase, c: LedCmd)
    ensures
        led_step_model(p, LedEvent::Command(c)) == phase_of_cmd(c),
{
}

} // verus!
