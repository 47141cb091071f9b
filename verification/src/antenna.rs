//! Antenna-switch state machine: three mutually exclusive GPIO output lines
//! (receive enable, transmit low-power enable, transmit boost enable) select
//! the RF signal path. Switching always deasserts all three lines before
//! asserting the target line, so no observable intermediate state ever has
//! two lines asserted at once.

use vstd::prelude::*;

verus! {

/// Level driven onto one GPIO output line; `high == true` means asserted.
#[derive(Clone, Copy, Debug, PartialEq, Eq, Structural)]
pub struct OutputLine {
    pub high: bool,
}

impl OutputLine {
    /// Drive the line high (asserted).
    pub fn set_high(&mut self)
        ensures
            final(self).high,
    {
        self.high = true;
    }

    /// Drive the line low (deasserted).
    pub fn set_low(&mut self)
        ensures
            !final(self).high,
    {
        self.high = false;
    }
}

/// RF signal-path mode requested by the radio driver. The external driver's
/// enumeration may carry further values; the board binding ignores those, so
/// only the three modes this board implements appear here.
#[derive(Clone, Copy, PartialEq, Eq, Structural)]
pub enum AntennaMode {
    Sleep,
    Transmit,
    Receive,
}

/// Levels of the three antenna-switch lines, in one observable snapshot.
#[derive(Clone, Copy, PartialEq, Eq, Structural)]
pub struct LineLevels {
    pub rx: bool,
    pub tx_rfo: bool,
    pub tx_boost: bool,
}

/// How many of the three lines are asserted.
pub open spec fn asserted_count(l: LineLevels) -> int {
    (if l.rx { 1int } else { 0int }) + (if l.tx_rfo { 1int } else { 0int })
        + (if l.tx_boost { 1int } else { 0int })
}

/// The mutual-exclusion invariant of the switch: never two lines asserted.
pub open spec fn at_most_one_asserted(l: LineLevels) -> bool {
    asserted_count(l) <= 1
}

/// The line levels that select a given mode: all low for `Sleep`, exactly the
/// boost line for `Transmit`, exactly the receive line for `Receive`.
pub open spec fn lines_for_mode(mode: AntennaMode) -> LineLevels {
    match mode {
        AntennaMode::Sleep => LineLevels { rx: false, tx_rfo: false, tx_boost: false },
        AntennaMode::Transmit => LineLevels { rx: false, tx_rfo: false, tx_boost: true },
        AntennaMode::Receive => LineLevels { rx: true, tx_rfo: false, tx_boost: false },
    }
}

/// Every snapshot observable while switching from levels `s` to `mode`, in
/// order: one entry after each single-line GPIO write. All three lines are
/// driven low first (in the order rx, tx_rfo, tx_boost), then the target
/// line, if any, is driven high.
pub open spec fn transition_states(s: LineLevels, mode: AntennaMode) -> Seq<LineLevels> {
    let s1 = LineLevels { rx: false, tx_rfo: s.tx_rfo, tx_boost: s.tx_boost };
    let s2 = LineLevels { rx: false, tx_rfo: false, tx_boost: s.tx_boost };
    let s3 = LineLevels { rx: false, tx_rfo: false, tx_boost: false };
    match mode {
        AntennaMode::Sleep => seq![s1, s2, s3],
        AntennaMode::Transmit => seq![s1, s2, s3, lines_for_mode(mode)],
        AntennaMode::Receive => seq![s1, s2, s3, lines_for_mode(mode)],
    }
}

/// The three antenna-switch output lines. Exactly one mode's line pattern is
/// driven after each `set_*` call, through the all-low transient.
pub struct AntennaSwitches {
    pub rx: OutputLine,
    pub tx_rfo: OutputLine,
    pub tx_boost: OutputLine,
}

impl AntennaSwitches {
    /// Snapshot of the three line levels.
    pub open spec fn lines(&self) -> LineLevels {
        LineLevels { rx: self.rx.high, tx_rfo: self.tx_rfo.high, tx_boost: self.tx_boost.high }
    }

    pub fn new(rx: OutputLine, tx_rfo: OutputLine, tx_boost: OutputLine) -> (s: AntennaSwitches)
        ensures
            s.rx == rx,
            s.tx_rfo == tx_rfo,
            s.tx_boost == tx_boost,
    {
        AntennaSwitches { rx, tx_rfo, tx_boost }
    }

    /// Select `Sleep`: deassert all three lines. Each write below lands on
    /// the next snapshot of `transition_states`, checked in place.
    pub fn set_sleep(&mut self)
        ensures
            final(self).lines() == lines_for_mode(AntennaMode::Sleep),
    {
        let ghost s0 = self.lines();
        self.rx.set_low();
        assert(self.lines() == transition_states(s0, AntennaMode::Sleep)[0]);
        self.tx_rfo.set_low();
        assert(self.lines() == transition_states(s0, AntennaMode::Sleep)[1]);
        self.tx_boost.set_low();
        assert(self.lines() == transition_states(s0, AntennaMode::Sleep)[2]);
    }

    /// Select `Transmit`: deassert all three lines, then assert the boost
    /// line, so the transient passes through all-low. Each write below lands
    /// on the next snapshot of `transition_states`, checked in place.
    pub fn set_tx(&mut self)
        ensures
            final(self).lines() == lines_for_mode(AntennaMode::Transmit),
    {
        let ghost s0 = self.lines();
        self.rx.set_low();
        assert(self.lines() == transition_states(s0, AntennaMode::Transmit)[0]);
        self.tx_rfo.set_low();
        assert(self.lines() == transition_states(s0, AntennaMode::Transmit)[1]);
        self.tx_boost.set_low();
        assert(self.lines() == transition_states(s0, AntennaMode::Transmit)[2]);
        self.tx_boost.set_high();
        assert(self.lines() == transition_states(s0, AntennaMode::Transmit)[3]);
    }

    /// Select `Receive`: deassert all three lines, then assert the receive
    /// line, so the transient passes through all-low. Each write below lands
    /// on the next snapshot of `transition_states`, checked in place.
    pub fn set_rx(&mut self)
        ensures
            final(self).lines() == lines_for_mode(AntennaMode::Receive),
    {
        let ghost s0 = self.lines();
        self.rx.set_low();
        assert(self.lines() == transition_states(s0, AntennaMode::Receive)[0]);
        self.tx_rfo.set_low();
        assert(self.lines() == transition_states(s0, AntennaMode::Receive)[1]);
        self.tx_boost.set_low();
        assert(self.lines() == transition_states(s0, AntennaMode::Receive)[2]);
        self.rx.set_high();
        assert(self.lines() == transition_states(s0, AntennaMode::Receive)[3]);
    }

    /// Select the lines for `mode`, via the same deassert-then-assert order.
    pub fn set_mode(&mut self, mode: AntennaMode)
        ensures
            final(self).lines() == lines_for_mode(mode),
    {
        match mode {
            AntennaMode::Sleep => self.set_sleep(),
            AntennaMode::Transmit => self.set_tx(),
            AntennaMode::Receive => self.set_rx(),
        }
    }
}

/// After a mode switch the switch holds exactly the target mode's pattern:
/// for `Transmit` and `Receive` exactly one line is asserted and it is the
/// mode's own line; `Sleep` leaves all three deasserted.
pub proof fn lemma_mode_line_exclusive(mode: AntennaMode)
    ensures
        at_most_one_asserted(lines_for_mode(mode)),
        mode != AntennaMode::Sleep ==> asserted_count(lines_for_mode(mode)) == 1,
        mode == AntennaMode::Transmit ==> lines_for_mode(mode).tx_boost,
        mode == AntennaMode::Receive ==> lines_for_mode(mode).rx,
        mode == AntennaMode::Sleep ==> asserted_count(lines_for_mode(mode)) == 0,
{
}

/// No observable snapshot during a single mode switch has two lines asserted,
/// provided the switch starts within its invariant; and the switch ends on
/// the target mode's pattern.
pub proof fn lemma_transition_glitch_free(s: LineLevels, mode: AntennaMode)
    requires
        at_most_one_asserted(s),
    ensures
        forall|i: int|
            0 <= i < transition_states(s, mode).len() ==> at_most_one_asserted(
                #[trigger] transition_states(s, mode)[i],
            ),
        transition_states(s, mode).last() == lines_for_mode(mode),
{
}

/// Every snapshot observable while applying `modes` in order, starting from
/// levels `s`: the concatenation of each step's transition snapshots, each
/// step starting where the one before ended.
pub open spec fn run_observations(s: LineLevels, modes: Seq<AntennaMode>) -> Seq<LineLevels>
    decreases modes.len(),
{
    if modes.len() == 0 {
        Seq::empty()
    } else {
        transition_states(s, modes[0]) + run_observations(
            lines_for_mode(modes[0]),
            modes.skip(1),
        )
    }
}

/// For any sequence of mode transitions from a state within the invariant,
/// no observation ever shows two lines simultaneously asserted.
pub proof fn lemma_run_glitch_free(s: LineLevels, modes: Seq<AntennaMode>)
    requires
        at_most_one_asserted(s),
    ensures
        forall|i: int|
            0 <= i < run_observations(s, modes).len() ==> at_most_one_asserted(
                #[trigger] run_observations(s, modes)[i],
            ),
    decreases modes.len(),
{
    if modes.len() > 0 {
        let head = transition_states(s, modes[0]);
        let tail = run_observations(lines_for_mode(modes[0]), modes.skip(1));
        lemma_transition_glitch_free(s, modes[0]);
        lemma_mode_line_exclusive(modes[0]);
        lemma_run_glitch_free(lines_for_mode(modes[0]), modes.skip(1));
        assert forall|i: int|
            0 <= i < run_observations(s, modes).len() implies at_most_one_asserted(
            #[trigger] run_observations(s, modes)[i],
        ) by {
            if i < head.len() {
                assert(run_observations(s, modes)[i] == head[i]);
            } else {
                assert(run_observations(s, modes)[i] == tail[i - head.len()]);
            }
        }
    }
}

} // verus!
