//! Decisions of the main-thread watchdog.
//!
//! A background loop periodically posts a probe to the main thread and waits
//! for its echo. [`Watchdog`] turns each outcome into what to record: a missed
//! probe is logged, a hang that lasts long enough gets exactly one memory dump,
//! and an answer after a hang is logged as a recovery and re-arms the dump.
//! Known long main-thread blocks (such as an OS drag-and-drop loop) are marked
//! with [`expect_main_thread_block`]; while one is open, misses are only logged
//! until a much higher threshold is reached.
use vstd::prelude::*;

verus! {

/// Consecutive misses after which a dump is written.
pub const DUMP_AFTER_MISSES: u32 = 2;

/// The same threshold while an expected main-thread block is open.
pub const DUMP_AFTER_MISSES_EXPECTED: u32 = 10;

/// A resource sample is logged every this many probes.
pub const RESOURCE_LOG_TICKS: u64 = 10;

/// Marks an expected long main-thread block; hand it back to
/// [`end_main_thread_block`] when the block is over.
#[must_use]
pub struct MainThreadBlockGuard(());

/// How many expected main-thread blocks are open.
pub struct ExpectedBlocks {
    count: u64,
}

impl ExpectedBlocks {
    /// The number of open blocks.
    pub closed spec fn count(&self) -> u64 {
        self.count
    }

    /// No block is open.
    pub fn new() -> (blocks: Self)
        ensures
            blocks.count() == 0,
    {
        ExpectedBlocks { count: 0 }
    }

    /// Whether an expected block is open.
    pub fn is_blocked(&self) -> (blocked: bool)
        ensures
            blocked == (self.count() > 0),
    {
        self.count > 0
    }
}

/// Opens an expected main-thread block (the counter wraps at its maximum).
pub fn expect_main_thread_block(blocks: &mut ExpectedBlocks) -> (guard: MainThreadBlockGuard)
    ensures
        final(blocks).count() == vstd::wrapping::u64_specs::wrapping_add(old(blocks).count(), 1),
{
    blocks.count = blocks.count.wrapping_add(1);
    MainThreadBlockGuard(())
}

/// Closes the block that `guard` marks (the counter wraps at zero).
pub fn end_main_thread_block(blocks: &mut ExpectedBlocks, guard: MainThreadBlockGuard)
    ensures
        final(blocks).count() == vstd::wrapping::u64_specs::wrapping_sub(old(blocks).count(), 1),
{
    let MainThreadBlockGuard(()) = guard;
    blocks.count = blocks.count.wrapping_sub(1);
}

/// Closing a block undoes opening it: the count returns to where it was.
pub proof fn lemma_end_undoes_expect(count: u64)
    ensures
        vstd::wrapping::u64_specs::wrapping_sub(vstd::wrapping::u64_specs::wrapping_add(count, 1), 1)
            == count,
{
}

/// What the watchdog loop does after one probe.
#[derive(Debug, Clone, Copy, PartialEq, Eq, Structural)]
pub struct ProbeReport {
    /// The probe was answered after a hang: log the recovery and its duration.
    pub recovered: bool,
    /// The probe missed and a new hang begins: remember when.
    pub hang_started: bool,
    /// The probe missed.
    pub missed: bool,
    /// Consecutive misses so far (zero when the probe was answered).
    pub misses: u32,
    /// The miss happened while an expected block was open (log it as a warning).
    pub during_expected_block: bool,
    /// Write the memory dump of this hang now.
    pub write_dump: bool,
    /// Log a resource sample after this probe.
    pub log_resources: bool,
}

/// The state of the watchdog loop between probes.
pub struct Watchdog {
    seq: u64,
    consecutive_misses: u32,
    hung: bool,
    dump_attempted: bool,
}

/// The consecutive misses that trigger a dump.
pub open spec fn dump_threshold(expected_block: bool) -> u32 {
    if expected_block {
        DUMP_AFTER_MISSES_EXPECTED
    } else {
        DUMP_AFTER_MISSES
    }
}

impl Watchdog {
    /// Probes sent so far.
    pub closed spec fn seq(&self) -> u64 {
        self.seq
    }

    /// Consecutive unanswered probes.
    pub closed spec fn misses(&self) -> u32 {
        self.consecutive_misses
    }

    /// A hang is in progress.
    pub closed spec fn hung(&self) -> bool {
        self.hung
    }

    /// The dump of the current hang was already attempted.
    pub closed spec fn dump_attempted(&self) -> bool {
        self.dump_attempted
    }

    /// What the watchdog reports after a probe with this outcome.
    pub open spec fn report(&self, answered: bool, expected_block: bool) -> ProbeReport {
        if answered {
            ProbeReport {
                recovered: self.hung(),
                hang_started: false,
                missed: false,
                misses: 0,
                during_expected_block: false,
                write_dump: false,
                log_resources: self.seq() % RESOURCE_LOG_TICKS == 0,
            }
        } else {
            let misses = self.misses_after(false);
            ProbeReport {
                recovered: false,
                hang_started: !self.hung(),
                missed: true,
                misses,
                during_expected_block: expected_block,
                write_dump: misses >= dump_threshold(expected_block) && !self.dump_attempted(),
                log_resources: self.seq() % RESOURCE_LOG_TICKS == 0,
            }
        }
    }

    /// Consecutive misses after a probe with this outcome (the count stays at
    /// its maximum once there).
    pub open spec fn misses_after(&self, answered: bool) -> u32 {
        if answered {
            0
        } else if self.misses() == u32::MAX {
            u32::MAX
        } else {
            (self.misses() + 1) as u32
        }
    }

    /// Whether a hang is in progress after a probe with this outcome.
    pub open spec fn hung_after(&self, answered: bool) -> bool {
        !answered
    }

    /// Whether the dump of the current hang has been attempted after a probe
    /// with this outcome: an answer after a hang re-arms it; a miss that
    /// reaches the threshold uses it up.
    pub open spec fn dump_attempted_after(&self, answered: bool, expected_block: bool) -> bool {
        if answered {
            if self.hung() {
                false
            } else {
                self.dump_attempted()
            }
        } else {
            self.dump_attempted() || self.misses_after(false) >= dump_threshold(expected_block)
        }
    }

    /// The state after a probe with this outcome.
    pub closed spec fn after(&self, answered: bool, expected_block: bool) -> Watchdog {
        Watchdog {
            seq: self.seq,
            consecutive_misses: self.misses_after(answered),
            hung: self.hung_after(answered),
            dump_attempted: self.dump_attempted_after(answered, expected_block),
        }
    }

    /// The loop state is consistent: a hang is in progress exactly when the
    /// last probe went unanswered, and a dump is only attempted during a hang.
    pub closed spec fn wf(&self) -> bool {
        &&& self.hung <==> self.consecutive_misses > 0
        &&& self.dump_attempted ==> self.hung
    }

    /// A watchdog that has sent no probe yet.
    pub fn new() -> (watchdog: Self)
        ensures
            watchdog.seq() == 0,
            watchdog.misses() == 0,
            !watchdog.hung(),
            !watchdog.dump_attempted(),
            watchdog.wf(),
    {
        Watchdog { seq: 0, consecutive_misses: 0, hung: false, dump_attempted: false }
    }

    /// Probes sent so far.
    pub fn probes_sent(&self) -> (sent: u64)
        ensures
            sent == self.seq(),
    {
        self.seq
    }

    /// Consecutive unanswered probes so far.
    pub fn consecutive_misses(&self) -> (misses: u32)
        ensures
            misses == self.misses(),
    {
        self.consecutive_misses
    }

    /// Numbers the next probe.
    pub fn next_probe(&mut self) -> (expected: u64)
        requires
            old(self).seq() < u64::MAX,
        ensures
            expected == old(self).seq() + 1,
            final(self).seq() == expected,
            final(self).misses() == old(self).misses(),
            final(self).hung() == old(self).hung(),
            final(self).dump_attempted() == old(self).dump_attempted(),
            old(self).wf() ==> final(self).wf(),
    {
        self.seq = self.seq + 1;
        self.seq
    }

    /// Records the outcome of the current probe: `answered` tells whether the
    /// main thread echoed it in time, `expected_block` whether an expected
    /// main-thread block is open.
    pub fn on_probe(&mut self, answered: bool, expected_block: bool) -> (report: ProbeReport)
        ensures
            report == old(self).report(answered, expected_block),
            *final(self) == old(self).after(answered, expected_block),
            final(self).seq() == old(self).seq(),
            final(self).misses() == old(self).misses_after(answered),
            final(self).hung() == old(self).hung_after(answered),
            final(self).dump_attempted() == old(self).dump_attempted_after(answered, expected_block),
    {
        let log_resources = self.seq % RESOURCE_LOG_TICKS == 0;
        if answered {
            let recovered = self.hung;
            if self.hung {
                self.hung = false;
                self.dump_attempted = false;
            }
            self.consecutive_misses = 0;
            ProbeReport {
                recovered,
                hang_started: false,
                missed: false,
                misses: 0,
                during_expected_block: false,
                write_dump: false,
                log_resources,
            }
        } else {
            if self.consecutive_misses < u32::MAX {
                self.consecutive_misses = self.consecutive_misses + 1;
            }
            let hang_started = !self.hung;
            self.hung = true;
            let threshold = if expected_block {
                DUMP_AFTER_MISSES_EXPECTED
            } else {
                DUMP_AFTER_MISSES
            };
            let mut write_dump = false;
            if self.consecutive_misses >= threshold && !self.dump_attempted {
                self.dump_attempted = true;
                write_dump = true;
            }
            ProbeReport {
                recovered: false,
                hang_started,
                missed: true,
                misses: self.consecutive_misses,
                during_expected_block: expected_block,
                write_dump,
                log_resources,
            }
        }
    }
}

/// One hang, at most one dump: once the dump of a hang was attempted, no
/// further probe outcome asks for another until the main thread answers again,
/// and an answer after a hang reports the recovery and re-arms the dump.
pub proof fn lemma_one_dump_per_hang(watchdog: Watchdog, answered: bool, expected_block: bool)
    ensures
        watchdog.dump_attempted() ==> !watchdog.report(answered, expected_block).write_dump,
        watchdog.report(answered, expected_block).write_dump ==> watchdog.dump_attempted_after(
            answered,
            expected_block,
        ),
        !answered ==> (watchdog.dump_attempted() ==> watchdog.dump_attempted_after(
            answered,
            expected_block,
        )),
        (answered && watchdog.hung()) ==> watchdog.report(answered, expected_block).recovered
            && !watchdog.dump_attempted_after(answered, expected_block),
{
}

/// A dump is written only after enough consecutive misses (two, or ten while
/// an expected block is open), and it is not held back once they are reached
/// for a hang that has no dump yet.
pub proof fn lemma_dump_exactly_at_threshold(watchdog: Watchdog, answered: bool, expected_block: bool)
    ensures
        watchdog.report(answered, expected_block).write_dump <==> (!answered && !watchdog.dump_attempted()
            && watchdog.misses_after(false) >= dump_threshold(expected_block)),
        watchdog.report(answered, expected_block).write_dump ==> watchdog.report(
            answered,
            expected_block,
        ).misses >= dump_threshold(expected_block),
{
}

/// An answered probe ends any hang: the miss count drops to zero and nothing
/// is reported missed.
pub proof fn lemma_answer_resets(watchdog: Watchdog, expected_block: bool)
    ensures
        watchdog.misses_after(true) == 0,
        !watchdog.hung_after(true),
        !watchdog.report(true, expected_block).missed,
{
}

/// The watchdog's state after the probe outcomes `outcomes`, in order; each
/// outcome is (answered, expected block open).
pub open spec fn run(watchdog: Watchdog, outcomes: Seq<(bool, bool)>) -> Watchdog
    decreases outcomes.len(),
{
    if outcomes.len() == 0 {
        watchdog
    } else {
        run(watchdog, outcomes.drop_last()).after(outcomes.last().0, outcomes.last().1)
    }
}

/// The report on the last of `outcomes`.
pub open spec fn last_report(watchdog: Watchdog, outcomes: Seq<(bool, bool)>) -> ProbeReport {
    run(watchdog, outcomes.drop_last()).report(outcomes.last().0, outcomes.last().1)
}

/// How many of the reports on `outcomes` ask for a dump.
pub open spec fn dumps(watchdog: Watchdog, outcomes: Seq<(bool, bool)>) -> nat
    decreases outcomes.len(),
{
    if outcomes.len() == 0 {
        0
    } else {
        dumps(watchdog, outcomes.drop_last()) + if last_report(watchdog, outcomes).write_dump {
            1nat
        } else {
            0nat
        }
    }
}

/// No probe among `outcomes` was answered.
pub open spec fn all_missed(outcomes: Seq<(bool, bool)>) -> bool {
    forall|i: int| 0 <= i < outcomes.len() ==> !(#[trigger] outcomes[i]).0
}

/// `n`, held at the counter's maximum.
pub open spec fn capped(n: nat) -> u32 {
    if n < u32::MAX {
        n as u32
    } else {
        u32::MAX
    }
}

/// Every probe outcome keeps the loop state consistent.
pub proof fn lemma_probe_keeps_wf(watchdog: Watchdog, answered: bool, expected_block: bool)
    requires
        watchdog.wf(),
    ensures
        watchdog.after(answered, expected_block).wf(),
{
}

/// An answer ends a hang episode: the miss count is zero, no hang is in
/// progress and the dump is armed again, so a later hang can be dumped; the
/// answer reports a recovery exactly when a hang was in progress.
pub proof fn lemma_answer_rearms(watchdog: Watchdog, expected_block: bool)
    requires
        watchdog.wf(),
    ensures
        watchdog.after(true, expected_block).misses() == 0,
        !watchdog.after(true, expected_block).hung(),
        !watchdog.after(true, expected_block).dump_attempted(),
        watchdog.report(true, expected_block).recovered == watchdog.hung(),
{
}

/// A hang episode, a run of missed probes from a state with no hang in
/// progress, asks for at most one dump. Its m-th miss reports m consecutive
/// misses (held at the counter's maximum) and asks for the dump exactly when
/// m reaches that probe's threshold (two, or ten while an expected block is
/// open) and no earlier miss of the episode asked for it.
pub proof fn lemma_hang_episode(watchdog: Watchdog, outcomes: Seq<(bool, bool)>)
    requires
        watchdog.wf(),
        !watchdog.hung(),
        all_missed(outcomes),
    ensures
        dumps(watchdog, outcomes) <= 1,
        run(watchdog, outcomes).misses() == capped(outcomes.len()),
        run(watchdog, outcomes).dump_attempted() <==> dumps(watchdog, outcomes) == 1,
        outcomes.len() > 0 ==> last_report(watchdog, outcomes).misses == capped(outcomes.len()),
        outcomes.len() > 0 ==> (last_report(watchdog, outcomes).write_dump <==> (outcomes.len()
            >= dump_threshold(outcomes.last().1) && dumps(watchdog, outcomes.drop_last()) == 0)),
    decreases outcomes.len(),
{
    if outcomes.len() > 0 {
        let prefix = outcomes.drop_last();
        assert(all_missed(prefix)) by {
            assert forall|i: int| 0 <= i < prefix.len() implies !(#[trigger] prefix[i]).0 by {
                assert(prefix[i] == outcomes[i]);
            }
        }
        assert(!outcomes[outcomes.len() - 1].0);
        lemma_hang_episode(watchdog, prefix);
    }
}

/// Every probe is reported for what it was: an unanswered probe is always
/// reported as missed (with at least one consecutive miss, a new hang exactly
/// when none was in progress, and never as a recovery); an answered probe is
/// never missed, asks for no dump and reports a recovery exactly when a hang
/// was in progress. Both count toward the resource-log period alike.
pub proof fn lemma_every_probe_is_reported(watchdog: Watchdog, expected_block: bool)
    ensures
        watchdog.report(false, expected_block).missed,
        watchdog.report(false, expected_block).misses >= 1,
        watchdog.report(false, expected_block).hang_started == !watchdog.hung(),
        !watchdog.report(false, expected_block).recovered,
        watchdog.report(false, expected_block).during_expected_block == expected_block,
        !watchdog.report(true, expected_block).missed,
        watchdog.report(true, expected_block).misses == 0,
        !watchdog.report(true, expected_block).write_dump,
        !watchdog.report(true, expected_block).hang_started,
        watchdog.report(true, expected_block).recovered == watchdog.hung(),
        watchdog.report(true, expected_block).log_resources == watchdog.report(
            false,
            expected_block,
        ).log_resources,
        watchdog.report(true, expected_block).log_resources == (watchdog.seq() % 10 == 0),
{
}

/// Every miss of a hang episode is reported as missed, with the running count
/// of misses (held at the counter's maximum).
pub proof fn lemma_every_miss_of_an_episode_is_reported(watchdog: Watchdog, outcomes: Seq<(bool, bool)>)
    requires
        watchdog.wf(),
        !watchdog.hung(),
        all_missed(outcomes),
        outcomes.len() > 0,
    ensures
        last_report(watchdog, outcomes).missed,
        last_report(watchdog, outcomes).misses == capped(outcomes.len()),
        last_report(watchdog, outcomes).hang_started == (outcomes.len() == 1),
{
    lemma_hang_episode(watchdog, outcomes);
    if outcomes.len() > 1 {
        lemma_hang_episode(watchdog, outcomes.drop_last());
    }
}

/// Hang dumps kept in the log directory at most.
pub const MAX_HANG_DUMPS: usize = 3;

/// `s` begins with `prefix`.
pub open spec fn has_prefix(s: Seq<char>, prefix: Seq<char>) -> bool {
    prefix.len() <= s.len() && s.subrange(0, prefix.len() as int) == prefix
}

/// `s` ends with `suffix`.
pub open spec fn has_suffix(s: Seq<char>, suffix: Seq<char>) -> bool {
    suffix.len() <= s.len() && s.subrange(s.len() - suffix.len(), s.len() as int) == suffix
}

fn starts_with(s: &str, prefix: &str) -> (yes: bool)
    ensures
        yes == has_prefix(s@, prefix@),
{
    let n = s.unicode_len();
    let m = prefix.unicode_len();
    if m > n {
        return false;
    }
    let mut i: usize = 0;
    while i < m
        invariant
            m == prefix@.len(),
            n == s@.len(),
            m <= n,
            i <= m,
            forall|j: int| 0 <= j < i ==> s@[j] == prefix@[j],
        decreases m - i,
    {
        if s.get_char(i) != prefix.get_char(i) {
            assert(s@.subrange(0, m as int)[i as int] != prefix@[i as int]);
            return false;
        }
        i = i + 1;
    }
    assert(s@.subrange(0, m as int) =~= prefix@);
    true
}

fn ends_with(s: &str, suffix: &str) -> (yes: bool)
    ensures
        yes == has_suffix(s@, suffix@),
{
    let n = s.unicode_len();
    let m = suffix.unicode_len();
    if m > n {
        return false;
    }
    let start = n - m;
    let mut i: usize = 0;
    while i < m
        invariant
            m == suffix@.len(),
            n == s@.len(),
            start == n - m,
            i <= m,
            forall|j: int| 0 <= j < i ==> s@[start + j] == suffix@[j],
        decreases m - i,
    {
        if s.get_char(start + i) != suffix.get_char(i) {
            assert(s@.subrange(start as int, n as int)[i as int] != suffix@[i as int]);
            return false;
        }
        i = i + 1;
    }
    assert(s@.subrange(start as int, n as int) =~= suffix@);
    true
}

/// Whether a file in the log directory is a hang dump (`hang-*.dmp`).
pub fn is_hang_dump(file_name: &str) -> (dump: bool)
    ensures
        dump == (has_prefix(file_name@, "hang-"@) && has_suffix(file_name@, ".dmp"@)),
{
    starts_with(file_name, "hang-") && ends_with(file_name, ".dmp")
}

/// Whether another hang dump may be written when `existing` are already kept.
pub fn may_write_dump(existing: usize) -> (allowed: bool)
    ensures
        allowed == (existing < MAX_HANG_DUMPS),
{
    existing < MAX_HANG_DUMPS
}

} // verus!
