//! The self-test of the mailbox interrupt: inject a message and see whether the
//! handler runs.

use vstd::prelude::*;

use crate::mailbox::{
    irq_offset, new_msg_mask, signal_writes, K3MboxMmio, RegWrite, K3_MBOX_CHANNELS,
    K3_MBOX_IRQ_EN_SET_OFF, K3_MBOX_IRQ_STATUS_OFF,
};
use crate::wait::ShmError;

verus! {

/// Number of messages that the test injects before it gives up.
pub const SELFTEST_ATTEMPTS: u32 = 3;

/// Number of times the test looks at the interrupt count after each message.
pub const SELFTEST_SPINS: u32 = 100_000;

/// What the self-test wants done next.
#[derive(Debug, Clone, Copy, PartialEq, Eq)]
pub enum TestAction {
    /// Write a mailbox register.
    Write(RegWrite),
    /// Say how many mailbox interrupts have been handled.
    Count,
    /// Read a mailbox register, for the log.
    Read { offset: usize },
    /// Nothing: this is the outcome.
    Return(Result<usize, ShmError>),
}

/// Looks at the count at most `spins` times. Once it differs from `before`, the
/// test is over; if it never does, the attempt has failed. `env(i)` is what
/// action `i` answers.
pub open spec fn spin_trace(
    user: u8,
    channel: u8,
    before: usize,
    attempts: nat,
    spins: nat,
    env: spec_fn(int) -> usize,
    i: int,
) -> Seq<TestAction>
    decreases attempts, 1int, spins,
{
    if spins == 0 {
        failed_trace(user, channel, before, attempts, env, i)
    } else if env(i) != before {
        seq![TestAction::Count, TestAction::Return(Ok((env(i) - before) as usize))]
    } else {
        seq![TestAction::Count] + spin_trace(
            user,
            channel,
            before,
            attempts,
            (spins - 1) as nat,
            env,
            i + 1,
        )
    }
}

/// After an attempt that failed: show the raw status and the enable register in
/// the log, then try again or give up.
pub open spec fn failed_trace(
    user: u8,
    channel: u8,
    before: usize,
    attempts: nat,
    env: spec_fn(int) -> usize,
    i: int,
) -> Seq<TestAction>
    decreases attempts, 0int, 0nat,
{
    seq![
        TestAction::Read { offset: irq_offset(user, K3_MBOX_IRQ_STATUS_OFF) as usize },
        TestAction::Read { offset: irq_offset(user, K3_MBOX_IRQ_EN_SET_OFF) as usize },
    ] + (if attempts <= 1 {
        seq![TestAction::Return(Err(ShmError::Io))]
    } else {
        attempt_trace(user, channel, before, (attempts - 1) as nat, env, i + 2)
    })
}

/// At most `attempts` attempts: enable the interrupt, inject a message, and look
/// at the count.
pub open spec fn attempt_trace(
    user: u8,
    channel: u8,
    before: usize,
    attempts: nat,
    env: spec_fn(int) -> usize,
    i: int,
) -> Seq<TestAction>
    decreases attempts, 2int, 0nat,
{
    let enable = RegWrite {
        offset: irq_offset(user, K3_MBOX_IRQ_EN_SET_OFF) as usize,
        value: new_msg_mask(channel),
    };
    let inject = signal_writes(channel, user);
    seq![
        TestAction::Write(enable),
        TestAction::Write(inject[0]),
        TestAction::Write(inject[1]),
    ] + spin_trace(user, channel, before, attempts, SELFTEST_SPINS as nat, env, i + 3)
}

/// Every action of a whole run, if action `i + k` answers `env(i + k)`.
pub open spec fn selftest_trace(
    user: u8,
    channel: u8,
    before: usize,
    env: spec_fn(int) -> usize,
    i: int,
) -> Seq<TestAction> {
    attempt_trace(user, channel, before, SELFTEST_ATTEMPTS as nat, env, i)
}

/// Where a run stands.
#[derive(Debug, Clone, Copy)]
enum TestPhase {
    /// Enable the interrupt.
    Enable,
    /// First write of the injected message.
    InjectFirst,
    /// Second write of the injected message.
    InjectSecond,
    /// Look at the count; at most `left` looks of this attempt are left.
    Spin { left: u32 },
    /// Show the raw status.
    ShowStatus,
    /// Show the enable register.
    ShowEnable,
    /// The test is over.
    Finished(Result<usize, ShmError>),
}

/// A run of the self-test.
///
/// The caller carries out what [`SelfTest::action`] says and reports back with
/// [`SelfTest::resume`], until the action is [`TestAction::Return`].
#[derive(Debug, Clone, Copy)]
pub struct SelfTest {
    mbox: K3MboxMmio,
    channel: u8,
    before: usize,
    /// Attempts that are left, the current one counted.
    attempts: u32,
    phase: TestPhase,
}

impl SelfTest {
    /// The interrupt count that the run started from.
    pub closed spec fn before(&self) -> usize {
        self.before
    }

    /// The run is about to look at the interrupt count.
    pub closed spec fn counting(&self) -> bool {
        self.phase is Spin
    }

    /// Validity of a run.
    pub closed spec fn wf(&self) -> bool {
        &&& self.channel < K3_MBOX_CHANNELS
        &&& 1 <= self.attempts <= SELFTEST_ATTEMPTS
        &&& self.phase matches TestPhase::Spin { left } ==> 1 <= left <= SELFTEST_SPINS
    }

    /// Every action that is still to come, if action `i + k` answers
    /// `env(i + k)`.
    pub closed spec fn remaining(&self, env: spec_fn(int) -> usize, i: int) -> Seq<TestAction> {
        let (u, c, b, a) = (self.mbox.user_local, self.channel, self.before, self.attempts as nat);
        let inject = signal_writes(c, u);
        match self.phase {
            TestPhase::Enable => attempt_trace(u, c, b, a, env, i),
            TestPhase::InjectFirst => seq![
                TestAction::Write(inject[0]),
                TestAction::Write(inject[1]),
            ] + spin_trace(u, c, b, a, SELFTEST_SPINS as nat, env, i + 2),
            TestPhase::InjectSecond => seq![TestAction::Write(inject[1])] + spin_trace(
                u,
                c,
                b,
                a,
                SELFTEST_SPINS as nat,
                env,
                i + 1,
            ),
            TestPhase::Spin { left } => spin_trace(u, c, b, a, left as nat, env, i),
            TestPhase::ShowStatus => failed_trace(u, c, b, a, env, i),
            TestPhase::ShowEnable => failed_trace(u, c, b, a, env, i - 1).drop_first(),
            TestPhase::Finished(outcome) => seq![TestAction::Return(outcome)],
        }
    }

    /// A test of the mailbox interrupt on `channel`, which starts when `before`
    /// interrupts have been handled.
    pub fn start(mbox: K3MboxMmio, channel: u8, before: usize) -> (run: Self)
        requires
            channel < K3_MBOX_CHANNELS,
        ensures
            run.wf(),
            run.before() == before,
            forall|env: spec_fn(int) -> usize, i: int| #[trigger]
                run.remaining(env, i) == selftest_trace(mbox.user_local, channel, before, env, i),
    {
        Self { mbox, channel, before, attempts: SELFTEST_ATTEMPTS, phase: TestPhase::Enable }
    }

    /// What the test wants done next: the first of the actions that are still
    /// to come.
    pub fn action(&self) -> (action: TestAction)
        requires
            self.wf(),
        ensures
            action is Count <==> self.counting(),
            forall|env: spec_fn(int) -> usize, i: int|
                (#[trigger] self.remaining(env, i)).len() > 0 && self.remaining(env, i)[0]
                    == action,
    {
        match self.phase {
            TestPhase::Enable => TestAction::Write(self.mbox.enable_rx(self.channel)),
            TestPhase::InjectFirst => TestAction::Write(
                self.mbox.inject_local_message(self.channel)[0],
            ),
            TestPhase::InjectSecond => TestAction::Write(
                self.mbox.inject_local_message(self.channel)[1],
            ),
            TestPhase::Spin { left: _ } => TestAction::Count,
            TestPhase::ShowStatus => TestAction::Read { offset: self.mbox.debug_irq_raw().0 },
            TestPhase::ShowEnable => TestAction::Read { offset: self.mbox.debug_irq_raw().1 },
            TestPhase::Finished(outcome) => TestAction::Return(outcome),
        }
    }

    /// Goes on after the action that [`SelfTest::action`] asked for. `value` is
    /// the answer, where the action was a question; a count never goes back.
    pub fn resume(&mut self, value: usize)
        requires
            old(self).wf(),
            old(self).counting() ==> value >= old(self).before(),
        ensures
            final(self).wf(),
            final(self).before() == old(self).before(),
            forall|env: spec_fn(int) -> usize, i: int|
                env(i) == value && !((#[trigger] old(self).remaining(env, i))[0] is Return)
                    ==> final(self).remaining(env, i + 1) == old(self).remaining(
                    env,
                    i,
                ).drop_first(),
            forall|env: spec_fn(int) -> usize, i: int|
                (#[trigger] old(self).remaining(env, i))[0] is Return ==> *final(self) == *old(
                    self,
                ),
    {
        match self.phase {
            TestPhase::Enable => {
                self.phase = TestPhase::InjectFirst;
            },
            TestPhase::InjectFirst => {
                self.phase = TestPhase::InjectSecond;
            },
            TestPhase::InjectSecond => {
                self.phase = TestPhase::Spin { left: SELFTEST_SPINS };
            },
            TestPhase::Spin { left } => {
                if value != self.before {
                    self.phase = TestPhase::Finished(Ok(value - self.before));
                } else if left == 1 {
                    self.phase = TestPhase::ShowStatus;
                } else {
                    self.phase = TestPhase::Spin { left: left - 1 };
                }
            },
            TestPhase::ShowStatus => {
                self.phase = TestPhase::ShowEnable;
            },
            TestPhase::ShowEnable => {
                if self.attempts == 1 {
                    self.phase = TestPhase::Finished(Err(ShmError::Io));
                } else {
                    self.attempts = self.attempts - 1;
                    self.phase = TestPhase::Enable;
                }
            },
            TestPhase::Finished(_) => {},
        }
        proof {
            assert forall|env: spec_fn(int) -> usize, i: int|
                env(i) == value && !((#[trigger] old(self).remaining(env, i))[0] is Return) implies
                self.remaining(env, i + 1) == old(self).remaining(env, i).drop_first() by {
                reveal_with_fuel(spin_trace, 2);
                assert(self.remaining(env, i + 1) =~= old(self).remaining(env, i).drop_first());
            }
        }
    }
}

/// The outcome of a run that made the actions `t`, action `i + k` of which
/// answered `env(i + k)`, is the right one: the test succeeds with the number of
/// interrupts that came if a look found one, and fails if none did.
pub open spec fn outcome_is_right(
    t: Seq<TestAction>,
    before: usize,
    env: spec_fn(int) -> usize,
    i: int,
) -> bool {
    &&& t.len() >= 1
    &&& forall|k: int| 0 <= k < t.len() - 1 ==> !(#[trigger] t[k] is Return)
    &&& t.last() matches TestAction::Return(outcome)
    &&& match outcome {
        Ok(n) => {
            &&& t.len() >= 2
            &&& t[t.len() - 2] is Count
            &&& n > 0
            &&& n == env(i + t.len() - 2) - before
            &&& forall|k: int|
                0 <= k < t.len() - 2 && #[trigger] t[k] is Count ==> env(i + k) == before
        },
        Err(e) => {
            &&& e == ShmError::Io
            &&& forall|k: int| 0 <= k < t.len() && #[trigger] t[k] is Count ==> env(i + k) == before
        },
    }
}

proof fn lemma_outcome_prepend(
    head: Seq<TestAction>,
    t: Seq<TestAction>,
    before: usize,
    env: spec_fn(int) -> usize,
    i: int,
)
    requires
        forall|k: int| 0 <= k < head.len() ==> !(#[trigger] head[k] is Return),
        forall|k: int| 0 <= k < head.len() && #[trigger] head[k] is Count ==> env(i + k) == before,
        outcome_is_right(t, before, env, i + head.len()),
    ensures
        outcome_is_right(head + t, before, env, i),
{
    let all = head + t;
    assert(all.last() == t.last());
    assert forall|k: int| 0 <= k < all.len() - 1 implies !(#[trigger] all[k] is Return) by {
        if k >= head.len() {
            assert(all[k] == t[k - head.len()]);
        } else {
            assert(all[k] == head[k]);
        }
    }
    let bound = if t.last() is Return && t.last()->Return_0 is Ok {
        all.len() - 2
    } else {
        all.len() as int
    };
    assert forall|k: int| 0 <= k < bound && #[trigger] all[k] is Count implies env(i + k)
        == before by {
        if k >= head.len() {
            assert(all[k] == t[k - head.len()]);
            assert(env(i + head.len() + (k - head.len())) == before);
        } else {
            assert(all[k] == head[k]);
        }
    }
    if t.last()->Return_0 is Ok {
        assert(all[all.len() - 2] == t[t.len() - 2]);
        assert(i + head.len() + t.len() - 2 == i + all.len() - 2);
    }
}

proof fn lemma_attempts(
    user: u8,
    channel: u8,
    before: usize,
    attempts: nat,
    env: spec_fn(int) -> usize,
    i: int,
)
    requires
        attempts >= 1,
        forall|k: int| #[trigger] env(k) >= before,
    ensures
        outcome_is_right(attempt_trace(user, channel, before, attempts, env, i), before, env, i),
        attempt_trace(user, channel, before, attempts, env, i).len() <= attempts * (SELFTEST_SPINS
            + 5) + 1,
    decreases attempts, 1int, 0nat,
{
    let enable = RegWrite {
        offset: irq_offset(user, K3_MBOX_IRQ_EN_SET_OFF) as usize,
        value: new_msg_mask(channel),
    };
    let inject = signal_writes(channel, user);
    let head = seq![
        TestAction::Write(enable),
        TestAction::Write(inject[0]),
        TestAction::Write(inject[1]),
    ];
    let rest = spin_trace(user, channel, before, attempts, SELFTEST_SPINS as nat, env, i + 3);
    lemma_spins(user, channel, before, attempts, SELFTEST_SPINS as nat, env, i + 3);
    assert forall|k: int| 0 <= k < head.len() implies #[trigger] head[k] is Write by {}
    lemma_outcome_prepend(head, rest, before, env, i);
    assert(attempts * (SELFTEST_SPINS + 5) == (attempts - 1) * (SELFTEST_SPINS + 5)
        + SELFTEST_SPINS + 5) by (nonlinear_arith);
}

proof fn lemma_spins(
    user: u8,
    channel: u8,
    before: usize,
    attempts: nat,
    spins: nat,
    env: spec_fn(int) -> usize,
    i: int,
)
    requires
        attempts >= 1,
        forall|k: int| #[trigger] env(k) >= before,
    ensures
        outcome_is_right(
            spin_trace(user, channel, before, attempts, spins, env, i),
            before,
            env,
            i,
        ),
        spin_trace(user, channel, before, attempts, spins, env, i).len() <= spins + 3 + (attempts
            - 1) * (SELFTEST_SPINS + 5),
    decreases attempts, 0int, spins,
{
    let t = spin_trace(user, channel, before, attempts, spins, env, i);
    if spins == 0 {
        assert(t == failed_trace(user, channel, before, attempts, env, i));
        reveal_with_fuel(failed_trace, 2);
        let head = seq![
            TestAction::Read { offset: irq_offset(user, K3_MBOX_IRQ_STATUS_OFF) as usize },
            TestAction::Read { offset: irq_offset(user, K3_MBOX_IRQ_EN_SET_OFF) as usize },
        ];
        assert forall|k: int| 0 <= k < head.len() implies #[trigger] head[k] is Read by {}
        if attempts <= 1 {
            let end = seq![TestAction::Return(Err(ShmError::Io))];
            assert(outcome_is_right(end, before, env, i + 2));
            lemma_outcome_prepend(head, end, before, env, i);
        } else {
            lemma_attempts(user, channel, before, (attempts - 1) as nat, env, i + 2);
            lemma_outcome_prepend(
                head,
                attempt_trace(user, channel, before, (attempts - 1) as nat, env, i + 2),
                before,
                env,
                i,
            );
        }
    } else if env(i) != before {
        assert(env(i) >= before);
        assert(t.len() == 2 && t[0] is Count && t.last() is Return);
        assert(0 <= (attempts - 1) * (SELFTEST_SPINS + 5)) by (nonlinear_arith)
            requires
                attempts >= 1,
        ;
    } else {
        let head = seq![TestAction::Count];
        lemma_spins(user, channel, before, attempts, (spins - 1) as nat, env, i + 1);
        lemma_outcome_prepend(
            head,
            spin_trace(user, channel, before, attempts, (spins - 1) as nat, env, i + 1),
            before,
            env,
            i,
        );
    }
}

/// The self-test ends after a bounded number of actions, and its outcome is
/// right: it reports the interrupts that came as soon as a look finds one, and
/// an I/O error if none came in any attempt.
pub proof fn selftest_tells_whether_interrupts_come(
    user: u8,
    channel: u8,
    before: usize,
    env: spec_fn(int) -> usize,
    i: int,
)
    requires
        forall|k: int| #[trigger] env(k) >= before,
    ensures
        outcome_is_right(selftest_trace(user, channel, before, env, i), before, env, i),
        selftest_trace(user, channel, before, env, i).len() <= SELFTEST_ATTEMPTS * (SELFTEST_SPINS
            + 5) + 1,
{
    lemma_attempts(user, channel, before, SELFTEST_ATTEMPTS as nat, env, i);
}

} // verus!
