//! Every action of the self-test, by its place in the run.

use vstd::prelude::*;

use crate::mailbox::{new_msg_mask, RegWrite};
use crate::mailbox_laws::the_new_msg_bit;
use crate::selftest::{attempt_trace, failed_trace, selftest_trace, spin_trace, TestAction};
use crate::wait::ShmError;

verus! {

/// What is done at place `p` of an attempt on `channel`: enable the channel's
/// interrupt, enable it again, put a one into the channel's FIFO, look at the
/// count a hundred thousand times, and read the raw status and the enable
/// register.
pub open spec fn place_in_attempt(user: u8, channel: u8, p: int, action: TestAction) -> bool {
    if p == 0 || p == 1 {
        enables(user, channel, action)
    } else if p == 2 {
        injects(channel, action)
    } else if p < 100_003 {
        action == TestAction::Count
    } else if p == 100_003 {
        action == (TestAction::Read { offset: (0x100 + 16 * user) as usize })
    } else {
        action == (TestAction::Read { offset: (0x108 + 16 * user) as usize })
    }
}

/// `action` sets the bit of `channel`, and no other, in the enable register of
/// `user`.
pub open spec fn enables(user: u8, channel: u8, action: TestAction) -> bool {
    &&& action matches TestAction::Write(write)
    &&& write.offset == 0x108 + 16 * user
    &&& forall|b: u8| b < 32 ==> ((#[trigger] (write.value >> b)) & 1 == 1 <==> b == 2 * channel)
}

/// `action` puts a one into the FIFO of `channel`.
pub open spec fn injects(channel: u8, action: TestAction) -> bool {
    action == TestAction::Write(
        RegWrite { offset: (0x40 + 4 * channel) as usize, value: 1 },
    )
}

/// Every attempt of the self-test injects its message into the FIFO of the channel
/// under test, after enabling that channel and before the first look; the only
/// registers that are written are that FIFO and the enable register of the user.
/// There are at most three attempts of a hundred thousand looks, and the test
/// gives up only after all three.
pub proof fn every_attempt_rings_the_channel_under_test(
    user: u8,
    channel: u8,
    before: usize,
    env: spec_fn(int) -> usize,
    i: int,
    k: int,
)
    requires
        channel < 16,
    ensures
        ({
            let t = selftest_trace(user, channel, before, env, i);
            &&& 1 <= t.len() <= 300_016
            &&& t.last() is Return
            &&& t.last() == TestAction::Return(Err(ShmError::Io)) ==> t.len() == 300_016
            &&& 0 <= k < t.len() - 1 ==> place_in_attempt(user, channel, k % 100_005, t[k])
        }),
{
    lemma_attempts_in_place(user, channel, before, 3, env, i);
}

/// The self-test writes no FIFO register but that of the channel under test, and
/// no enable register but its own user's.
pub proof fn the_selftest_spares_other_channels(
    user: u8,
    channel: u8,
    before: usize,
    env: spec_fn(int) -> usize,
    i: int,
    k: int,
    write: RegWrite,
)
    requires
        channel < 16,
        0 <= k < selftest_trace(user, channel, before, env, i).len(),
        selftest_trace(user, channel, before, env, i)[k] == TestAction::Write(write),
    ensures
        write.offset == 0x40 + 4 * channel || write.offset == 0x108 + 16 * user,
        write.offset == 0x40 + 4 * channel ==> write.value == 1,
{
    every_attempt_rings_the_channel_under_test(user, channel, before, env, i, k);
}

proof fn lemma_enables(user: u8, channel: u8, write: RegWrite)
    requires
        channel < 16,
        write.offset == 0x108 + 16 * user,
        write.value == new_msg_mask(channel),
    ensures
        enables(user, channel, TestAction::Write(write)),
{
    assert forall|b: u8| b < 32 implies ((#[trigger] (write.value >> b)) & 1 == 1 <==> b == 2
        * channel) by {
        the_new_msg_bit(channel, b);
    }
}

proof fn lemma_attempts_in_place(
    user: u8,
    channel: u8,
    before: usize,
    attempts: nat,
    env: spec_fn(int) -> usize,
    i: int,
)
    requires
        channel < 16,
        attempts >= 1,
    ensures
        ({
            let t = attempt_trace(user, channel, before, attempts, env, i);
            &&& 1 <= t.len() <= attempts * 100_005 + 1
            &&& t.last() is Return
            &&& t.last() == TestAction::Return(Err(ShmError::Io)) ==> t.len() == attempts * 100_005
                + 1
            &&& forall|k: int|
                0 <= k < t.len() - 1 ==> place_in_attempt(
                    user,
                    channel,
                    k % 100_005,
                    #[trigger] t[k],
                )
        }),
    decreases attempts, 1int, 0nat,
{
    let t = attempt_trace(user, channel, before, attempts, env, i);
    let s = spin_trace(user, channel, before, attempts, 100_000, env, i + 3);
    lemma_spins_in_place(user, channel, before, attempts, 100_000, env, i + 3);
    assert(t.len() == 3 + s.len());
    assert(t.last() == s.last());
    assert forall|k: int| 0 <= k < t.len() - 1 implies place_in_attempt(
        user,
        channel,
        k % 100_005,
        #[trigger] t[k],
    ) by {
        if k < 2 {
            assert(k % 100_005 == k);
            if k == 0 {
                lemma_enables(user, channel, t[0]->Write_0);
            } else {
                lemma_enables(user, channel, t[1]->Write_0);
            }
        } else if k > 2 {
            assert(t[k] == s[k - 3]);
            assert((k - 3) + 3 == k);
        }
    }
}

proof fn lemma_spins_in_place(
    user: u8,
    channel: u8,
    before: usize,
    attempts: nat,
    spins: nat,
    env: spec_fn(int) -> usize,
    i: int,
)
    requires
        channel < 16,
        attempts >= 1,
        spins <= 100_000,
    ensures
        ({
            let t = spin_trace(user, channel, before, attempts, spins, env, i);
            &&& 1 <= t.len() <= spins + 3 + (attempts - 1) * 100_005
            &&& t.last() is Return
            &&& t.last() == TestAction::Return(Err(ShmError::Io)) ==> t.len() == spins + 3 + (
            attempts - 1) * 100_005
            &&& forall|k: int|
                0 <= k < t.len() - 1 ==> place_in_attempt(
                    user,
                    channel,
                    (k + 100_003 - spins) % 100_005,
                    #[trigger] t[k],
                )
        }),
    decreases attempts, 0int, spins,
{
    let t = spin_trace(user, channel, before, attempts, spins, env, i);
    if spins == 0 {
        assert(t == failed_trace(user, channel, before, attempts, env, i));
        reveal_with_fuel(failed_trace, 2);
        if attempts <= 1 {
            assert(t.len() == 3);
        } else {
            let r = attempt_trace(user, channel, before, (attempts - 1) as nat, env, i + 2);
            lemma_attempts_in_place(user, channel, before, (attempts - 1) as nat, env, i + 2);
            assert(t.len() == 2 + r.len());
            assert(t.last() == r.last());
            assert forall|k: int| 0 <= k < t.len() - 1 implies place_in_attempt(
                user,
                channel,
                (k + 100_003) % 100_005,
                #[trigger] t[k],
            ) by {
                if k >= 2 {
                    assert(t[k] == r[k - 2]);
                    assert((k + 100_003) % 100_005 == (k - 2) % 100_005);
                }
            }
        }
    } else if env(i) != before {
        assert(t.len() == 2);
        assert(0 <= (attempts - 1) * 100_005);
    } else {
        let r = spin_trace(user, channel, before, attempts, (spins - 1) as nat, env, i + 1);
        lemma_spins_in_place(user, channel, before, attempts, (spins - 1) as nat, env, i + 1);
        assert(t.len() == 1 + r.len());
        assert(t.last() == r.last());
        assert forall|k: int| 0 <= k < t.len() - 1 implies place_in_attempt(
            user,
            channel,
            (k + 100_003 - spins) % 100_005,
            #[trigger] t[k],
        ) by {
            if k > 0 {
                assert(t[k] == r[k - 1]);
                assert((k - 1) + 100_003 - (spins - 1) == k + 100_003 - spins);
            }
        }
    }
}

} // verus!
