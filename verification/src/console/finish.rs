//! Recognizing the period on a line of its own.

use vstd::prelude::*;

verus! {

/// How much of the sequence newline, period, newline the user has typed.
#[derive(Clone, Copy, Debug, Eq, PartialEq, Structural)]
pub enum FinishCommunicationState {
    NoLeads,
    SawFirstEnter,
    SawPeriod,
    SawSecondEnter,
}

/// What ends a line.
pub const ENTER: u8 = 0x0A;

/// What the user types on a line of its own.
pub const PERIOD: u8 = 0x2E;

impl FinishCommunicationState {
    /// What follows when `byte` is typed. Once the sequence is complete, it
    /// stays so. A byte that does not continue it loses all leads.
    pub open spec fn next(self, byte: u8) -> FinishCommunicationState {
        match self {
            FinishCommunicationState::NoLeads if byte == ENTER =>
                FinishCommunicationState::SawFirstEnter,
            FinishCommunicationState::SawFirstEnter if byte == PERIOD =>
                FinishCommunicationState::SawPeriod,
            FinishCommunicationState::SawPeriod if byte == ENTER =>
                FinishCommunicationState::SawSecondEnter,
            FinishCommunicationState::SawSecondEnter => FinishCommunicationState::SawSecondEnter,
            _ => FinishCommunicationState::NoLeads,
        }
    }

    /// What follows when all of `bytes` are typed.
    pub open spec fn after(self, bytes: Seq<u8>) -> FinishCommunicationState
        decreases bytes.len(),
    {
        if bytes.len() == 0 {
            self
        } else {
            self.after(bytes.drop_last()).next(bytes.last())
        }
    }

    /// Take note of a byte that the user typed.
    pub fn transition(&self, byte: u8) -> (next: Self)
        ensures
            next == self.next(byte),
    {
        match *self {
            FinishCommunicationState::NoLeads => {
                if byte == ENTER {
                    return FinishCommunicationState::SawFirstEnter;
                }
            },
            FinishCommunicationState::SawFirstEnter => {
                if byte == PERIOD {
                    return FinishCommunicationState::SawPeriod;
                }
            },
            FinishCommunicationState::SawPeriod => {
                if byte == ENTER {
                    return FinishCommunicationState::SawSecondEnter;
                }
            },
            FinishCommunicationState::SawSecondEnter => {
                return FinishCommunicationState::SawSecondEnter;
            },
        }
        FinishCommunicationState::NoLeads
    }

    /// Take note of all bytes that the user typed.
    pub fn transition_all(&self, bytes: &[u8]) -> (next: Self)
        ensures
            next == self.after(bytes@),
    {
        let mut state = *self;
        let mut i: usize = 0;
        while i < bytes.len()
            invariant
                i <= bytes.len(),
                state == self.after(bytes@.take(i as int)),
            decreases bytes.len() - i,
        {
            proof {
                assert(bytes@.take(i + 1).drop_last() =~= bytes@.take(i as int));
            }
            state = state.transition(bytes[i]);
            i = i + 1;
        }
        proof {
            assert(bytes@.take(i as int) =~= bytes@);
        }
        state
    }
}

/// How the input is cut into pieces makes no difference.
pub proof fn law_finish_in_parts(
    state: FinishCommunicationState,
    first: Seq<u8>,
    second: Seq<u8>,
)
    ensures
        state.after(first + second) == state.after(first).after(second),
    decreases second.len(),
{
    if second.len() == 0 {
        assert(first + second =~= first);
    } else {
        assert((first + second).drop_last() =~= first + second.drop_last());
        law_finish_in_parts(state, first, second.drop_last());
    }
}

/// Once the user is done, further input changes nothing.
pub proof fn law_finish_is_final(bytes: Seq<u8>)
    ensures
        FinishCommunicationState::SawSecondEnter.after(bytes)
            == FinishCommunicationState::SawSecondEnter,
    decreases bytes.len(),
{
    if bytes.len() > 0 {
        law_finish_is_final(bytes.drop_last());
    }
}

/// Whether a period stands on a line of its own, at position `p`.
pub open spec fn lone_period_at(bytes: Seq<u8>, p: int) -> bool {
    &&& 0 <= p
    &&& p + 1 < bytes.len()
    &&& bytes[p] == PERIOD
    &&& bytes[p + 1] == ENTER
    &&& p == 0 || bytes[p - 1] == ENTER
}

/// The user is done only after typing a period on a line of its own.
pub proof fn law_finish_needs_lone_period(bytes: Seq<u8>)
    requires
        FinishCommunicationState::SawFirstEnter.after(bytes)
            == FinishCommunicationState::SawSecondEnter,
    ensures
        exists|p: int| #[trigger] lone_period_at(bytes, p),
    decreases bytes.len(),
{
    let start = FinishCommunicationState::SawFirstEnter;
    let init = bytes.drop_last();
    if start.after(init) == FinishCommunicationState::SawSecondEnter {
        law_finish_needs_lone_period(init);
        let p = choose|p: int| #[trigger] lone_period_at(init, p);
        assert(lone_period_at(bytes, p));
    } else {
        assert(start.after(init) == FinishCommunicationState::SawPeriod);
        let before = init.drop_last();
        assert(init.len() > 0 && start.after(before) == FinishCommunicationState::SawFirstEnter);
        let p = before.len() as int;
        assert(bytes[p] == init.last());
        assert(p == 0 || bytes[p - 1] == before.last());
        assert(lone_period_at(bytes, p));
    }
}

/// The user is done after a period that is the first thing typed, and its
/// newline.
pub proof fn law_finish_at_once(rest: Seq<u8>)
    ensures
        FinishCommunicationState::SawFirstEnter.after(seq![PERIOD, ENTER] + rest)
            == FinishCommunicationState::SawSecondEnter,
{
    let typed = seq![PERIOD, ENTER];
    let start = FinishCommunicationState::SawFirstEnter;
    assert(typed.drop_last() =~= seq![PERIOD]);
    assert(typed.drop_last().drop_last() =~= Seq::<u8>::empty());
    assert(start.after(typed.drop_last().drop_last()) == start);
    assert(start.after(typed.drop_last()) == FinishCommunicationState::SawPeriod);
    law_finish_in_parts(start, typed, rest);
    law_finish_is_final(rest);
}

/// The user is done after a period on a line of its own, unless the newline
/// before it comes where a period was due.
pub proof fn law_finish_after_newline(
    state: FinishCommunicationState,
    before: Seq<u8>,
    rest: Seq<u8>,
)
    requires
        state.after(before) != FinishCommunicationState::SawFirstEnter,
    ensures
        state.after(before + seq![ENTER, PERIOD, ENTER] + rest)
            == FinishCommunicationState::SawSecondEnter,
{
    let typed = seq![ENTER, PERIOD, ENTER];
    let mid = state.after(before);
    law_finish_in_parts(state, before + typed, rest);
    law_finish_in_parts(state, before, typed);
    law_finish_is_final(rest);
    let t2 = typed.drop_last();
    let t1 = t2.drop_last();
    assert(t1.drop_last() =~= Seq::<u8>::empty());
    assert(mid.after(t1.drop_last()) == mid);
    assert(mid.after(t1) == mid.next(ENTER));
    assert(mid.after(t2) == mid.after(t1).next(PERIOD));
    assert(mid.after(typed) == mid.after(t2).next(ENTER));
}

/// The user is done after a period on a line of its own that follows a line
/// which is not empty.
pub proof fn law_finish_after_a_line(
    state: FinishCommunicationState,
    before: Seq<u8>,
    rest: Seq<u8>,
)
    requires
        before.len() > 0,
        before.last() != ENTER,
    ensures
        state.after(before + seq![ENTER, PERIOD, ENTER] + rest)
            == FinishCommunicationState::SawSecondEnter,
{
    law_finish_after_newline(state, before, rest);
}

} // verus!
