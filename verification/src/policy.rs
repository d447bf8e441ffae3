//! The suspend policy: a latch over the unsafe state "on battery with the lid closed".

use vstd::prelude::*;

verus! {

/// One reading of the machine: (on battery, lid closed).
pub type Observation = (bool, bool);

/// The state that must not last: on battery with the lid closed.
pub open spec fn is_unsafe(observed: Observation) -> bool {
    observed.0 && observed.1
}

/// Whether a suspend is due: the unsafe state holds and did not hold at the reading before.
pub open spec fn suspend_due(latched: bool, observed: Observation) -> bool {
    is_unsafe(observed) && !latched
}

/// Whether the policy counts the reading before the `i`th one as unsafe.
pub open spec fn latched_before(latched: bool, readings: Seq<Observation>, i: int) -> bool {
    if i == 0 {
        latched
    } else {
        is_unsafe(readings[i - 1])
    }
}

/// The answers that an engine gives to readings fed to it one after the other.
pub open spec fn answers(latched: bool, readings: Seq<Observation>) -> Seq<bool>
    decreases readings.len(),
{
    if readings.len() == 0 {
        Seq::empty()
    } else {
        seq![suspend_due(latched, readings[0])] + answers(
            is_unsafe(readings[0]),
            readings.drop_first(),
        )
    }
}

/// Turns readings into suspend requests, one request for each time the unsafe state begins.
#[derive(Debug)]
pub struct PolicyEngine {
    unsafe_latched: bool,
}

/// The engine is its latch: whether the last reading was unsafe.
impl View for PolicyEngine {
    type V = bool;

    closed spec fn view(&self) -> bool {
        self.unsafe_latched
    }
}

impl Default for PolicyEngine {
    /// An engine that has seen nothing yet.
    fn default() -> (engine: Self)
        ensures
            !engine@,
    {
        PolicyEngine { unsafe_latched: false }
    }
}

impl PolicyEngine {
    /// Takes a reading and says whether to suspend now.
    pub fn update(&mut self, on_battery: bool, lid_closed: bool) -> (should_suspend: bool)
        ensures
            should_suspend == suspend_due(old(self)@, (on_battery, lid_closed)),
            final(self)@ == is_unsafe((on_battery, lid_closed)),
    {
        let unsafe_now = on_battery && lid_closed;
        let should_suspend = unsafe_now && !self.unsafe_latched;
        self.unsafe_latched = unsafe_now;
        should_suspend
    }
}

/// The policy table. On AC nothing suspends, and neither does an open lid. On battery,
/// closing the lid suspends; with the lid closed, unplugging AC suspends.
pub proof fn policy_table(latched: bool, before: Observation)
    ensures
        forall|lid_closed: bool| !#[trigger] suspend_due(latched, (false, lid_closed)),
        forall|on_battery: bool| !#[trigger] suspend_due(latched, (on_battery, false)),
        before == (true, false) ==> suspend_due(is_unsafe(before), (true, true)),
        before == (false, true) ==> suspend_due(is_unsafe(before), (true, true)),
{
}

/// Over any run of readings, a request is made exactly where the unsafe state begins.
pub proof fn requests_mark_unsafe_beginnings(latched: bool, readings: Seq<Observation>)
    ensures
        answers(latched, readings).len() == readings.len(),
        forall|i: int|
            0 <= i < readings.len() ==> #[trigger] answers(latched, readings)[i] == suspend_due(
                latched_before(latched, readings, i),
                readings[i],
            ),
    decreases readings.len(),
{
    if readings.len() > 0 {
        let rest = readings.drop_first();
        requests_mark_unsafe_beginnings(is_unsafe(readings[0]), rest);
        assert forall|i: int| 0 <= i < readings.len() implies #[trigger] answers(
            latched,
            readings,
        )[i] == suspend_due(latched_before(latched, readings, i), readings[i]) by {
            if i > 0 {
                assert(answers(latched, readings)[i] == answers(is_unsafe(readings[0]), rest)[i
                    - 1]);
                assert(rest[i - 1] == readings[i]);
                if i > 1 {
                    assert(rest[i - 2] == readings[i - 1]);
                }
            }
        }
    }
}

/// Between two requests lies a safe reading: opening the lid or plugging in AC re-arms the
/// policy, and nothing else does.
pub proof fn requests_are_separated_by_a_safe_reading(
    latched: bool,
    readings: Seq<Observation>,
    first: int,
    second: int,
)
    requires
        0 <= first < second < readings.len(),
        answers(latched, readings)[first],
        answers(latched, readings)[second],
    ensures
        exists|k: int| first < k < second && !is_unsafe(#[trigger] readings[k]),
{
    requests_mark_unsafe_beginnings(latched, readings);
    assert(!is_unsafe(readings[second - 1]));
    assert(is_unsafe(readings[first]));
}

/// A suspend is due exactly on battery with the lid closed, while the latch is open; and exactly
/// such a reading closes the latch.
pub proof fn a_suspend_is_due_once_per_unsafe_state(
    latched: bool,
    on_battery: bool,
    lid_closed: bool,
)
    ensures
        suspend_due(latched, (on_battery, lid_closed)) <==> on_battery && lid_closed && !latched,
        is_unsafe((on_battery, lid_closed)) <==> on_battery && lid_closed,
{
}

/// In any run of readings from an open latch, a request is made exactly with a reading on battery
/// with the lid closed whose predecessor, if it has one, was on AC or had the lid open.
pub proof fn requests_by_what_was_read(readings: Seq<Observation>, i: int)
    requires
        0 <= i < readings.len(),
    ensures
        answers(false, readings)[i] <==> readings[i].0 && readings[i].1 && (i == 0 || !(readings[i
            - 1].0 && readings[i - 1].1)),
{
    requests_mark_unsafe_beginnings(false, readings);
}

} // verus!
