//! What one reading of the machine leads to: log lines, and perhaps a suspend request.

use vstd::prelude::*;

use crate::policy;
use crate::policy::{Observation, PolicyEngine};
use crate::text;

verus! {

/// What a reading leads to.
#[derive(Debug, PartialEq, Eq)]
pub struct Evaluation {
    /// Lines to log, in order.
    pub log: Vec<String>,
    /// Whether logind is to be asked to suspend, once the lines are logged.
    pub suspend: bool,
}

/// The log line for a reading that differs from the one before.
pub open spec fn state_line(reason: Seq<char>, observed: Observation) -> Seq<char> {
    "INFO state reason="@ + reason + " on_battery="@ + text::bool_text(observed.0)
        + " lid_closed="@ + text::bool_text(observed.1)
}

/// The log line for a suspend that is due.
pub open spec fn suspend_line(reason: Seq<char>, dry_run: bool) -> Seq<char> {
    if dry_run {
        "WARN dry-run suspend reason="@ + reason
    } else {
        "WARN requesting suspend reason="@ + reason
    }
}

/// The log lines of a reading: its state if that is new, then the suspend if one is due.
pub open spec fn evaluation_log(
    latched: bool,
    last_observed: Option<Observation>,
    observed: Observation,
    reason: Seq<char>,
    dry_run: bool,
) -> Seq<Seq<char>> {
    let state = if last_observed == Some(observed) {
        Seq::empty()
    } else {
        seq![state_line(reason, observed)]
    };
    let suspend = if policy::suspend_due(latched, observed) {
        seq![suspend_line(reason, dry_run)]
    } else {
        Seq::empty()
    };
    state + suspend
}

/// The log lines for the outcome of a suspend request.
pub open spec fn suspend_outcome_log(outcome: Result<(), Seq<char>>) -> Seq<Seq<char>> {
    match outcome {
        Ok(()) => Seq::empty(),
        Err(error) => seq!["ERROR suspend request failed: "@ + error],
    }
}

/// Builds the log line for a reading.
fn show_state(reason: &str, observed: Observation) -> (line: String)
    ensures
        line@ == state_line(reason@, observed),
{
    let mut line = text::line("INFO state reason=", reason);
    line.append(" on_battery=");
    line.append(text::show_bool(observed.0));
    line.append(" lid_closed=");
    line.append(text::show_bool(observed.1));
    line
}

/// Whether the reading is the one observed last.
fn is_last(last_observed: &Option<Observation>, observed: Observation) -> (same: bool)
    ensures
        same == (*last_observed == Some(observed)),
{
    match last_observed {
        Some(last) => last.0 == observed.0 && last.1 == observed.1,
        None => false,
    }
}

/// Takes a reading: remembers it, logs it if it is new, and asks for a suspend if the policy
/// says so. A dry run logs the suspend in place of asking for it.
pub fn evaluate(
    policy: &mut PolicyEngine,
    last_observed: &mut Option<Observation>,
    observed: Observation,
    reason: &str,
    dry_run: bool,
) -> (evaluation: Evaluation)
    ensures
        final(policy)@ == policy::is_unsafe(observed),
        *final(last_observed) == Some(observed),
        evaluation.suspend == (policy::suspend_due(old(policy)@, observed) && !dry_run),
        text::texts(evaluation.log@) == evaluation_log(
            old(policy)@,
            *old(last_observed),
            observed,
            reason@,
            dry_run,
        ),
{
    let ghost latched = policy@;
    let ghost last = *last_observed;
    let mut log: Vec<String> = Vec::new();
    let mut suspend = false;
    if !is_last(last_observed, observed) {
        log.push(show_state(reason, observed));
        *last_observed = Some(observed);
    }
    if policy.update(observed.0, observed.1) {
        if dry_run {
            log.push(text::line("WARN dry-run suspend reason=", reason));
        } else {
            log.push(text::line("WARN requesting suspend reason=", reason));
            suspend = true;
        }
    }
    assert(text::texts(log@) =~= evaluation_log(latched, last, observed, reason@, dry_run));
    Evaluation { log, suspend }
}

/// The log lines for what came of a suspend request.
pub fn suspend_outcome(outcome: Result<(), String>) -> (log: Vec<String>)
    ensures
        text::texts(log@) == suspend_outcome_log(text::outcome(outcome)),
{
    let mut log: Vec<String> = Vec::new();
    if let Err(error) = &outcome {
        log.push(text::line("ERROR suspend request failed: ", error.as_str()));
    }
    assert(text::texts(log@) =~= suspend_outcome_log(text::outcome(outcome)));
    log
}

/// Taking the same reading again logs nothing and asks for nothing, for whatever reason it is
/// taken.
pub proof fn repeating_a_reading_does_nothing(
    observed: Observation,
    reason: Seq<char>,
    dry_run: bool,
)
    ensures
        !policy::suspend_due(policy::is_unsafe(observed), observed),
        evaluation_log(policy::is_unsafe(observed), Some(observed), observed, reason, dry_run)
            == Seq::<Seq<char>>::empty(),
{
}

/// A state line gives the reason and both values, each behind its own label.
pub proof fn a_state_line_gives_reason_and_values(reason: Seq<char>)
    ensures
        state_line(reason, (false, false)) == "INFO state reason="@ + reason
            + " on_battery=false lid_closed=false"@,
        state_line(reason, (false, true)) == "INFO state reason="@ + reason
            + " on_battery=false lid_closed=true"@,
        state_line(reason, (true, false)) == "INFO state reason="@ + reason
            + " on_battery=true lid_closed=false"@,
        state_line(reason, (true, true)) == "INFO state reason="@ + reason
            + " on_battery=true lid_closed=true"@,
{
    reveal_strlit("true");
    reveal_strlit("false");
    reveal_strlit(" on_battery=");
    reveal_strlit(" lid_closed=");
    reveal_strlit(" on_battery=false lid_closed=false");
    reveal_strlit(" on_battery=false lid_closed=true");
    reveal_strlit(" on_battery=true lid_closed=false");
    reveal_strlit(" on_battery=true lid_closed=true");
    let head = "INFO state reason="@ + reason;
    assert(state_line(reason, (false, false)) =~= head + " on_battery=false lid_closed=false"@);
    assert(state_line(reason, (false, true)) =~= head + " on_battery=false lid_closed=true"@);
    assert(state_line(reason, (true, false)) =~= head + " on_battery=true lid_closed=false"@);
    assert(state_line(reason, (true, true)) =~= head + " on_battery=true lid_closed=true"@);
}

/// A state line tells the readings apart: two lines for the same reason agree only if the
/// readings do, and the line's end says whether the lid is closed.
pub proof fn state_lines_tell_readings_apart(
    reason: Seq<char>,
    observed: Observation,
    other: Observation,
)
    ensures
        state_line(reason, observed) == state_line(reason, other) ==> observed == other,
        text::ends_with(state_line(reason, observed), " lid_closed=true"@) <==> observed.1,
        text::ends_with(state_line(reason, observed), " lid_closed=false"@) <==> !observed.1,
{
    reveal_strlit("true");
    reveal_strlit("false");
    reveal_strlit(" on_battery=");
    reveal_strlit(" lid_closed=");
    reveal_strlit(" lid_closed=true");
    reveal_strlit(" lid_closed=false");
    let line = state_line(reason, observed);
    let second = state_line(reason, other);
    let at = ("INFO state reason="@ + reason + " on_battery="@).len() as int;
    assert(line[at] == text::bool_text(observed.0)[0]);
    assert(second[at] == text::bool_text(other.0)[0]);
    assert(line[line.len() - 2] == text::bool_text(observed.1)[text::bool_text(observed.1).len()
        - 2]);
    assert(second[second.len() - 2] == text::bool_text(other.1)[text::bool_text(other.1).len()
        - 2]);
    let closed = line.skip(line.len() - " lid_closed=true"@.len());
    let open = line.skip(line.len() - " lid_closed=false"@.len());
    if observed.1 {
        assert(closed =~= " lid_closed=true"@);
        assert(open[open.len() - 2] == 'u');
    } else {
        assert(open =~= " lid_closed=false"@);
        assert(closed[closed.len() - 2] == 's');
    }
}

/// A due suspend is announced with its reason, and a dry run is told apart from a real request.
pub proof fn a_suspend_line_gives_mode_and_reason(reason: Seq<char>)
    ensures
        suspend_line(reason, true) == "WARN dry-run suspend reason="@ + reason,
        suspend_line(reason, false) == "WARN requesting suspend reason="@ + reason,
        suspend_line(reason, true) != suspend_line(reason, false),
{
    reveal_strlit("WARN dry-run suspend reason=");
    reveal_strlit("WARN requesting suspend reason=");
    assert(suspend_line(reason, true)[5] != suspend_line(reason, false)[5]);
}

/// Whatever the reason, the log of a reading opens with its state exactly when the reading is
/// not the one before, closes with the suspend exactly when one is due, and holds nothing else.
pub proof fn what_a_reading_logs(
    latched: bool,
    last_observed: Option<Observation>,
    observed: Observation,
    reason: Seq<char>,
    dry_run: bool,
)
    ensures
        ({
            let log = evaluation_log(latched, last_observed, observed, reason, dry_run);
            let news = last_observed != Some(observed);
            let due = observed.0 && observed.1 && !latched;
            &&& log.len() == (if news {
                1int
            } else {
                0
            }) + (if due {
                1int
            } else {
                0
            })
            &&& news ==> log.first() == state_line(reason, observed)
            &&& due ==> log.last() == suspend_line(reason, dry_run)
        }),
{
}

/// A dry run logs as many lines as a real run, and the same state lines.
pub proof fn a_dry_run_logs_like_a_real_one(
    latched: bool,
    last_observed: Option<Observation>,
    observed: Observation,
    reason: Seq<char>,
)
    ensures
        evaluation_log(latched, last_observed, observed, reason, true).len() == evaluation_log(
            latched,
            last_observed,
            observed,
            reason,
            false,
        ).len(),
        last_observed != Some(observed) ==> evaluation_log(
            latched,
            last_observed,
            observed,
            reason,
            true,
        )[0] == evaluation_log(latched, last_observed, observed, reason, false)[0],
{
}

/// A granted suspend request logs nothing; a failed one logs its error in one line.
pub proof fn what_a_suspend_outcome_logs(error: Seq<char>)
    ensures
        suspend_outcome_log(Ok(())) == Seq::<Seq<char>>::empty(),
        suspend_outcome_log(Err(error)) == seq!["ERROR suspend request failed: "@ + error],
{
}

} // verus!
