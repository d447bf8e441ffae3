//! Which property names of a change signal matter to the policy.

use vstd::prelude::*;

use crate::bus::{LID_IS_CLOSED, ON_BATTERY};
use crate::text;

verus! {

/// The property names that the policy reads.
pub open spec fn is_relevant(name: Seq<char>) -> bool {
    name == ON_BATTERY@ || name == LID_IS_CLOSED@
}

/// The name, if it occurs among the changed or the invalidated ones.
pub open spec fn if_named(
    name: Seq<char>,
    changed: Seq<Seq<char>>,
    invalidated: Seq<Seq<char>>,
) -> Seq<Seq<char>> {
    if changed.contains(name) || invalidated.contains(name) {
        seq![name]
    } else {
        Seq::empty()
    }
}

/// The relevant names of a change signal, each once, in dictionary order.
pub open spec fn relevant(changed: Seq<Seq<char>>, invalidated: Seq<Seq<char>>) -> Seq<Seq<char>> {
    if_named(LID_IS_CLOSED@, changed, invalidated) + if_named(ON_BATTERY@, changed, invalidated)
}

/// The list is in dictionary order and repeats nothing.
pub open spec fn strictly_ascending(names: Seq<Seq<char>>) -> bool {
    forall|i: int, j: int|
        0 <= i < j < names.len() ==> text::precedes(#[trigger] names[i], #[trigger] names[j])
}

/// Whether the list holds the name.
fn holds(names: &[&str], name: &str) -> (found: bool)
    ensures
        found == text::slices(names@).contains(name@),
{
    for i in 0..names.len()
        invariant
            forall|j: int| 0 <= j < i ==> (#[trigger] names@[j])@ != name@,
    {
        if text::same_text(names[i], name) {
            assert(text::slices(names@)[i as int] == name@);
            return true;
        }
    }
    assert forall|j: int| 0 <= j < names@.len() implies text::slices(names@)[j] != name@ by {
        assert(names@[j]@ != name@);
    }
    false
}

/// The relevant names among the changed and the invalidated ones, each once, in dictionary
/// order.
pub fn relevant_properties<'a>(changed: &[&'a str], invalidated: &[&'a str]) -> (names: Vec<
    &'a str,
>)
    ensures
        text::slices(names@) == relevant(text::slices(changed@), text::slices(invalidated@)),
{
    let mut names: Vec<&'a str> = Vec::new();
    if holds(changed, LID_IS_CLOSED) || holds(invalidated, LID_IS_CLOSED) {
        names.push(LID_IS_CLOSED);
    }
    if holds(changed, ON_BATTERY) || holds(invalidated, ON_BATTERY) {
        names.push(ON_BATTERY);
    }
    assert(text::slices(names@) =~= relevant(text::slices(changed@), text::slices(invalidated@)));
    names
}

/// The result holds exactly the relevant names of the signal, in dictionary order and without
/// repetition.
pub proof fn relevant_names_are_exact_and_ascending(
    changed: Seq<Seq<char>>,
    invalidated: Seq<Seq<char>>,
)
    ensures
        forall|name: Seq<char>| #[trigger]
            relevant(changed, invalidated).contains(name) <==> is_relevant(name) && (
            changed.contains(name) || invalidated.contains(name)),
        strictly_ascending(relevant(changed, invalidated)),
{
    let names = relevant(changed, invalidated);
    let lid = if_named(LID_IS_CLOSED@, changed, invalidated);
    let battery = if_named(ON_BATTERY@, changed, invalidated);
    assert forall|name: Seq<char>| #[trigger] names.contains(name) <==> is_relevant(name) && (
    changed.contains(name) || invalidated.contains(name)) by {
        if changed.contains(name) || invalidated.contains(name) {
            if name == LID_IS_CLOSED@ {
                assert(names[0] == name);
            } else if name == ON_BATTERY@ {
                assert(names[lid.len() as int] == name);
            }
        }
    }
    reveal_strlit("LidIsClosed");
    reveal_strlit("OnBattery");
    assert(LID_IS_CLOSED@.take(0) =~= ON_BATTERY@.take(0));
    assert(text::first_differs_at(LID_IS_CLOSED@, ON_BATTERY@, 0));
}

/// Only the set of names counts: not their order, not how often one occurs, and not whether it
/// was changed or invalidated.
pub proof fn relevant_names_depend_on_the_set_alone(
    changed: Seq<Seq<char>>,
    invalidated: Seq<Seq<char>>,
    other_changed: Seq<Seq<char>>,
    other_invalidated: Seq<Seq<char>>,
)
    requires
        (changed + invalidated).to_set() == (other_changed + other_invalidated).to_set(),
    ensures
        relevant(changed, invalidated) == relevant(other_changed, other_invalidated),
{
    named_in_union(changed, invalidated, LID_IS_CLOSED@);
    named_in_union(changed, invalidated, ON_BATTERY@);
    named_in_union(other_changed, other_invalidated, LID_IS_CLOSED@);
    named_in_union(other_changed, other_invalidated, ON_BATTERY@);
}

/// A name is in one of two lists if and only if it is in the set of both.
proof fn named_in_union(changed: Seq<Seq<char>>, invalidated: Seq<Seq<char>>, name: Seq<char>)
    ensures
        (changed + invalidated).to_set().contains(name) <==> changed.contains(name)
            || invalidated.contains(name),
{
    let all = changed + invalidated;
    if changed.contains(name) {
        let i = choose|i: int| 0 <= i < changed.len() && changed[i] == name;
        assert(all[i] == name);
    }
    if invalidated.contains(name) {
        let i = choose|i: int| 0 <= i < invalidated.len() && invalidated[i] == name;
        assert(all[changed.len() + i] == name);
    }
}

/// A signal that names neither property yields nothing.
pub proof fn irrelevant_changes_yield_nothing(
    changed: Seq<Seq<char>>,
    invalidated: Seq<Seq<char>>,
)
    ensures
        relevant(changed, invalidated).len() == 0 <==> forall|name: Seq<char>| #[trigger]
            is_relevant(name) ==> !changed.contains(name) && !invalidated.contains(name),
{
    assert(is_relevant(LID_IS_CLOSED@) && is_relevant(ON_BATTERY@));
}

/// The result is decided by whether each of the two names occurs in either list: `LidIsClosed`
/// stands first, `OnBattery` behind it, and nothing else stands there.
pub proof fn relevant_names_by_occurrence(changed: Seq<Seq<char>>, invalidated: Seq<Seq<char>>)
    ensures
        ({
            let battery = changed.contains("OnBattery"@) || invalidated.contains("OnBattery"@);
            let lid = changed.contains("LidIsClosed"@) || invalidated.contains("LidIsClosed"@);
            &&& lid && battery ==> relevant(changed, invalidated) == seq![
                "LidIsClosed"@,
                "OnBattery"@,
            ]
            &&& lid && !battery ==> relevant(changed, invalidated) == seq!["LidIsClosed"@]
            &&& !lid && battery ==> relevant(changed, invalidated) == seq!["OnBattery"@]
            &&& !lid && !battery ==> relevant(changed, invalidated) == Seq::<Seq<char>>::empty()
        }),
{
    let battery = if_named(ON_BATTERY@, changed, invalidated);
    let lid = if_named(LID_IS_CLOSED@, changed, invalidated);
    assert(relevant(changed, invalidated) =~= lid + battery);
}

} // verus!
