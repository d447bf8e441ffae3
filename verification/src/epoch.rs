//! A UPower epoch: the time over which one subscription to UPower is used. What each signal
//! means for it, and what follows once it is over.

use vstd::prelude::*;

use crate::bus::{LOGIND_NAME, UPOWER_INTERFACE, UPOWER_NAME};
use crate::properties;
use crate::properties::relevant_properties;
use crate::text;

verus! {

/// Why an epoch ended without an error.
#[derive(Debug, Clone, Copy, PartialEq, Eq, Structural)]
pub enum EpochEnd {
    /// UPower has a new owner, or none.
    UpowerOwnerChanged,
    /// Logind has a new owner, or none.
    LogindOwnerChanged,
    /// The bus sends no more owner signals.
    SystemBusEnded,
}

/// A decoded property change signal.
#[derive(Debug, PartialEq, Eq)]
pub struct PropertyChange {
    /// The interface that the properties belong to.
    pub interface: String,
    /// Names of the properties that came with a new value.
    pub changed: Vec<String>,
    /// Names of the properties whose old value no longer holds.
    pub invalidated: Vec<String>,
}

/// The names in a property change signal.
pub struct PropertyChangeView {
    pub interface: Seq<char>,
    pub changed: Seq<Seq<char>>,
    pub invalidated: Seq<Seq<char>>,
}

impl View for PropertyChange {
    type V = PropertyChangeView;

    open spec fn view(&self) -> PropertyChangeView {
        PropertyChangeView {
            interface: self.interface@,
            changed: text::texts(self.changed@),
            invalidated: text::texts(self.invalidated@),
        }
    }
}

/// What came off one of the two signal streams. `None` is the end of the stream; an error is a
/// signal that could not be decoded.
#[derive(Debug, PartialEq, Eq)]
pub enum Signal {
    /// From the stream of property changes.
    Properties(Option<Result<PropertyChange, String>>),
    /// From the stream of owner changes: the bus name that has a new owner.
    Owner(Option<Result<String, String>>),
}

/// A signal by its text.
pub enum SignalView {
    Properties(Option<Result<PropertyChangeView, Seq<char>>>),
    Owner(Option<Result<Seq<char>, Seq<char>>>),
}

impl View for Signal {
    type V = SignalView;

    open spec fn view(&self) -> SignalView {
        match self {
            Signal::Properties(None) => SignalView::Properties(None),
            Signal::Properties(Some(Ok(change))) => SignalView::Properties(Some(Ok(change@))),
            Signal::Properties(Some(Err(error))) => SignalView::Properties(Some(Err(error@))),
            Signal::Owner(None) => SignalView::Owner(None),
            Signal::Owner(Some(Ok(name))) => SignalView::Owner(Some(Ok(name@))),
            Signal::Owner(Some(Err(error))) => SignalView::Owner(Some(Err(error@))),
        }
    }
}

/// What a signal means for the epoch.
#[derive(Debug, PartialEq, Eq)]
pub enum Reaction {
    /// Nothing: wait for the next signal.
    Ignore,
    /// Read the machine again, for the reason given.
    Evaluate(String),
    /// The epoch is over.
    End(EpochEnd),
    /// The epoch is over, with an error.
    Fail(String),
}

/// A reaction by its text.
pub enum ReactionView {
    Ignore,
    Evaluate(Seq<char>),
    End(EpochEnd),
    Fail(Seq<char>),
}

impl View for Reaction {
    type V = ReactionView;

    open spec fn view(&self) -> ReactionView {
        match self {
            Reaction::Ignore => ReactionView::Ignore,
            Reaction::Evaluate(reason) => ReactionView::Evaluate(reason@),
            Reaction::End(end) => ReactionView::End(*end),
            Reaction::Fail(error) => ReactionView::Fail(error@),
        }
    }
}

/// The reason to read the machine again after a change of these properties.
pub open spec fn change_reason(relevant: Seq<Seq<char>>) -> Seq<char> {
    "upower:"@ + text::joined(relevant, ","@)
}

/// What a decoded property change means: a new reading if it names a relevant property of the
/// UPower interface, and nothing otherwise.
pub open spec fn change_reaction(change: PropertyChangeView) -> ReactionView {
    let relevant = properties::relevant(change.changed, change.invalidated);
    if change.interface == UPOWER_INTERFACE@ && relevant.len() > 0 {
        ReactionView::Evaluate(change_reason(relevant))
    } else {
        ReactionView::Ignore
    }
}

/// What a new owner of a bus name means.
pub open spec fn owner_reaction(name: Seq<char>) -> ReactionView {
    if name == UPOWER_NAME@ {
        ReactionView::End(EpochEnd::UpowerOwnerChanged)
    } else if name == LOGIND_NAME@ {
        ReactionView::End(EpochEnd::LogindOwnerChanged)
    } else {
        ReactionView::Ignore
    }
}

/// What a signal means for the epoch.
pub open spec fn reaction(signal: SignalView) -> ReactionView {
    match signal {
        SignalView::Properties(None) => ReactionView::Fail("UPower property signal stream ended"@),
        SignalView::Properties(Some(Err(error))) => ReactionView::Fail(error),
        SignalView::Properties(Some(Ok(change))) => change_reaction(change),
        SignalView::Owner(None) => ReactionView::End(EpochEnd::SystemBusEnded),
        SignalView::Owner(Some(Err(error))) => ReactionView::Fail(error),
        SignalView::Owner(Some(Ok(name))) => owner_reaction(name),
    }
}

/// What a decoded property change means for the epoch.
pub fn react_to_change(change: &PropertyChange) -> (reacted: Reaction)
    ensures
        reacted@ == change_reaction(change@),
{
    if !text::same_text(change.interface.as_str(), UPOWER_INTERFACE) {
        return Reaction::Ignore;
    }
    let changed = text::borrowed(&change.changed);
    let invalidated = text::borrowed(&change.invalidated);
    let relevant = relevant_properties(changed.as_slice(), invalidated.as_slice());
    assert(text::slices(relevant@).len() == relevant@.len());
    if relevant.len() == 0 {
        return Reaction::Ignore;
    }
    let names = text::join(relevant.as_slice(), ",");
    Reaction::Evaluate(text::line("upower:", names.as_str()))
}

/// What a new owner of a bus name means for the epoch.
pub fn react_to_owner(name: &str) -> (reacted: Reaction)
    ensures
        reacted@ == owner_reaction(name@),
{
    if text::same_text(name, UPOWER_NAME) {
        Reaction::End(EpochEnd::UpowerOwnerChanged)
    } else if text::same_text(name, LOGIND_NAME) {
        Reaction::End(EpochEnd::LogindOwnerChanged)
    } else {
        Reaction::Ignore
    }
}

/// What a signal means for the epoch.
pub fn react(signal: Signal) -> (reacted: Reaction)
    ensures
        reacted@ == reaction(signal@),
{
    match signal {
        Signal::Properties(None) => Reaction::Fail(
            "UPower property signal stream ended".to_owned(),
        ),
        Signal::Properties(Some(Err(error))) => Reaction::Fail(error),
        Signal::Properties(Some(Ok(change))) => react_to_change(&change),
        Signal::Owner(None) => Reaction::End(EpochEnd::SystemBusEnded),
        Signal::Owner(Some(Err(error))) => Reaction::Fail(error),
        Signal::Owner(Some(Ok(name))) => react_to_owner(name.as_str()),
    }
}

/// A property change leads to a new reading exactly when it belongs to the UPower interface and
/// names one of the two properties. Whatever else changes, displays among it, leads to nothing.
pub proof fn only_policy_properties_cause_a_reading(change: PropertyChangeView)
    ensures
        change_reaction(change) is Evaluate <==> change.interface == UPOWER_INTERFACE@ && exists|
            name: Seq<char>,
        | #[trigger]
            properties::is_relevant(name) && (change.changed.contains(name)
                || change.invalidated.contains(name)),
        change_reaction(change) !is Evaluate ==> change_reaction(change) is Ignore,
{
    properties::irrelevant_changes_yield_nothing(change.changed, change.invalidated);
}

/// Only a new owner of UPower or of logind, the end of a stream or a signal that cannot be
/// decoded ends an epoch; a new owner of logind is told apart from one of UPower.
pub proof fn what_ends_an_epoch(signal: SignalView)
    ensures
        reaction(signal) == ReactionView::End(EpochEnd::UpowerOwnerChanged) <==> signal
            == SignalView::Owner(Some(Ok(UPOWER_NAME@))),
        reaction(signal) == ReactionView::End(EpochEnd::LogindOwnerChanged) <==> signal
            == SignalView::Owner(Some(Ok(LOGIND_NAME@))),
        reaction(signal) == ReactionView::End(EpochEnd::SystemBusEnded) <==> signal
            == SignalView::Owner(None),
        reaction(signal) is Fail <==> (signal matches SignalView::Properties(None)) || (
        signal matches SignalView::Properties(Some(Err(_)))) || (
        signal matches SignalView::Owner(Some(Err(_)))),
{
    crate::bus::service_names_differ();
}

/// What a property change leads to is decided by its interface and by whether each of the two
/// names occurs in it; the reason lists the names that do.
pub proof fn a_change_by_its_names(change: PropertyChangeView)
    ensures
        ({
            let battery = change.changed.contains("OnBattery"@) || change.invalidated.contains(
                "OnBattery"@,
            );
            let lid = change.changed.contains("LidIsClosed"@) || change.invalidated.contains(
                "LidIsClosed"@,
            );
            let ours = change.interface == "org.freedesktop.UPower"@;
            &&& ours && lid && battery ==> change_reaction(change) == ReactionView::Evaluate(
                "upower:LidIsClosed,OnBattery"@,
            )
            &&& ours && lid && !battery ==> change_reaction(change) == ReactionView::Evaluate(
                "upower:LidIsClosed"@,
            )
            &&& ours && !lid && battery ==> change_reaction(change) == ReactionView::Evaluate(
                "upower:OnBattery"@,
            )
            &&& !ours || (!lid && !battery) ==> change_reaction(change) is Ignore
        }),
{
    reveal_strlit("upower:");
    reveal_strlit(",");
    reveal_strlit("LidIsClosed");
    reveal_strlit("OnBattery");
    reveal_strlit("upower:LidIsClosed,OnBattery");
    reveal_strlit("upower:LidIsClosed");
    reveal_strlit("upower:OnBattery");
    properties::relevant_names_by_occurrence(change.changed, change.invalidated);
    text::joining_appends_item_by_item(seq!["LidIsClosed"@], "OnBattery"@, ","@);
    text::joining_appends_item_by_item(Seq::empty(), "OnBattery"@, ","@);
    assert(seq!["LidIsClosed"@].push("OnBattery"@) =~= seq!["LidIsClosed"@, "OnBattery"@]);
    assert(change_reason(seq!["LidIsClosed"@, "OnBattery"@]) =~= "upower:LidIsClosed,OnBattery"@);
    assert(change_reason(seq!["LidIsClosed"@]) =~= "upower:LidIsClosed"@);
    assert(change_reason(seq!["OnBattery"@]) =~= "upower:OnBattery"@);
}

/// What ends an epoch, by the bus names and the errors themselves: every error is handed on as
/// it came, and a new owner of any third name is ignored.
pub proof fn signals_by_their_contents(
    change: PropertyChangeView,
    name: Seq<char>,
    error: Seq<char>,
)
    ensures
        reaction(SignalView::Properties(Some(Ok(change)))) == change_reaction(change),
        reaction(SignalView::Properties(Some(Err(error)))) == ReactionView::Fail(error),
        reaction(SignalView::Properties(None)) == ReactionView::Fail(
            "UPower property signal stream ended"@,
        ),
        reaction(SignalView::Owner(Some(Err(error)))) == ReactionView::Fail(error),
        reaction(SignalView::Owner(None)) == ReactionView::End(EpochEnd::SystemBusEnded),
        reaction(SignalView::Owner(Some(Ok("org.freedesktop.UPower"@)))) == ReactionView::End(
            EpochEnd::UpowerOwnerChanged,
        ),
        reaction(SignalView::Owner(Some(Ok("org.freedesktop.login1"@)))) == ReactionView::End(
            EpochEnd::LogindOwnerChanged,
        ),
        name != "org.freedesktop.UPower"@ && name != "org.freedesktop.login1"@ ==> reaction(
            SignalView::Owner(Some(Ok(name))),
        ) is Ignore,
        owner_reaction(name) == reaction(SignalView::Owner(Some(Ok(name)))),
{
    crate::bus::service_names_differ();
}

/// The views of signals and reactions keep all their text.
pub proof fn views_keep_every_signal(
    change: PropertyChange,
    words: String,
    end: EpochEnd,
)
    ensures
        change@.interface == change.interface@,
        change@.changed.len() == change.changed@.len(),
        forall|i: int|
            0 <= i < change.changed@.len() ==> #[trigger] change@.changed[i] == change.changed@[i]@,
        change@.invalidated.len() == change.invalidated@.len(),
        forall|i: int|
            0 <= i < change.invalidated@.len() ==> #[trigger] change@.invalidated[i]
                == change.invalidated@[i]@,
        Signal::Properties(None)@ == SignalView::Properties(None),
        Signal::Properties(Some(Ok(change)))@ == SignalView::Properties(Some(Ok(change@))),
        Signal::Properties(Some(Err(words)))@ == SignalView::Properties(Some(Err(words@))),
        Signal::Owner(None)@ == SignalView::Owner(None),
        Signal::Owner(Some(Ok(words)))@ == SignalView::Owner(Some(Ok(words@))),
        Signal::Owner(Some(Err(words)))@ == SignalView::Owner(Some(Err(words@))),
        Reaction::Ignore@ == ReactionView::Ignore,
        Reaction::Evaluate(words)@ == ReactionView::Evaluate(words@),
        Reaction::End(end)@ == ReactionView::End(end),
        Reaction::Fail(words)@ == ReactionView::Fail(words@),
{
}

} // verus!
