use omarchy_power_policy::epoch::{
    react, react_to_change, react_to_owner, EpochEnd, PropertyChange, Reaction, Signal,
};

fn change(interface: &str, changed: &[&str], invalidated: &[&str]) -> PropertyChange {
    PropertyChange {
        interface: interface.to_string(),
        changed: changed.iter().map(|name| name.to_string()).collect(),
        invalidated: invalidated.iter().map(|name| name.to_string()).collect(),
    }
}

#[test]
fn a_policy_property_causes_a_reading() {
    let upower = "org.freedesktop.UPower";
    assert_eq!(
        react_to_change(&change(upower, &["OnBattery", "DaemonVersion"], &[])),
        Reaction::Evaluate("upower:OnBattery".to_string())
    );
    assert_eq!(
        react_to_change(&change(upower, &["OnBattery"], &["LidIsClosed"])),
        Reaction::Evaluate("upower:LidIsClosed,OnBattery".to_string())
    );
}

#[test]
fn other_properties_and_interfaces_are_ignored() {
    let upower = "org.freedesktop.UPower";
    assert_eq!(react_to_change(&change(upower, &["DaemonVersion"], &[])), Reaction::Ignore);
    assert_eq!(react_to_change(&change(upower, &[], &[])), Reaction::Ignore);
    assert_eq!(
        react_to_change(&change("org.freedesktop.UPower.Device", &["OnBattery"], &[])),
        Reaction::Ignore
    );
}

#[test]
fn owners_of_the_two_services_end_the_epoch() {
    assert_eq!(
        react_to_owner("org.freedesktop.UPower"),
        Reaction::End(EpochEnd::UpowerOwnerChanged)
    );
    assert_eq!(
        react_to_owner("org.freedesktop.login1"),
        Reaction::End(EpochEnd::LogindOwnerChanged)
    );
    assert_eq!(react_to_owner("org.freedesktop.NetworkManager"), Reaction::Ignore);
}

#[test]
fn every_kind_of_signal_has_its_reaction() {
    assert_eq!(
        react(Signal::Properties(None)),
        Reaction::Fail("UPower property signal stream ended".to_string())
    );
    assert_eq!(
        react(Signal::Properties(Some(Err("bad body".to_string())))),
        Reaction::Fail("bad body".to_string())
    );
    assert_eq!(
        react(Signal::Properties(Some(Ok(change(
            "org.freedesktop.UPower",
            &["LidIsClosed"],
            &[]
        ))))),
        Reaction::Evaluate("upower:LidIsClosed".to_string())
    );
    assert_eq!(react(Signal::Owner(None)), Reaction::End(EpochEnd::SystemBusEnded));
    assert_eq!(
        react(Signal::Owner(Some(Err("bad name".to_string())))),
        Reaction::Fail("bad name".to_string())
    );
    assert_eq!(
        react(Signal::Owner(Some(Ok("org.freedesktop.login1".to_string())))),
        Reaction::End(EpochEnd::LogindOwnerChanged)
    );
}
