//! The D-Bus names that the daemon talks to, and what it asks of logind.

use vstd::prelude::*;

verus! {

/// Bus name of UPower.
pub const UPOWER_NAME: &'static str = "org.freedesktop.UPower";

/// Object path of UPower.
pub const UPOWER_PATH: &'static str = "/org/freedesktop/UPower";

/// Interface whose properties the daemon follows.
pub const UPOWER_INTERFACE: &'static str = "org.freedesktop.UPower";

/// Bus name of logind.
pub const LOGIND_NAME: &'static str = "org.freedesktop.login1";

/// Object path of logind.
pub const LOGIND_PATH: &'static str = "/org/freedesktop/login1";

/// Interface of logind that takes the inhibitor and the suspend request.
pub const LOGIND_INTERFACE: &'static str = "org.freedesktop.login1.Manager";

/// UPower property: the machine runs on battery.
pub const ON_BATTERY: &'static str = "OnBattery";

/// UPower property: the lid is closed.
pub const LID_IS_CLOSED: &'static str = "LidIsClosed";

/// Method of logind that hands out an inhibitor.
pub const INHIBIT_METHOD: &'static str = "Inhibit";

/// Method of logind that suspends the machine.
pub const SUSPEND_METHOD: &'static str = "Suspend";

/// What the inhibitor keeps logind from handling.
pub const INHIBIT_WHAT: &'static str = "handle-lid-switch";

/// On whose behalf the inhibitor is taken.
pub const INHIBIT_WHO: &'static str = "Omarchy Power Policy";

/// Why the inhibitor is taken.
pub const INHIBIT_WHY: &'static str = "Apply AC/battery lid policy";

/// How the inhibitor works: it blocks for as long as it is held.
pub const INHIBIT_MODE: &'static str = "block";

/// Seconds to wait before something that broke off is tried again.
pub const RETRY_SECONDS: u64 = 1;

/// UPower and logind have different bus names.
pub proof fn service_names_differ()
    ensures
        UPOWER_NAME@ != LOGIND_NAME@,
{
    reveal_strlit("org.freedesktop.UPower");
    reveal_strlit("org.freedesktop.login1");
    assert(UPOWER_NAME@[16] != LOGIND_NAME@[16]);
}

/// The two properties have different names.
pub proof fn property_names_differ()
    ensures
        ON_BATTERY@ != LID_IS_CLOSED@,
{
    reveal_strlit("OnBattery");
    reveal_strlit("LidIsClosed");
    assert(ON_BATTERY@[0] != LID_IS_CLOSED@[0]);
}

/// The names that the services, their objects and interfaces, the properties and the methods are
/// known by, and the arguments of the inhibitor.
pub proof fn well_known_names()
    ensures
        UPOWER_NAME@ == "org.freedesktop.UPower"@,
        UPOWER_PATH@ == "/org/freedesktop/UPower"@,
        UPOWER_INTERFACE@ == "org.freedesktop.UPower"@,
        LOGIND_NAME@ == "org.freedesktop.login1"@,
        LOGIND_PATH@ == "/org/freedesktop/login1"@,
        LOGIND_INTERFACE@ == "org.freedesktop.login1.Manager"@,
        ON_BATTERY@ == "OnBattery"@,
        LID_IS_CLOSED@ == "LidIsClosed"@,
        INHIBIT_METHOD@ == "Inhibit"@,
        SUSPEND_METHOD@ == "Suspend"@,
        INHIBIT_WHAT@ == "handle-lid-switch"@,
        INHIBIT_WHO@ == "Omarchy Power Policy"@,
        INHIBIT_WHY@ == "Apply AC/battery lid policy"@,
        INHIBIT_MODE@ == "block"@,
        RETRY_SECONDS == 1,
{
}

} // verus!
