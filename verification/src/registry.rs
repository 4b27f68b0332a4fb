//! Watching the compositor's registry for the security-context manager.

use vstd::prelude::*;

use crate::text::str_eq;

verus! {

/// The interface name under which compositors advertise the manager.
pub open spec fn spec_manager_interface() -> Seq<char> {
    "wp_security_context_manager_v1"@
}

/// The interface name under which compositors advertise the manager.
pub fn manager_interface() -> (r: &'static str)
    ensures
        r@ == spec_manager_interface(),
{
    "wp_security_context_manager_v1"
}

/// The registry name and version last advertised for the manager; a name of
/// 0 means none was seen.
#[derive(Clone, Copy, Debug, PartialEq, Eq, Structural)]
pub struct ManagerGlobal {
    pub name: u32,
    pub version: u32,
}

impl ManagerGlobal {
    /// Nothing seen yet.
    pub fn unset() -> (r: ManagerGlobal)
        ensures
            r == (ManagerGlobal { name: 0, version: 0 }),
    {
        ManagerGlobal { name: 0, version: 0 }
    }

    /// Whether a manager was seen.
    pub fn is_advertised(&self) -> (r: bool)
        ensures
            r == (self.name != 0),
    {
        self.name != 0
    }
}

/// What the slot holds after the registry announces global `name` with
/// `interface` (`None` when the name is not valid UTF-8) and `version`.
pub open spec fn spec_observe(
    slot: ManagerGlobal,
    name: u32,
    interface: Option<Seq<char>>,
    version: u32,
) -> ManagerGlobal {
    if interface == Some(spec_manager_interface()) {
        ManagerGlobal { name, version }
    } else {
        slot
    }
}

/// Handles one global announced by the registry: a manager replaces what
/// the slot held, any other interface leaves it alone.
pub fn observe_global(slot: &mut ManagerGlobal, name: u32, interface: Option<&str>, version: u32)
    ensures
        *final(slot) == spec_observe(
            *old(slot),
            name,
            match interface {
                Some(s) => Some(s@),
                None => None,
            },
            version,
        ),
        interface matches Some(s) && s@ == "wp_security_context_manager_v1"@ ==> *final(slot)
            == (ManagerGlobal { name, version }),
        !(interface matches Some(s) && s@ == "wp_security_context_manager_v1"@) ==> *final(slot)
            == *old(slot),
{
    if let Some(iface) = interface {
        if str_eq(iface, manager_interface()) {
            *slot = ManagerGlobal { name, version };
        }
    }
}

/// Registry law: an announcement of the manager's interface records exactly
/// its name and version; any other announcement (or one whose interface is
/// not text) leaves the slot exactly as it was, name and version alike.
pub proof fn law_observe(slot: ManagerGlobal, name: u32, interface: Option<Seq<char>>, version: u32)
    ensures
        interface == Some("wp_security_context_manager_v1"@) ==> spec_observe(
            slot,
            name,
            interface,
            version,
        ) == (ManagerGlobal { name, version }),
        interface != Some("wp_security_context_manager_v1"@) ==> spec_observe(
            slot,
            name,
            interface,
            version,
        ) == slot,
{
}

/// Registry law over two announcements: after the manager is announced,
/// an announcement of another interface keeps the manager's name and
/// version; a second announcement of the manager replaces them.
pub proof fn law_observe_sequence(
    slot: ManagerGlobal,
    n1: u32,
    v1: u32,
    n2: u32,
    i2: Option<Seq<char>>,
    v2: u32,
)
    ensures
        ({
            let after = spec_observe(slot, n1, Some("wp_security_context_manager_v1"@), v1);
            let later = spec_observe(after, n2, i2, v2);
            &&& i2 != Some("wp_security_context_manager_v1"@) ==> later == (ManagerGlobal {
                name: n1,
                version: v1,
            })
            &&& i2 == Some("wp_security_context_manager_v1"@) ==> later == (ManagerGlobal {
                name: n2,
                version: v2,
            })
        }),
{
}

} // verus!
