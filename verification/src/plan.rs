//! The order in which capabilities are attached.

use vstd::prelude::*;
use crate::capability::Capability;
use crate::platform::Platform;

verus! {

/// The capabilities that are attached on a platform, in the order in which
/// they are attached: autostart first where the platform has it, then the
/// opener, the store and the notifications.
pub open spec fn registrations(platform: Platform) -> Seq<Capability> {
    match platform {
        Platform::Desktop => seq![
            Capability::Autostart,
            Capability::Opener,
            Capability::Store,
            Capability::Notification,
        ],
        Platform::Mobile => seq![Capability::Opener, Capability::Store, Capability::Notification],
    }
}

/// The number of capabilities that are attached on a platform.
pub fn plan_len(platform: Platform) -> (len: usize)
    ensures
        len == registrations(platform).len(),
{
    match platform {
        Platform::Desktop => 4,
        Platform::Mobile => 3,
    }
}

/// The capability that is attached at a position of the order, counted from
/// zero, or `None` past the end of the order.
pub fn capability_at(platform: Platform, index: usize) -> (capability: Option<Capability>)
    ensures
        index < registrations(platform).len() ==> capability == Some(
            registrations(platform)[index as int],
        ),
        index >= registrations(platform).len() ==> capability is None,
{
    if index >= plan_len(platform) {
        return None;
    }
    let slot: usize = match platform {
        Platform::Desktop => index,
        Platform::Mobile => index + 1,
    };
    if slot == 0 {
        Some(Capability::Autostart)
    } else if slot == 1 {
        Some(Capability::Opener)
    } else if slot == 2 {
        Some(Capability::Store)
    } else {
        Some(Capability::Notification)
    }
}

/// The capabilities that are attached on a platform, in order.
pub fn plan(platform: Platform) -> (order: Vec<Capability>)
    ensures
        order@ == registrations(platform),
{
    let mut order: Vec<Capability> = Vec::new();
    let len: usize = plan_len(platform);
    let mut index: usize = 0;
    while index < len
        invariant
            len == registrations(platform).len(),
            index <= len,
            order@ == registrations(platform).take(index as int),
        decreases len - index,
    {
        match capability_at(platform, index) {
            Some(capability) => order.push(capability),
            None => {},
        }
        index = index + 1;
    }
    order
}

/// Whatever the platform, the order holds every capability that is available
/// on it exactly once and no other, and autostart, where it is attached,
/// comes before the rest.
pub proof fn law_plan_holds_available_capabilities_once(platform: Platform)
    ensures
        forall|c: Capability|
            registrations(platform).contains(c) <==> c.spec_is_available_on(platform),
        registrations(platform).no_duplicates(),
        forall|i: int|
            0 <= i < registrations(platform).len() && registrations(platform)[i]
                == Capability::Autostart ==> i == 0,
{
    let order = registrations(platform);
    assert forall|c: Capability| c.spec_is_available_on(platform) implies order.contains(c) by {
        let at: int = match c {
            Capability::Autostart => 0,
            Capability::Opener => order.len() - 3,
            Capability::Store => order.len() - 2,
            Capability::Notification => order.len() - 1,
        };
        assert(order[at] == c);
    }
}

} // verus!
