//! The device registry as a mathematical object: a map from device index to
//! device description, a map from device index to the number of event
//! channels that are subscribed to the device, and the operations that the
//! session performs on the two. The session's contracts are stated over
//! these functions, and what the functions imply is proved here.

use crate::messages::DeviceInfoView;
use vstd::prelude::*;

verus! {

/// The devices that a session knows, by index.
pub type DeviceMap = Map<u32, DeviceInfoView>;

/// For each device index, the subscribers of the device in the order in
/// which they subscribed. `S` is what a subscriber is known by.
pub type Subscriptions<S> = Map<u32, Seq<S>>;

/// The registry after `info` was registered: a device that was known under
/// the same index is replaced.
pub open spec fn registered(devices: DeviceMap, info: DeviceInfoView) -> DeviceMap {
    devices.insert(info.device_index, info)
}

/// The registry after each device of `infos` was registered, first to last.
pub open spec fn registered_all(devices: DeviceMap, infos: Seq<DeviceInfoView>) -> DeviceMap
    decreases infos.len(),
{
    if infos.len() == 0 {
        devices
    } else {
        registered(registered_all(devices, infos.drop_last()), infos.last())
    }
}

/// The registry after the device with index `index` was removed.
pub open spec fn unregistered(devices: DeviceMap, index: u32) -> DeviceMap {
    devices.remove(index)
}

/// The subscribers of the device `index`, first to last; none where the
/// device has no entry.
pub open spec fn subscribers_of<S>(subscriptions: Subscriptions<S>, index: u32) -> Seq<S> {
    if subscriptions.contains_key(index) {
        subscriptions[index]
    } else {
        Seq::empty()
    }
}

/// The subscriptions after `subscriber` subscribed to the device `index`:
/// it comes last among the device's subscribers, and the earlier ones stay.
pub open spec fn subscribed<S>(subscriptions: Subscriptions<S>, index: u32, subscriber: S)
    -> Subscriptions<S> {
    subscriptions.insert(index, subscribers_of(subscriptions, index).push(subscriber))
}

/// How many devices of `infos` have the index `index`.
pub open spec fn announcements(infos: Seq<DeviceInfoView>, index: u32) -> nat
    decreases infos.len(),
{
    if infos.len() == 0 {
        0
    } else {
        announcements(infos.drop_last(), index) + if infos.last().device_index == index {
            1nat
        } else {
            0nat
        }
    }
}

/// Whether `after` is `before` with one new subscriber for each device of
/// `infos`: every device keeps its earlier subscribers in their order, and
/// behind them has as many new ones as `infos` names the device.
pub open spec fn grown<S>(
    before: Subscriptions<S>,
    after: Subscriptions<S>,
    infos: Seq<DeviceInfoView>,
) -> bool {
    &&& forall|index: u32| #[trigger]
        after.contains_key(index) <==> before.contains_key(index) || announcements(infos, index)
            > 0
    &&& forall|index: u32|
        (#[trigger] subscribers_of(after, index)).len() == subscribers_of(before, index).len()
            + announcements(infos, index) && subscribers_of(after, index).take(
            subscribers_of(before, index).len() as int,
        ) == subscribers_of(before, index)
}

/// Whether `after` is `before` with one new subscriber for every device
/// that has an entry: each keeps its earlier subscribers in their order and
/// has one new subscriber behind them.
pub open spec fn grown_each<S>(before: Subscriptions<S>, after: Subscriptions<S>) -> bool {
    &&& after.dom() == before.dom()
    &&& forall|index: u32| #[trigger]
        before.contains_key(index) ==> after[index].len() == before[index].len() + 1
            && after[index].drop_last() == before[index]
}

/// Subscriptions are themselves grown by no device at all.
pub proof fn lemma_grown_by_none<S>(subscriptions: Subscriptions<S>)
    ensures
        grown(subscriptions, subscriptions, Seq::<DeviceInfoView>::empty()),
{
    assert forall|index: u32|
        (#[trigger] subscribers_of(subscriptions, index)).take(
            subscribers_of(subscriptions, index).len() as int,
        ) == subscribers_of(subscriptions, index) by {
        let known = subscribers_of(subscriptions, index);
        assert(known.take(known.len() as int) =~= known);
    }
}

/// One more subscription extends what a list of devices has grown: if
/// `middle` is `before` grown by `infos`, then `middle` with a subscriber
/// for `info` is `before` grown by `infos` and `info`.
pub proof fn lemma_grown_by_one_more<S>(
    before: Subscriptions<S>,
    middle: Subscriptions<S>,
    infos: Seq<DeviceInfoView>,
    info: DeviceInfoView,
    subscriber: S,
)
    requires
        grown(before, middle, infos),
    ensures
        grown(before, subscribed(middle, info.device_index, subscriber), infos.push(info)),
{
    let after = subscribed(middle, info.device_index, subscriber);
    let longer = infos.push(info);
    assert(longer.drop_last() =~= infos);
    assert(longer.last() == info);
    assert forall|index: u32|
        (#[trigger] subscribers_of(after, index)).len() == subscribers_of(before, index).len()
            + announcements(longer, index) && subscribers_of(after, index).take(
            subscribers_of(before, index).len() as int,
        ) == subscribers_of(before, index) by {
        let earlier = subscribers_of(before, index);
        let known = subscribers_of(middle, index);
        assert(known.take(earlier.len() as int) == earlier);
        if index == info.device_index {
            assert(subscribers_of(after, index) == known.push(subscriber));
            assert(known.push(subscriber).take(earlier.len() as int) =~= known.take(
                earlier.len() as int,
            ));
        } else {
            assert(subscribers_of(after, index) == known);
        }
    }
    assert forall|index: u32| #[trigger]
        after.contains_key(index) <==> before.contains_key(index) || announcements(longer, index)
            > 0 by {
        assert(middle.contains_key(index) <==> before.contains_key(index) || announcements(
            infos,
            index,
        ) > 0);
    }
}

/// Whether no two devices of `infos` have the same index.
pub open spec fn distinct_indices(infos: Seq<DeviceInfoView>) -> bool {
    forall|i: int, j: int|
        0 <= i < j < infos.len() ==> (#[trigger] infos[i]).device_index != (
        #[trigger] infos[j]).device_index
}

/// Whether `listed` is a listing of `devices`: every device of the registry
/// once, with its description, and nothing else, in any order.
pub open spec fn lists(listed: Seq<DeviceInfoView>, devices: DeviceMap) -> bool {
    &&& listed.len() == devices.len()
    &&& distinct_indices(listed)
    &&& forall|i: int|
        0 <= i < listed.len() ==> devices.contains_key((#[trigger] listed[i]).device_index)
            && devices[listed[i].device_index] == listed[i]
    &&& forall|index: u32| #[trigger]
        devices.contains_key(index) ==> exists|i: int|
            0 <= i < listed.len() && (#[trigger] listed[i]).device_index == index
}

/// A device that has been registered is in every listing of the registry,
/// with the description it was registered with, and after its removal it is
/// in none.
pub proof fn lemma_listed_between_add_and_remove(
    devices: DeviceMap,
    info: DeviceInfoView,
    while_known: Seq<DeviceInfoView>,
    after_removal: Seq<DeviceInfoView>,
)
    requires
        lists(while_known, registered(devices, info)),
        lists(after_removal, unregistered(registered(devices, info), info.device_index)),
    ensures
        exists|i: int| 0 <= i < while_known.len() && while_known[i] == info,
        forall|i: int|
            0 <= i < after_removal.len() ==> (#[trigger] after_removal[i]).device_index
                != info.device_index,
{
    assert(registered(devices, info).contains_key(info.device_index));
    let i = choose|i: int|
        0 <= i < while_known.len() && (#[trigger] while_known[i]).device_index
            == info.device_index;
    assert(while_known[i] == info);
}

/// Where the registry is touched, bulk registration is pointwise: an index
/// that no device of `infos` has keeps what it had.
pub proof fn lemma_registered_all_keeps_others(
    devices: DeviceMap,
    infos: Seq<DeviceInfoView>,
    index: u32,
)
    requires
        forall|i: int| 0 <= i < infos.len() ==> (#[trigger] infos[i]).device_index != index,
    ensures
        registered_all(devices, infos).contains_key(index) == devices.contains_key(index),
        devices.contains_key(index) ==> registered_all(devices, infos)[index] == devices[index],
    decreases infos.len(),
{
    if infos.len() > 0 {
        let front = infos.drop_last();
        assert forall|i: int| 0 <= i < front.len() implies (#[trigger] front[i]).device_index
            != index by {
            assert(front[i] == infos[i]);
        }
        lemma_registered_all_keeps_others(devices, front, index);
        assert(infos.last() == infos[infos.len() - 1]);
    }
}

/// A device list with `n` distinct indices registers all `n` devices, each
/// with the description that the list gives for it, on top of what the
/// registry held; into an empty registry it puts exactly those `n`.
pub proof fn lemma_bulk_registration(devices: DeviceMap, infos: Seq<DeviceInfoView>)
    requires
        devices.dom().finite(),
        distinct_indices(infos),
    ensures
        forall|i: int|
            0 <= i < infos.len() ==> registered_all(devices, infos).contains_key(
                (#[trigger] infos[i]).device_index,
            ) && registered_all(devices, infos)[infos[i].device_index] == infos[i],
        forall|index: u32|
            devices.contains_key(index) ==> #[trigger] registered_all(devices, infos).contains_key(
                index,
            ),
        registered_all(devices, infos).dom().finite(),
        devices.len() == 0 ==> registered_all(devices, infos).len() == infos.len(),
        lists(infos, registered_all(Map::empty(), infos)),
{
    lemma_bulk_distinct(devices, infos);
    lemma_bulk_distinct(Map::empty(), infos);
    let fresh = registered_all(Map::empty(), infos);
    assert forall|index: u32| #[trigger] fresh.contains_key(index) implies exists|i: int|
        0 <= i < infos.len() && (#[trigger] infos[i]).device_index == index by {
        if forall|i: int| 0 <= i < infos.len() ==> (#[trigger] infos[i]).device_index != index {
            lemma_registered_all_keeps_others(Map::empty(), infos, index);
        }
    }
    assert forall|index: u32| devices.contains_key(index) implies #[trigger] registered_all(
        devices,
        infos,
    ).contains_key(index) by {
        if forall|i: int| 0 <= i < infos.len() ==> (#[trigger] infos[i]).device_index != index {
            lemma_registered_all_keeps_others(devices, infos, index);
        } else {
            let i = choose|i: int|
                0 <= i < infos.len() && (#[trigger] infos[i]).device_index == index;
            assert(registered_all(devices, infos).contains_key(infos[i].device_index));
        }
    }
}

/// The part of bulk registration that is proved by induction: every device
/// of a list with distinct indices is found afterwards, and the registry
/// grows by the number of indices that are new to it.
proof fn lemma_bulk_distinct(devices: DeviceMap, infos: Seq<DeviceInfoView>)
    requires
        devices.dom().finite(),
        distinct_indices(infos),
    ensures
        forall|i: int|
            0 <= i < infos.len() ==> registered_all(devices, infos).contains_key(
                (#[trigger] infos[i]).device_index,
            ) && registered_all(devices, infos)[infos[i].device_index] == infos[i],
        registered_all(devices, infos).dom().finite(),
        devices.len() == 0 ==> registered_all(devices, infos).len() == infos.len(),
    decreases infos.len(),
{
    if infos.len() > 0 {
        let front = infos.drop_last();
        let last = infos.last();
        assert(last == infos[infos.len() - 1]);
        assert forall|i: int, j: int| 0 <= i < j < front.len() implies (
        #[trigger] front[i]).device_index != (#[trigger] front[j]).device_index by {
            assert(front[i] == infos[i] && front[j] == infos[j]);
        }
        lemma_bulk_distinct(devices, front);
        assert forall|i: int| 0 <= i < infos.len() implies registered_all(
            devices,
            infos,
        ).contains_key((#[trigger] infos[i]).device_index) && registered_all(
            devices,
            infos,
        )[infos[i].device_index] == infos[i] by {
            if i < front.len() {
                assert(front[i] == infos[i]);
            }
        }
        if devices.len() == 0 {
            assert(devices =~= Map::empty());
            assert forall|i: int| 0 <= i < front.len() implies (#[trigger] front[i]).device_index
                != last.device_index by {
                assert(front[i] == infos[i]);
            }
            lemma_registered_all_keeps_others(devices, front, last.device_index);
            assert(!registered_all(devices, front).contains_key(last.device_index));
        }
    }
}

} // verus!
