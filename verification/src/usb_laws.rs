//! What holds of the search for phones, and of every run that resets stale
//! accessories.

use vstd::prelude::*;

use crate::usb::{
    accessory_start, aoa_protocol_request, get_aoa_protocol, identify_accessory, is_android_device,
    is_in_accessory_mode, reset_stale_accessories, send_aoa_string, wait_for_accessory,
    AoaStringIndex, IdentifyAction, ResetAction, ResetEvent, StaleReset, UsbDeviceInfo,
    UsbInterfaceInfo, VendorIn, VendorOut, WaitAction, WaitEvent,
};

verus! {

/// A phone in accessory mode is an Android device.
pub proof fn law_accessories_are_android(info: UsbDeviceInfo)
    requires
        info.in_accessory_mode(),
    ensures
        info.android(),
{
}

/// A phone in accessory mode is told by its ids, and by nothing else: the
/// accessory vendor with one of the two accessory products.
pub proof fn law_accessories_are_told_by_their_ids(info: UsbDeviceInfo, r: bool)
    requires
        call_ensures(is_in_accessory_mode, (&info,), r),
    ensures
        r <==> info.vendor_id == 0x18d1 && (info.product_id == 0x2d00 || info.product_id
            == 0x2d01),
        r == info.in_accessory_mode(),
{
}

/// An Android device is one in accessory mode, or one of whose interfaces, at
/// any position, is a debug bridge or transfers media or pictures.
pub proof fn law_android_devices(info: UsbDeviceInfo, r: bool)
    requires
        call_ensures(is_android_device, (&info,), r),
    ensures
        info.vendor_id == 0x18d1 && (info.product_id == 0x2d00 || info.product_id == 0x2d01) ==> r,
        forall|i: int|
            0 <= i < info.interfaces@.len() && android_interface(#[trigger] info.interfaces@[i])
                ==> r,
        r && !(info.vendor_id == 0x18d1 && (info.product_id == 0x2d00 || info.product_id
            == 0x2d01)) ==> exists|i: int|
            0 <= i < info.interfaces@.len() && android_interface(#[trigger] info.interfaces@[i]),
{
    assert forall|i: int|
        0 <= i < info.interfaces@.len() && android_interface(
            #[trigger] info.interfaces@[i],
        ) implies r by {
        assert(info.interfaces@[i].is_adb() || info.interfaces@[i].is_mtp());
    }
    if info.has_adb() {
        let i = choose|i: int|
            0 <= i < info.interfaces@.len() && #[trigger] info.interfaces@[i].is_adb();
        assert(android_interface(info.interfaces@[i]));
    }
    if info.has_mtp() {
        let i = choose|i: int|
            0 <= i < info.interfaces@.len() && #[trigger] info.interfaces@[i].is_mtp();
        assert(android_interface(info.interfaces@[i]));
    }
}

/// An interface that only Android devices have: a debug bridge, whose class is
/// vendor specific, or a still image interface, over which media and pictures
/// are transferred.
pub open spec fn android_interface(i: UsbInterfaceInfo) -> bool {
    ||| i.class == 255 && i.subclass == 66 && i.protocol == 1
    ||| i.class == 6 && i.subclass == 1
}

/// The next device in accessory mode is the first one: none is passed over, and
/// there is none at all if the search runs to the end of the list.
pub proof fn law_next_accessory_is_first(devices: Seq<UsbDeviceInfo>, from: int)
    requires
        0 <= from <= devices.len(),
    ensures
        from <= crate::usb::next_accessory(devices, from) <= devices.len(),
        forall|k: int|
            from <= k < crate::usb::next_accessory(devices, from)
                ==> !(#[trigger] devices[k]).in_accessory_mode(),
        crate::usb::next_accessory(devices, from) < devices.len()
            ==> devices[crate::usb::next_accessory(devices, from)].in_accessory_mode(),
    decreases devices.len() - from,
{
    if from < devices.len() && !devices[from].in_accessory_mode() {
        law_next_accessory_is_first(devices, from + 1);
    }
}

/// Waiting ends with the first device on the bus that is in accessory mode, as
/// soon as there is one, and goes on otherwise.
pub proof fn law_wait_opens_first_accessory(devices: Vec<UsbDeviceInfo>)
    ensures
        match crate::usb::wait_action(WaitEvent::Listed(Some(devices))) {
            WaitAction::Open { index, super_speed } => {
                &&& index < devices@.len()
                &&& devices@[index as int].in_accessory_mode()
                &&& forall|k: int| 0 <= k < index ==> !(#[trigger] devices@[k]).in_accessory_mode()
                &&& super_speed == devices@[index as int].super_speed()
            },
            WaitAction::Sleep(ms) => {
                &&& ms == crate::usb::ACCESSORY_POLL_MS
                &&& forall|k: int|
                    0 <= k < devices@.len() ==> !(#[trigger] devices@[k]).in_accessory_mode()
            },
            WaitAction::List => false,
        },
{
    law_next_accessory_is_first(devices@, 0);
    assert(devices.len() == devices@.len());
}

/// Waiting for an accessory is a cycle: a pause of half a second, a look at the
/// bus, and another pause if the look showed nothing. It ends with the first
/// device that has the ids of an accessory, and warns exactly if that device
/// runs at one of the two USB 3 speeds.
pub proof fn law_waiting(event: WaitEvent, action: WaitAction)
    requires
        call_ensures(wait_for_accessory, (&event,), action),
    ensures
        action is List <==> event is Woke,
        action matches WaitAction::Sleep(ms) ==> ms == 500,
        action is Open <==> (event matches WaitEvent::Listed(Some(devices)) && exists|k: int|
            0 <= k < devices@.len() && accessory_ids(#[trigger] devices@[k])),
        action matches WaitAction::Open { index, super_speed } ==> (
        event matches WaitEvent::Listed(Some(devices)) && {
            &&& index < devices@.len()
            &&& accessory_ids(devices@[index as int])
            &&& forall|k: int| 0 <= k < index ==> !accessory_ids(#[trigger] devices@[k])
            &&& super_speed <==> match devices@[index as int].speed {
                Some(speed) => speed is Super || speed is SuperPlus,
                None => false,
            }
        }),
{
    if let WaitEvent::Listed(Some(devices)) = event {
        law_wait_opens_first_accessory(devices);
        assert forall|k: int| 0 <= k < devices@.len() implies accessory_ids(
            #[trigger] devices@[k],
        ) == devices@[k].in_accessory_mode() by {}
        if action is Open {
            assert(accessory_ids(devices@[action->index as int]));
        }
    }
}

/// Whether a device has the ids of a phone in accessory mode.
pub open spec fn accessory_ids(info: UsbDeviceInfo) -> bool {
    info.vendor_id == 0x18d1 && (info.product_id == 0x2d00 || info.product_id == 0x2d01)
}

/// Whether some device before `end` is in accessory mode and could be opened and
/// reset.
pub open spec fn some_reset(
    devices: Seq<UsbDeviceInfo>,
    opens: spec_fn(int) -> bool,
    resets: spec_fn(int) -> bool,
    end: int,
) -> bool {
    exists|k: int|
        0 <= k < end && (#[trigger] devices[k]).in_accessory_mode() && opens(k) && resets(k)
}

/// What is learned after an action, when `opens` and `resets` say what works on
/// which device.
pub open spec fn reset_answer(
    action: ResetAction,
    opens: spec_fn(int) -> bool,
    resets: spec_fn(int) -> bool,
) -> ResetEvent {
    match action {
        ResetAction::Open(k) => ResetEvent::Opened(opens(k as int)),
        ResetAction::Reset(k) => ResetEvent::Reset(resets(k as int)),
        ResetAction::Finish(_) => ResetEvent::Listed(None),
    }
}

/// A run of the reset over a list of devices: it starts from the list, and goes
/// on with the outcome of each action. Round `i` ends in `states[i]` with
/// `actions[i]`, and only the last one may finish.
pub open spec fn reset_run(
    begin: StaleReset,
    devices: Vec<UsbDeviceInfo>,
    opens: spec_fn(int) -> bool,
    resets: spec_fn(int) -> bool,
    states: Seq<StaleReset>,
    actions: Seq<ResetAction>,
) -> bool {
    &&& states.len() == actions.len()
    &&& actions.len() > 0
    &&& crate::usb::reset_step(begin, ResetEvent::Listed(Some(devices)), states[0], actions[0])
    &&& forall|i: int|
        #![trigger actions[i]]
        0 <= i < actions.len() - 1 ==> !(actions[i] is Finish) && crate::usb::reset_step(
            states[i],
            reset_answer(actions[i], opens, resets),
            states[i + 1],
            actions[i + 1],
        )
}

/// A step of the reset is one of the steps that the laws speak of.
pub proof fn law_reset_is_a_step(
    state: &mut StaleReset,
    event: ResetEvent,
    action: ResetAction,
)
    requires
        call_ensures(reset_stale_accessories, (state, event), action),
    ensures
        crate::usb::reset_step(*old(state), event, *final(state), action),
        final(state).wf(),
{
}

/// A reset starts out with nothing done.
pub proof fn law_new_reset(state: StaleReset)
    requires
        call_ensures(StaleReset::new, (), state),
    ensures
        state.wf(),
        state.devices@.len() == 0,
        !state.any,
{
}

/// Without a list of devices, nothing is touched and nothing was reset.
pub proof fn law_no_list_no_reset(pre: StaleReset, post: StaleReset, action: ResetAction)
    requires
        crate::usb::reset_step(pre, ResetEvent::Listed(None), post, action),
    ensures
        action == ResetAction::Finish(false),
        post == pre,
{
}

/// A device that was opened is the one that is reset.
pub proof fn law_opened_device_is_reset(
    before: StaleReset,
    event: ResetEvent,
    pre: StaleReset,
    k: usize,
    post: StaleReset,
    action: ResetAction,
)
    requires
        crate::usb::reset_step(before, event, pre, ResetAction::Open(k)),
        crate::usb::reset_step(pre, ResetEvent::Opened(true), post, action),
        before.wf(),
    ensures
        action == ResetAction::Reset(k),
        post == pre,
{
    match event {
        ResetEvent::Listed(Some(devices)) => {
            law_next_accessory_is_first(devices@, 0);
        },
        _ => {
            law_next_accessory_is_first(
                before.devices@,
                crate::usb::after(before.devices@, before.cursor as int),
            );
        },
    }
}

/// Where a run stands: `any` tells the truth about the devices dealt with, and
/// the action concerns a device in accessory mode.
spec fn reset_inv(
    devices: Seq<UsbDeviceInfo>,
    opens: spec_fn(int) -> bool,
    resets: spec_fn(int) -> bool,
    state: StaleReset,
    action: ResetAction,
) -> bool {
    &&& state.devices@ == devices
    &&& state.cursor <= devices.len()
    &&& state.any == some_reset(devices, opens, resets, state.cursor as int)
    &&& match action {
        ResetAction::Open(k) => {
            &&& k == state.cursor
            &&& k < devices.len()
            &&& devices[k as int].in_accessory_mode()
        },
        ResetAction::Reset(k) => {
            &&& k == state.cursor
            &&& k < devices.len()
            &&& devices[k as int].in_accessory_mode()
            &&& opens(k as int)
        },
        ResetAction::Finish(any) => {
            &&& any == state.any
            &&& state.cursor == devices.len()
        },
    }
}

/// Devices that are not in accessory mode, or that did not work, add nothing to
/// what was reset.
proof fn lemma_some_reset_grows(
    devices: Seq<UsbDeviceInfo>,
    opens: spec_fn(int) -> bool,
    resets: spec_fn(int) -> bool,
    from: int,
    end: int,
)
    requires
        0 <= from <= end <= devices.len(),
        forall|k: int|
            from <= k < end ==> !((#[trigger] devices[k]).in_accessory_mode() && opens(k)
                && resets(k)),
    ensures
        some_reset(devices, opens, resets, end) == some_reset(devices, opens, resets, from),
{
    if some_reset(devices, opens, resets, end) {
        let k = choose|k: int|
            0 <= k < end && (#[trigger] devices[k]).in_accessory_mode() && opens(k) && resets(k);
        assert(k < from);
    }
}

proof fn lemma_reset_inv(
    begin: StaleReset,
    devices: Vec<UsbDeviceInfo>,
    opens: spec_fn(int) -> bool,
    resets: spec_fn(int) -> bool,
    states: Seq<StaleReset>,
    actions: Seq<ResetAction>,
    n: int,
)
    requires
        reset_run(begin, devices, opens, resets, states, actions),
        0 <= n < actions.len(),
    ensures
        reset_inv(devices@, opens, resets, states[n], actions[n]),
    decreases n,
{
    if n == 0 {
        law_next_accessory_is_first(devices@, 0);
        lemma_some_reset_grows(devices@, opens, resets, 0, states[0].cursor as int);
    } else {
        let p = n - 1;
        lemma_reset_inv(begin, devices, opens, resets, states, actions, p);
        let _ = actions[p];
        let cursor = states[p].cursor as int;
        let done = opens(cursor) && resets(cursor);
        if !(actions[p] is Open && opens(cursor)) {
            law_next_accessory_is_first(devices@, cursor + 1);
            lemma_some_reset_grows(devices@, opens, resets, cursor + 1, states[n].cursor as int);
            if done {
                assert(devices@[cursor].in_accessory_mode());
                assert(some_reset(devices@, opens, resets, cursor + 1));
            } else {
                lemma_some_reset_grows(devices@, opens, resets, cursor, cursor + 1);
            }
        }
    }
}

/// Only phones in accessory mode are touched, and only those that could be
/// opened are reset.
pub proof fn law_reset_touches_only_accessories(
    begin: StaleReset,
    devices: Vec<UsbDeviceInfo>,
    opens: spec_fn(int) -> bool,
    resets: spec_fn(int) -> bool,
    states: Seq<StaleReset>,
    actions: Seq<ResetAction>,
    n: int,
)
    requires
        reset_run(begin, devices, opens, resets, states, actions),
        0 <= n < actions.len(),
    ensures
        actions[n] matches ResetAction::Open(k) ==> k < devices@.len()
            && devices@[k as int].in_accessory_mode(),
        actions[n] matches ResetAction::Reset(k) ==> k < devices@.len()
            && devices@[k as int].in_accessory_mode() && opens(k as int),
{
    lemma_reset_inv(begin, devices, opens, resets, states, actions, n);
}

/// The answer at the end of a run is true exactly if at least one accessory was
/// reset.
pub proof fn law_reset_tells_the_truth(
    begin: StaleReset,
    devices: Vec<UsbDeviceInfo>,
    opens: spec_fn(int) -> bool,
    resets: spec_fn(int) -> bool,
    states: Seq<StaleReset>,
    actions: Seq<ResetAction>,
    n: int,
)
    requires
        reset_run(begin, devices, opens, resets, states, actions),
        0 <= n < actions.len(),
    ensures
        actions[n] matches ResetAction::Finish(any) ==> any == some_reset(
            devices@,
            opens,
            resets,
            devices@.len() as int,
        ),
{
    lemma_reset_inv(begin, devices, opens, resets, states, actions, n);
}

/// Every round of a run but the last gets further: it moves to a later device,
/// or from opening a device to resetting it. So a run comes to an end.
pub proof fn law_reset_makes_progress(
    begin: StaleReset,
    devices: Vec<UsbDeviceInfo>,
    opens: spec_fn(int) -> bool,
    resets: spec_fn(int) -> bool,
    states: Seq<StaleReset>,
    actions: Seq<ResetAction>,
    n: int,
)
    requires
        reset_run(begin, devices, opens, resets, states, actions),
        0 <= n < actions.len() - 1,
    ensures
        states[n].cursor < states[n + 1].cursor <= devices@.len() || (states[n].cursor == states[n
            + 1].cursor && actions[n] is Open && actions[n + 1] is Reset),
{
    lemma_reset_inv(begin, devices, opens, resets, states, actions, n);
    lemma_reset_inv(begin, devices, opens, resets, states, actions, n + 1);
    let _ = actions[n];
    law_next_accessory_is_first(devices@, states[n].cursor as int + 1);
}

/// The numbers below `end` that `which` picks, in ascending order.
pub open spec fn picked(which: spec_fn(int) -> bool, end: int) -> Seq<int>
    decreases end,
{
    if end <= 0 {
        seq![]
    } else if which(end - 1) {
        picked(which, end - 1).push(end - 1)
    } else {
        picked(which, end - 1)
    }
}

/// Picks the devices in accessory mode.
pub open spec fn accessory(devices: Seq<UsbDeviceInfo>) -> spec_fn(int) -> bool {
    |k: int| devices[k].in_accessory_mode()
}

/// Picks the devices in accessory mode that can be opened.
pub open spec fn usable_accessory(
    devices: Seq<UsbDeviceInfo>,
    opens: spec_fn(int) -> bool,
) -> spec_fn(int) -> bool {
    |k: int| devices[k].in_accessory_mode() && opens(k)
}

/// The devices that the first `n` actions open.
pub open spec fn opened(actions: Seq<ResetAction>, n: int) -> Seq<int>
    decreases n,
{
    if n <= 0 {
        seq![]
    } else {
        match actions[n - 1] {
            ResetAction::Open(k) => opened(actions, n - 1).push(k as int),
            _ => opened(actions, n - 1),
        }
    }
}

/// The devices that the first `n` actions reset.
pub open spec fn were_reset(actions: Seq<ResetAction>, n: int) -> Seq<int>
    decreases n,
{
    if n <= 0 {
        seq![]
    } else {
        match actions[n - 1] {
            ResetAction::Reset(k) => were_reset(actions, n - 1).push(k as int),
            _ => were_reset(actions, n - 1),
        }
    }
}

/// Every number that is picked is listed, once, in ascending order, and no
/// other number is.
proof fn lemma_picked_once(which: spec_fn(int) -> bool, end: int)
    ensures
        forall|k: int| #[trigger]
            picked(which, end).contains(k) <==> 0 <= k < end && which(k),
        forall|i: int, j: int|
            0 <= i < j < picked(which, end).len() ==> picked(which, end)[i] < picked(which, end)[j],
        picked(which, end).no_duplicates(),
    decreases end,
{
    if end > 0 {
        lemma_picked_once(which, end - 1);
        let before = picked(which, end - 1);
        let now = picked(which, end);
        assert forall|i: int| 0 <= i < before.len() implies before[i] < end - 1 by {
            assert(before.contains(before[i]));
        }
        assert forall|k: int| #[trigger] now.contains(k) <==> 0 <= k < end && which(k) by {
            if now.contains(k) {
                let i = now.index_of(k);
                if i < before.len() {
                    assert(before[i] == k);
                    assert(before.contains(k));
                }
            }
            if 0 <= k < end && which(k) {
                if k < end - 1 {
                    assert(before.contains(k));
                    assert(now[before.index_of(k)] == k);
                } else {
                    assert(now.last() == k);
                }
            }
        }
    }
}

/// Numbers that are not picked add nothing.
proof fn lemma_picked_skips(which: spec_fn(int) -> bool, from: int, end: int)
    requires
        0 <= from <= end,
        forall|k: int| from <= k < end ==> !(#[trigger] which(k)),
    ensures
        picked(which, end) == picked(which, from),
    decreases end - from,
{
    if from < end {
        assert(!which(end - 1));
        lemma_picked_skips(which, from, end - 1);
    }
}

/// Where a run stands: all accessories before the cursor were opened, in order,
/// and those that could be were reset.
proof fn lemma_reset_trail(
    begin: StaleReset,
    devices: Vec<UsbDeviceInfo>,
    opens: spec_fn(int) -> bool,
    resets: spec_fn(int) -> bool,
    states: Seq<StaleReset>,
    actions: Seq<ResetAction>,
    n: int,
)
    requires
        reset_run(begin, devices, opens, resets, states, actions),
        0 <= n < actions.len(),
    ensures
        opened(actions, n) == picked(
            accessory(devices@),
            states[n].cursor as int + (if actions[n] is Reset {
                1int
            } else {
                0
            }),
        ),
        were_reset(actions, n) == picked(
            usable_accessory(devices@, opens),
            states[n].cursor as int,
        ),
    decreases n,
{
    let all = accessory(devices@);
    let usable = usable_accessory(devices@, opens);
    lemma_reset_inv(begin, devices, opens, resets, states, actions, n);
    let now = states[n].cursor as int;
    if n == 0 {
        law_next_accessory_is_first(devices@, 0);
        lemma_picked_skips(all, 0, now);
        lemma_picked_skips(usable, 0, now);
    } else {
        let p = n - 1;
        lemma_reset_trail(begin, devices, opens, resets, states, actions, p);
        lemma_reset_inv(begin, devices, opens, resets, states, actions, p);
        let _ = actions[p];
        let cursor = states[p].cursor as int;
        assert(all(cursor));
        assert(usable(cursor) == opens(cursor));
        if !(actions[p] is Open && opens(cursor)) {
            law_next_accessory_is_first(devices@, cursor + 1);
            lemma_picked_skips(all, cursor + 1, now);
            lemma_picked_skips(usable, cursor + 1, now);
        }
    }
}

/// A run that has finished opened every accessory on the list exactly once, in
/// the order of the list, and reset every one that it could open exactly once,
/// in the same order. It touched nothing else.
pub proof fn law_reset_takes_every_accessory_once(
    begin: StaleReset,
    devices: Vec<UsbDeviceInfo>,
    opens: spec_fn(int) -> bool,
    resets: spec_fn(int) -> bool,
    states: Seq<StaleReset>,
    actions: Seq<ResetAction>,
)
    requires
        reset_run(begin, devices, opens, resets, states, actions),
        actions.last() is Finish,
    ensures
        opened(actions, actions.len() as int) == picked(
            accessory(devices@),
            devices@.len() as int,
        ),
        were_reset(actions, actions.len() as int) == picked(
            usable_accessory(devices@, opens),
            devices@.len() as int,
        ),
        opened(actions, actions.len() as int).no_duplicates(),
        were_reset(actions, actions.len() as int).no_duplicates(),
        forall|k: int| #[trigger]
            opened(actions, actions.len() as int).contains(k) <==> 0 <= k < devices@.len()
                && devices@[k].in_accessory_mode(),
        forall|k: int| #[trigger]
            were_reset(actions, actions.len() as int).contains(k) <==> 0 <= k < devices@.len()
                && devices@[k].in_accessory_mode() && opens(k),
{
    let n = actions.len() - 1;
    lemma_reset_trail(begin, devices, opens, resets, states, actions, n);
    lemma_reset_inv(begin, devices, opens, resets, states, actions, n);
    lemma_picked_once(accessory(devices@), devices@.len() as int);
    lemma_picked_once(usable_accessory(devices@, opens), devices@.len() as int);
}

/// With no phone in accessory mode on the bus, nothing is opened or reset.
pub proof fn law_fresh_phones_are_left_alone(
    pre: StaleReset,
    devices: Vec<UsbDeviceInfo>,
    post: StaleReset,
    action: ResetAction,
)
    requires
        crate::usb::reset_step(pre, ResetEvent::Listed(Some(devices)), post, action),
        forall|k: int| 0 <= k < devices@.len() ==> !(#[trigger] devices@[k]).in_accessory_mode(),
    ensures
        action == ResetAction::Finish(false),
{
    law_next_accessory_is_first(devices@, 0);
}

/// The strings of the identification are numbered in the order in which they
/// are sent, and there are six of them.
pub proof fn law_identification_order(i: int)
    requires
        0 <= i < crate::usb::identification().len(),
    ensures
        crate::usb::identification().len() == 6,
        crate::usb::identification()[i].number() == i,
{
}

/// Any string can be sent, under any number, and arrives whole: the request
/// carries the string in UTF-8 and nothing else.
pub proof fn law_strings_are_sent_whole(index: u16, value: &str, out: VendorOut)
    requires
        call_ensures(send_aoa_string, (index, value), out),
    ensures
        out.request == 52,
        out.value == 0,
        out.index == index,
        out.timeout_ms == 1000,
        out.data@ == vstd::utf8::encode_utf8(value@),
        vstd::utf8::valid_utf8(out.data@),
        vstd::utf8::decode_utf8(out.data@) == value@,
{
    vstd::utf8::encode_utf8_valid_utf8(value@);
    vstd::utf8::encode_utf8_decode_utf8(value@);
}

/// The string that stands at a position of the identification.
pub open spec fn identity(sent: int) -> Seq<char> {
    if sent == 0 {
        "Android"@
    } else if sent == 1 || sent == 2 {
        "Android Auto"@
    } else if sent == 3 {
        "2.0.1"@
    } else if sent == 4 {
        ""@
    } else {
        "HU-AAAAAA"@
    }
}

/// The head unit sends its six strings one after the other, each under the
/// number of those sent before it, and is done after the sixth. A refusal ends
/// it at once, wherever it comes.
pub proof fn law_identification(sent: usize, failed: bool, action: IdentifyAction)
    requires
        call_ensures(identify_accessory, (sent, failed), action),
    ensures
        action is Failed <==> failed,
        action is Done <==> !failed && sent >= 6,
        action matches IdentifyAction::Send(out) ==> {
            &&& out.request == 52
            &&& out.value == 0
            &&& out.index == sent
            &&& out.data@ == vstd::utf8::encode_utf8(identity(sent as int))
            &&& out.timeout_ms == 1000
        },
{
}

/// Every string has its own number, below six, and is the one that is sent at
/// that position.
pub proof fn law_strings_and_numbers(string: AoaStringIndex, number: u16, value: &'static str)
    requires
        call_ensures(AoaStringIndex::index, (string,), number),
        call_ensures(AoaStringIndex::value, (string,), value),
    ensures
        number < 6,
        crate::usb::identification()[number as int] == string,
        value@ == identity(number as int),
{
}

/// The requests that ask for the protocol version and that switch to accessory
/// mode.
pub proof fn law_fixed_requests(version: VendorIn, switch: VendorOut)
    requires
        call_ensures(aoa_protocol_request, (), version),
        call_ensures(accessory_start, (), switch),
    ensures
        version.request == 51,
        version.value == 0,
        version.index == 0,
        version.length == 2,
        version.timeout_ms == 1000,
        switch.request == 53,
        switch.value == 0,
        switch.index == 0,
        switch.data@.len() == 0,
        switch.timeout_ms == 1000,
{
}

/// The protocol version is the number whose low byte and high byte begin the
/// reply, whatever follows them. There is none without a reply, in a reply of
/// fewer than two bytes, and if the number is zero.
pub proof fn law_protocol_version(reply: Option<&[u8]>, r: Option<u16>)
    requires
        call_ensures(get_aoa_protocol, (reply,), r),
    ensures
        r matches Some(version) ==> {
            &&& version > 0
            &&& reply is Some
            &&& reply->0@.len() >= 2
            &&& version % 256 == reply->0@[0]
            &&& version / 256 == reply->0@[1]
        },
        r is None ==> {
            ||| reply is None
            ||| reply->0@.len() < 2
            ||| reply->0@[0] == 0 && reply->0@[1] == 0
        },
{
}

} // verus!
