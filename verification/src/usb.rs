//! Finding a phone on USB and switching it to accessory mode.

use vstd::prelude::*;
use vstd::string::StrSliceExecFns;

verus! {

/// The vendor id of a phone in accessory mode.
pub const ACCESSORY_VENDOR_ID: u16 = 0x18d1;

/// The product id of a phone in accessory mode.
pub const ACCESSORY_PRODUCT_ID: u16 = 0x2d00;

/// The product id of a phone in accessory mode with debugging enabled.
pub const ACCESSORY_ADB_PRODUCT_ID: u16 = 0x2d01;

/// The number of the interface that accessory mode uses.
pub const AOA_INTERFACE: u8 = 0;

/// The request that asks for the protocol version.
pub const AOA_GET_PROTOCOL: u8 = 51;

/// The request that sends an identifying string.
pub const AOA_SEND_STRING: u8 = 52;

/// The request that switches to accessory mode.
pub const AOA_START: u8 = 53;

/// How long a control transfer may take, in milliseconds.
pub const CONTROL_TIMEOUT_MS: u64 = 1000;

/// How long to wait between looks for an accessory, in milliseconds.
pub const ACCESSORY_POLL_MS: u64 = 500;

/// The speed that a device has negotiated.
#[derive(Debug, Clone, Copy, PartialEq, Eq, Structural)]
pub enum UsbSpeed {
    /// 1.5 Mbit/s.
    Low,
    /// 12 Mbit/s.
    Full,
    /// 480 Mbit/s.
    High,
    /// 5 Gbit/s.
    Super,
    /// 10 Gbit/s.
    SuperPlus,
}

/// An interface of a device.
#[derive(Debug, Clone, Copy, PartialEq, Eq, Structural)]
pub struct UsbInterfaceInfo {
    /// The interface class.
    pub class: u8,
    /// The interface subclass.
    pub subclass: u8,
    /// The interface protocol.
    pub protocol: u8,
}

/// What is known of a device without opening it.
#[derive(Debug, PartialEq, Eq)]
pub struct UsbDeviceInfo {
    /// The vendor id.
    pub vendor_id: u16,
    /// The product id.
    pub product_id: u16,
    /// The negotiated speed, where it is known.
    pub speed: Option<UsbSpeed>,
    /// The interfaces of the active configuration.
    pub interfaces: Vec<UsbInterfaceInfo>,
}

impl UsbInterfaceInfo {
    /// Whether this is an Android debug bridge.
    pub open spec fn is_adb(self) -> bool {
        self.class == 0xff && self.subclass == 0x42 && self.protocol == 0x01
    }

    /// Whether this transfers media or pictures.
    pub open spec fn is_mtp(self) -> bool {
        self.class == 0x06 && self.subclass == 0x01
    }
}

impl UsbDeviceInfo {
    /// Whether the device is a phone in accessory mode.
    pub open spec fn in_accessory_mode(self) -> bool {
        &&& self.vendor_id == ACCESSORY_VENDOR_ID
        &&& self.product_id == ACCESSORY_PRODUCT_ID || self.product_id == ACCESSORY_ADB_PRODUCT_ID
    }

    /// Whether some interface of the device is an Android debug bridge.
    pub open spec fn has_adb(self) -> bool {
        exists|i: int| 0 <= i < self.interfaces@.len() && #[trigger] self.interfaces@[i].is_adb()
    }

    /// Whether some interface of the device transfers media or pictures.
    pub open spec fn has_mtp(self) -> bool {
        exists|i: int| 0 <= i < self.interfaces@.len() && #[trigger] self.interfaces@[i].is_mtp()
    }

    /// Whether the device looks like an Android device.
    pub open spec fn android(self) -> bool {
        self.in_accessory_mode() || self.has_adb() || self.has_mtp()
    }

    /// Whether the device runs at USB 3 speed, at which accessory mode is
    /// unreliable.
    pub open spec fn super_speed(self) -> bool {
        self.speed == Some(UsbSpeed::Super) || self.speed == Some(UsbSpeed::SuperPlus)
    }
}

/// True if the device descriptor identifies a phone that is already in Android
/// Open Accessory mode: the accessory vendor id with one of the two accessory
/// product ids.
pub fn is_in_accessory_mode(info: &UsbDeviceInfo) -> (r: bool)
    ensures
        r == info.in_accessory_mode(),
{
    info.vendor_id == ACCESSORY_VENDOR_ID && (info.product_id == ACCESSORY_PRODUCT_ID
        || info.product_id == ACCESSORY_ADB_PRODUCT_ID)
}

/// Determines if the usb device is an android device: one in accessory mode, or
/// one with a debug bridge, or one that offers its media.
pub fn is_android_device(info: &UsbDeviceInfo) -> (r: bool)
    ensures
        r == info.android(),
{
    if is_in_accessory_mode(info) {
        return true;
    }
    let mut k: usize = 0;
    while k < info.interfaces.len()
        invariant
            k <= info.interfaces@.len(),
            forall|i: int|
                0 <= i < k ==> !(#[trigger] info.interfaces@[i]).is_adb()
                    && !info.interfaces@[i].is_mtp(),
        decreases info.interfaces@.len() - k,
    {
        let i: UsbInterfaceInfo = info.interfaces[k];
        if i.class == 0xff && i.subclass == 0x42 && i.protocol == 0x01 {
            assert(info.interfaces@[k as int].is_adb());
            return true;
        }
        if i.class == 0x06 && i.subclass == 0x01 {
            assert(info.interfaces@[k as int].is_mtp());
            return true;
        }
        k = k + 1;
    }
    false
}

/// Whether the device runs at USB 3 speed.
fn is_super_speed(info: &UsbDeviceInfo) -> (r: bool)
    ensures
        r == info.super_speed(),
{
    match info.speed {
        Some(UsbSpeed::Super) => true,
        Some(UsbSpeed::SuperPlus) => true,
        _ => false,
    }
}

/// The first device from `from` on that is in accessory mode, or the number of
/// devices if there is none.
pub open spec fn next_accessory(devices: Seq<UsbDeviceInfo>, from: int) -> int
    decreases devices.len() - from,
{
    if from >= devices.len() {
        devices.len() as int
    } else if devices[from].in_accessory_mode() {
        from
    } else {
        next_accessory(devices, from + 1)
    }
}

/// Finds the next device in accessory mode.
fn find_accessory(devices: &Vec<UsbDeviceInfo>, from: usize) -> (r: usize)
    requires
        from <= devices@.len(),
    ensures
        r == next_accessory(devices@, from as int),
        from <= r <= devices@.len(),
        r < devices@.len() ==> devices@[r as int].in_accessory_mode(),
{
    let mut k: usize = from;
    while k < devices.len()
        invariant
            from <= k <= devices@.len(),
            next_accessory(devices@, from as int) == next_accessory(devices@, k as int),
        decreases devices@.len() - k,
    {
        if is_in_accessory_mode(&devices[k]) {
            return k;
        }
        k = k + 1;
    }
    k
}

/// What is learned while waiting for an accessory.
#[derive(Debug, PartialEq, Eq)]
pub enum WaitEvent {
    /// The wait begins.
    Begin,
    /// The pause is over.
    Woke,
    /// The devices on the bus, unless they could not be listed.
    Listed(Option<Vec<UsbDeviceInfo>>),
}

/// What to do while waiting for an accessory.
#[derive(Debug, Clone, Copy, PartialEq, Eq, Structural)]
pub enum WaitAction {
    /// Pause for so many milliseconds.
    Sleep(u64),
    /// List the devices on the bus.
    List,
    /// Open this device of the list and be done, whether or not that works.
    Open {
        /// The position in the list.
        index: usize,
        /// Whether to warn that it runs at USB 3 speed.
        super_speed: bool,
    },
}

/// The action for an event while waiting: pause, look, and open the first
/// device in accessory mode; without one, pause again.
pub open spec fn wait_action(event: WaitEvent) -> WaitAction {
    match event {
        WaitEvent::Begin => WaitAction::Sleep(ACCESSORY_POLL_MS),
        WaitEvent::Woke => WaitAction::List,
        WaitEvent::Listed(None) => WaitAction::Sleep(ACCESSORY_POLL_MS),
        WaitEvent::Listed(Some(devices)) => {
            let index = next_accessory(devices@, 0);
            if index < devices@.len() {
                WaitAction::Open {
                    index: index as usize,
                    super_speed: devices@[index].super_speed(),
                }
            } else {
                WaitAction::Sleep(ACCESSORY_POLL_MS)
            }
        },
    }
}

/// One step of waiting until a phone shows up in accessory mode.
pub fn wait_for_accessory(event: &WaitEvent) -> (action: WaitAction)
    ensures
        action == wait_action(*event),
{
    match event {
        WaitEvent::Begin => WaitAction::Sleep(ACCESSORY_POLL_MS),
        WaitEvent::Woke => WaitAction::List,
        WaitEvent::Listed(None) => WaitAction::Sleep(ACCESSORY_POLL_MS),
        WaitEvent::Listed(Some(devices)) => {
            let index: usize = find_accessory(devices, 0);
            if index < devices.len() {
                WaitAction::Open { index, super_speed: is_super_speed(&devices[index]) }
            } else {
                WaitAction::Sleep(ACCESSORY_POLL_MS)
            }
        },
    }
}

/// What is learned while resetting stale accessories.
#[derive(Debug, PartialEq, Eq)]
pub enum ResetEvent {
    /// The devices on the bus, unless they could not be listed.
    Listed(Option<Vec<UsbDeviceInfo>>),
    /// Whether the device could be opened.
    Opened(bool),
    /// Whether the device could be reset.
    Reset(bool),
}

/// What to do while resetting stale accessories.
#[derive(Debug, Clone, Copy, PartialEq, Eq, Structural)]
pub enum ResetAction {
    /// Open this device of the list.
    Open(usize),
    /// Reset the device that was opened.
    Reset(usize),
    /// Be done, and say whether any device was reset.
    Finish(bool),
}

/// How far the reset of stale accessories has come.
#[derive(Debug, PartialEq, Eq)]
pub struct StaleReset {
    /// The devices on the bus.
    pub devices: Vec<UsbDeviceInfo>,
    /// The device that is being dealt with.
    pub cursor: usize,
    /// Whether any device was reset.
    pub any: bool,
}

impl StaleReset {
    /// The position lies within the list.
    pub open spec fn wf(self) -> bool {
        self.cursor <= self.devices@.len()
    }

    /// Nothing has happened yet.
    pub fn new() -> (r: Self)
        ensures
            r.wf(),
            r.devices@ == Seq::<UsbDeviceInfo>::empty(),
            r.cursor == 0,
            !r.any,
    {
        StaleReset { devices: Vec::new(), cursor: 0, any: false }
    }
}

/// Where the search for the next device goes on after the one at `cursor`.
pub open spec fn after(devices: Seq<UsbDeviceInfo>, cursor: int) -> int {
    if cursor < devices.len() {
        cursor + 1
    } else {
        devices.len() as int
    }
}

/// The action at position `cursor`: open the device there, or finish if the
/// list is through.
pub open spec fn reset_action(devices: Seq<UsbDeviceInfo>, cursor: int, any: bool) -> ResetAction {
    if cursor < devices.len() {
        ResetAction::Open(cursor as usize)
    } else {
        ResetAction::Finish(any)
    }
}

/// Whether `post` and `action` are what comes of `event` in state `pre`. Each
/// device in accessory mode is opened, in turn, and reset if it could be; one
/// that cannot be opened or reset is passed over.
pub open spec fn reset_step(
    pre: StaleReset,
    event: ResetEvent,
    post: StaleReset,
    action: ResetAction,
) -> bool {
    match event {
        ResetEvent::Listed(None) => post == pre && action == ResetAction::Finish(false),
        ResetEvent::Listed(Some(devices)) => {
            &&& post.devices == devices
            &&& post.cursor == next_accessory(devices@, 0)
            &&& !post.any
            &&& action == reset_action(devices@, post.cursor as int, false)
        },
        ResetEvent::Opened(true) => post == pre && action == ResetAction::Reset(pre.cursor),
        ResetEvent::Opened(false) => {
            &&& post.devices == pre.devices
            &&& post.cursor == next_accessory(
                pre.devices@,
                after(pre.devices@, pre.cursor as int),
            )
            &&& post.any == pre.any
            &&& action == reset_action(pre.devices@, post.cursor as int, post.any)
        },
        ResetEvent::Reset(done) => {
            &&& post.devices == pre.devices
            &&& post.cursor == next_accessory(
                pre.devices@,
                after(pre.devices@, pre.cursor as int),
            )
            &&& post.any == (pre.any || done)
            &&& action == reset_action(pre.devices@, post.cursor as int, post.any)
        },
    }
}

/// Goes on to the next device in accessory mode from `from` on.
fn reset_from(state: &mut StaleReset, from: usize) -> (action: ResetAction)
    requires
        from <= old(state).devices@.len(),
    ensures
        final(state).wf(),
        final(state).devices == old(state).devices,
        final(state).any == old(state).any,
        final(state).cursor == next_accessory(old(state).devices@, from as int),
        action == reset_action(
            old(state).devices@,
            final(state).cursor as int,
            final(state).any,
        ),
{
    let index: usize = find_accessory(&state.devices, from);
    state.cursor = index;
    if index < state.devices.len() {
        ResetAction::Open(index)
    } else {
        ResetAction::Finish(state.any)
    }
}

/// One step of resetting every USB device that sits in accessory mode.
///
/// When the head unit restarts without the phone being unplugged, the phone
/// keeps its previous session alive. A bus reset re-enumerates the device,
/// which the phone takes for a re-attach. A freshly connected phone is not yet
/// in accessory mode and is left alone.
pub fn reset_stale_accessories(state: &mut StaleReset, event: ResetEvent) -> (action: ResetAction)
    requires
        old(state).wf(),
    ensures
        final(state).wf(),
        reset_step(*old(state), event, *final(state), action),
{
    match event {
        ResetEvent::Listed(None) => ResetAction::Finish(false),
        ResetEvent::Listed(Some(devices)) => {
            state.devices = devices;
            state.any = false;
            reset_from(state, 0)
        },
        ResetEvent::Opened(opened) => {
            if opened {
                return ResetAction::Reset(state.cursor);
            }
            let from: usize = if state.cursor < state.devices.len() {
                state.cursor + 1
            } else {
                state.cursor
            };
            reset_from(state, from)
        },
        ResetEvent::Reset(done) => {
            state.any = state.any || done;
            let from: usize = if state.cursor < state.devices.len() {
                state.cursor + 1
            } else {
                state.cursor
            };
            reset_from(state, from)
        },
    }
}

/// A vendor request to the device that carries data to it.
#[derive(Debug, PartialEq, Eq)]
pub struct VendorOut {
    /// The request.
    pub request: u8,
    /// Its value.
    pub value: u16,
    /// Its index.
    pub index: u16,
    /// Its data.
    pub data: Vec<u8>,
    /// How long it may take, in milliseconds.
    pub timeout_ms: u64,
}

/// A vendor request to the device that asks data of it.
#[derive(Debug, Clone, Copy, PartialEq, Eq, Structural)]
pub struct VendorIn {
    /// The request.
    pub request: u8,
    /// Its value.
    pub value: u16,
    /// Its index.
    pub index: u16,
    /// How many bytes are asked for.
    pub length: u16,
    /// How long it may take, in milliseconds.
    pub timeout_ms: u64,
}

/// The strings by which the head unit identifies itself.
#[derive(Debug, Clone, Copy, PartialEq, Eq, Structural)]
pub enum AoaStringIndex {
    /// Who made it.
    Manufacturer,
    /// What it is.
    Model,
    /// What it is, for people.
    Description,
    /// Its version.
    Version,
    /// Where to learn more.
    Uri,
    /// Its serial number.
    SerialNumber,
}

impl AoaStringIndex {
    /// The number of the string in the protocol.
    pub open spec fn number(self) -> u16 {
        match self {
            AoaStringIndex::Manufacturer => 0,
            AoaStringIndex::Model => 1,
            AoaStringIndex::Description => 2,
            AoaStringIndex::Version => 3,
            AoaStringIndex::Uri => 4,
            AoaStringIndex::SerialNumber => 5,
        }
    }

    /// The string itself.
    pub open spec fn string(self) -> Seq<char> {
        match self {
            AoaStringIndex::Manufacturer => "Android"@,
            AoaStringIndex::Model => "Android Auto"@,
            AoaStringIndex::Description => "Android Auto"@,
            AoaStringIndex::Version => "2.0.1"@,
            AoaStringIndex::Uri => ""@,
            AoaStringIndex::SerialNumber => "HU-AAAAAA"@,
        }
    }

    /// The number of the string in the protocol.
    pub fn index(self) -> (r: u16)
        ensures
            r == self.number(),
    {
        match self {
            AoaStringIndex::Manufacturer => 0,
            AoaStringIndex::Model => 1,
            AoaStringIndex::Description => 2,
            AoaStringIndex::Version => 3,
            AoaStringIndex::Uri => 4,
            AoaStringIndex::SerialNumber => 5,
        }
    }

    /// The string itself.
    pub fn value(self) -> (r: &'static str)
        ensures
            r@ == self.string(),
    {
        match self {
            AoaStringIndex::Manufacturer => "Android",
            AoaStringIndex::Model => "Android Auto",
            AoaStringIndex::Description => "Android Auto",
            AoaStringIndex::Version => "2.0.1",
            AoaStringIndex::Uri => "",
            AoaStringIndex::SerialNumber => "HU-AAAAAA",
        }
    }
}

/// Whether `out` sends the string `value` under the number `index`.
pub open spec fn sends_string(out: VendorOut, index: u16, value: Seq<char>) -> bool {
    &&& out.request == AOA_SEND_STRING
    &&& out.value == 0
    &&& out.index == index
    &&& out.data@ == vstd::utf8::encode_utf8(value)
    &&& out.timeout_ms == CONTROL_TIMEOUT_MS
}

/// The request that sends an identifying string.
pub fn send_aoa_string(index: u16, value: &str) -> (out: VendorOut)
    ensures
        sends_string(out, index, value@),
{
    VendorOut {
        request: AOA_SEND_STRING,
        value: 0,
        index,
        data: value.as_bytes_vec(),
        timeout_ms: CONTROL_TIMEOUT_MS,
    }
}

/// The strings in the order in which they are sent.
pub open spec fn identification() -> Seq<AoaStringIndex> {
    seq![
        AoaStringIndex::Manufacturer,
        AoaStringIndex::Model,
        AoaStringIndex::Description,
        AoaStringIndex::Version,
        AoaStringIndex::Uri,
        AoaStringIndex::SerialNumber,
    ]
}

/// What to do to identify the head unit.
#[derive(Debug, PartialEq, Eq)]
pub enum IdentifyAction {
    /// Send this request.
    Send(VendorOut),
    /// All strings were sent.
    Done,
    /// A string could not be sent, and the rest are not tried.
    Failed,
}

/// Whether `action` is right after `sent` strings went out and the last request
/// went well or not.
pub open spec fn identify_action(sent: int, failed: bool, action: IdentifyAction) -> bool {
    if failed {
        action is Failed
    } else if 0 <= sent < identification().len() {
        action matches IdentifyAction::Send(out) && sends_string(
            out,
            identification()[sent].number(),
            identification()[sent].string(),
        )
    } else {
        action is Done
    }
}

/// One step of identifying the head unit to the phone. `sent` counts the
/// strings that the phone has accepted, and `failed` says that it refused the
/// last one.
pub fn identify_accessory(sent: usize, failed: bool) -> (action: IdentifyAction)
    ensures
        identify_action(sent as int, failed, action),
{
    if failed {
        return IdentifyAction::Failed;
    }
    let string: AoaStringIndex = match sent {
        0 => AoaStringIndex::Manufacturer,
        1 => AoaStringIndex::Model,
        2 => AoaStringIndex::Description,
        3 => AoaStringIndex::Version,
        4 => AoaStringIndex::Uri,
        5 => AoaStringIndex::SerialNumber,
        _ => return IdentifyAction::Done,
    };
    IdentifyAction::Send(send_aoa_string(string.index(), string.value()))
}

/// The request that switches the phone to accessory mode.
pub fn accessory_start() -> (out: VendorOut)
    ensures
        out.request == AOA_START,
        out.value == 0,
        out.index == 0,
        out.data@ == Seq::<u8>::empty(),
        out.timeout_ms == CONTROL_TIMEOUT_MS,
{
    VendorOut {
        request: AOA_START,
        value: 0,
        index: 0,
        data: Vec::new(),
        timeout_ms: CONTROL_TIMEOUT_MS,
    }
}

/// The request that asks for the protocol version.
pub fn aoa_protocol_request() -> (r: VendorIn)
    ensures
        r.request == AOA_GET_PROTOCOL,
        r.value == 0,
        r.index == 0,
        r.length == 2,
        r.timeout_ms == CONTROL_TIMEOUT_MS,
{
    VendorIn {
        request: AOA_GET_PROTOCOL,
        value: 0,
        index: 0,
        length: 2,
        timeout_ms: CONTROL_TIMEOUT_MS,
    }
}

/// The protocol version in a reply: two bytes, the low one first.
pub open spec fn protocol_version(reply: Seq<u8>) -> int {
    reply[0] + 256 * reply[1]
}

/// If possible, the aoa protocol number of the device, from its reply to the
/// request for it. Without a reply, from one that is too short, and from a
/// reply of zero, there is none.
pub fn get_aoa_protocol(reply: Option<&[u8]>) -> (r: Option<u16>)
    ensures
        r is Some <==> reply is Some && reply->0@.len() >= 2 && protocol_version(reply->0@) >= 1,
        r matches Some(version) ==> version == protocol_version(reply->0@),
{
    match reply {
        None => None,
        Some(bytes) => {
            if bytes.len() < 2 {
                return None;
            }
            let low: u16 = bytes[0] as u16;
            let high: u16 = bytes[1] as u16;
            let version: u16 = low + 256 * high;
            if version >= 1 {
                Some(version)
            } else {
                None
            }
        },
    }
}

} // verus!
