//! The virtio-input device: identity, config-space negotiation, features,
//! activation and the hand-off of host events to the guest.
use vstd::prelude::*;
use vstd::utf8::encode_utf8;
use crate::buffer::{keep_last, overflow, saturating_add, EventBuffer};
use crate::protocol::{
    bit_is_set, config_bytes, le16_value, set_bit, zeros, VirtioInputConfig, VirtioInputDevIds, VirtioInputEvent,
    BUS_VIRTUAL, CONFIG_LEN, CONFIG_PAYLOAD_LEN, EV_KEY, EV_REL, EV_REP, EV_SYN, BTN_LEFT,
    BTN_MIDDLE, BTN_RIGHT, REL_WHEEL, REL_X, REL_Y, VIRTIO_INPUT_CFG_EV_BITS,
    VIRTIO_INPUT_CFG_ID_DEVIDS, VIRTIO_INPUT_CFG_ID_NAME, VIRTIO_INPUT_CFG_ID_SERIAL,
};

verus! {

/// Feature bit: the device conforms to virtio 1.0.
pub const VIRTIO_F_VERSION_1: u64 = 32;

/// virtio device id of an input device.
pub const VIRTIO_ID_INPUT: u32 = 18;

/// Entries of each of the two queues.
pub const QUEUE_SIZE: u16 = 256;

/// Vendor id of virtio devices.
pub const VIRTIO_VENDOR_ID: u16 = 0x1af4;

/// Most events held for the guest before the oldest are dropped.
pub const EVENT_BUFFER_BOUND: usize = 1024;

#[derive(Clone, Copy, Debug, PartialEq, Eq, Structural)]
pub enum Error {
    /// A queue notifier could not be created; the OS error code.
    EventFd(i32),
    /// `activate` was called on a device already activated.
    AlreadyActivated,
}

#[derive(Clone, Copy, Debug, PartialEq, Eq, Structural)]
pub enum InputDeviceType {
    Keyboard,
    Mouse,
}

/// Product id by device class.
pub open spec fn product_id(t: InputDeviceType) -> u16 {
    match t {
        InputDeviceType::Keyboard => 1,
        InputDeviceType::Mouse => 2,
    }
}

/// Device ids that a device of class `t` reports.
pub open spec fn dev_ids_of(t: InputDeviceType) -> VirtioInputDevIds {
    VirtioInputDevIds {
        bustype: BUS_VIRTUAL,
        vendor: VIRTIO_VENDOR_ID,
        product: product_id(t),
        version: 1,
    }
}

/// How many of `b`'s bytes fit in a payload.
pub open spec fn fitted_len(b: Seq<u8>) -> nat {
    if b.len() <= CONFIG_PAYLOAD_LEN {
        b.len()
    } else {
        CONFIG_PAYLOAD_LEN as nat
    }
}

/// A payload holding the first 128 bytes of `b`, zero-filled after them.
pub open spec fn fitted_payload(b: Seq<u8>) -> Seq<u8> {
    b.take(fitted_len(b) as int) + zeros((CONFIG_PAYLOAD_LEN - fitted_len(b)) as nat)
}

/// Bitmap of the event types of class `t`: SYN and KEY, and REP for a
/// keyboard or REL for a mouse.
pub open spec fn ev_types_payload(t: InputDeviceType) -> Seq<u8> {
    match t {
        InputDeviceType::Keyboard => zeros(CONFIG_PAYLOAD_LEN as nat).update(0, 0x03u8).update(
            2,
            0x10u8,
        ),
        InputDeviceType::Mouse => zeros(CONFIG_PAYLOAD_LEN as nat).update(0, 0x07u8),
    }
}

/// Whether `(select, subsel)` names a page that a device of class `t` fills.
pub open spec fn is_table_entry(t: InputDeviceType, select: u8, subsel: u8) -> bool {
    select == VIRTIO_INPUT_CFG_ID_NAME || select == VIRTIO_INPUT_CFG_ID_SERIAL || select
        == VIRTIO_INPUT_CFG_ID_DEVIDS || (select == VIRTIO_INPUT_CFG_EV_BITS && (subsel == 0
        || subsel == EV_KEY || (t == InputDeviceType::Keyboard && subsel == EV_REP) || (t
        == InputDeviceType::Mouse && subsel == EV_REL)))
}

/// Size and payload of the page `(select, subsel)` of a device of class `t`
/// whose name and serial encode to `name` and `serial`.
pub open spec fn config_page(
    t: InputDeviceType,
    name: Seq<u8>,
    serial: Seq<u8>,
    select: u8,
    subsel: u8,
) -> (u8, Seq<u8>) {
    let none = (0u8, zeros(CONFIG_PAYLOAD_LEN as nat));
    if select == VIRTIO_INPUT_CFG_ID_NAME {
        (fitted_len(name) as u8, fitted_payload(name))
    } else if select == VIRTIO_INPUT_CFG_ID_SERIAL {
        (fitted_len(serial) as u8, fitted_payload(serial))
    } else if select == VIRTIO_INPUT_CFG_ID_DEVIDS {
        (8u8, fitted_payload(dev_ids_of(t).spec_bytes()))
    } else if select == VIRTIO_INPUT_CFG_EV_BITS {
        if subsel == 0 {
            (1u8, ev_types_payload(t))
        } else if subsel == EV_KEY {
            match t {
                // Every key code is advertised.
                InputDeviceType::Keyboard => (128u8, Seq::new(CONFIG_PAYLOAD_LEN as nat, |i: int| 0xffu8)),
                // LEFT, RIGHT and MIDDLE are bits 0..2 of byte 34.
                InputDeviceType::Mouse => (24u8, zeros(CONFIG_PAYLOAD_LEN as nat).update(34, 0x07u8)),
            }
        } else if subsel == EV_REP && t == InputDeviceType::Keyboard {
            // REP_DELAY and REP_PERIOD.
            (1u8, zeros(CONFIG_PAYLOAD_LEN as nat).update(0, 0x03u8))
        } else if subsel == EV_REL && t == InputDeviceType::Mouse {
            // X and Y in byte 0, WHEEL in byte 1.
            (2u8, zeros(CONFIG_PAYLOAD_LEN as nat).update(0, 0x03u8).update(1, 0x01u8))
        } else {
            none
        }
    } else {
        none
    }
}

proof fn lemma_or_bytes()
    ensures
        0u8 | (1u8 << 0u8) == 0x01u8,
        0x01u8 | (1u8 << 1u8) == 0x03u8,
        0x03u8 | (1u8 << 2u8) == 0x07u8,
        0u8 | (1u8 << 4u8) == 0x10u8,
{
    assert(0u8 | (1u8 << 0u8) == 0x01u8) by (bit_vector);
    assert(0x01u8 | (1u8 << 1u8) == 0x03u8) by (bit_vector);
    assert(0x03u8 | (1u8 << 2u8) == 0x07u8) by (bit_vector);
    assert(0u8 | (1u8 << 4u8) == 0x10u8) by (bit_vector);
}

/// A page for `(select, subsel)` holding the first 128 bytes of `b`.
fn fitted_page(select: u8, subsel: u8, b: &[u8]) -> (r: VirtioInputConfig)
    ensures
        r.wf(),
        r.select == select,
        r.subsel == subsel,
        r.size == fitted_len(b@),
        r.payload@ == fitted_payload(b@),
{
    let n: usize = if b.len() <= CONFIG_PAYLOAD_LEN { b.len() } else { CONFIG_PAYLOAD_LEN };
    let mut config = VirtioInputConfig::empty(select, subsel);
    let mut i: usize = 0;
    while i < n
        invariant
            n == fitted_len(b@),
            i <= n,
            config.select == select,
            config.subsel == subsel,
            config.size == 0,
            config.payload@ == b@.take(i as int) + zeros((CONFIG_PAYLOAD_LEN - i) as nat),
        decreases n - i,
    {
        config.payload[i] = b[i];
        i = i + 1;
        assert(config.payload@ =~= b@.take(i as int) + zeros((CONFIG_PAYLOAD_LEN - i) as nat));
    }
    config.size = n as u8;
    config
}

/// A pair `(select, subsel)` that names no page of a device's table gives a
/// page of size 0.
pub proof fn lemma_unknown_page_is_empty(
    t: InputDeviceType,
    name: Seq<u8>,
    serial: Seq<u8>,
    select: u8,
    subsel: u8,
)
    requires
        !is_table_entry(t, select, subsel),
    ensures
        config_page(t, name, serial, select, subsel).0 == 0,
{
}

/// The name and serial pages hold the string's bytes exactly when it has at
/// most 128 of them, and its first 128 bytes otherwise.
pub proof fn lemma_identity_pages(
    t: InputDeviceType,
    name: Seq<u8>,
    serial: Seq<u8>,
    subsel: u8,
)
    ensures
        ({
            let (size, payload) = config_page(t, name, serial, VIRTIO_INPUT_CFG_ID_NAME, subsel);
            &&& name.len() <= 128 ==> size == name.len() && payload.take(size as int) == name
            &&& name.len() > 128 ==> size == 128 && payload == name.take(128)
        }),
        ({
            let (size, payload) = config_page(t, name, serial, VIRTIO_INPUT_CFG_ID_SERIAL, subsel);
            &&& serial.len() <= 128 ==> size == serial.len() && payload.take(size as int) == serial
            &&& serial.len() > 128 ==> size == 128 && payload == serial.take(128)
        }),
{
    assert(fitted_payload(name).take(fitted_len(name) as int) =~= name.take(fitted_len(name) as int));
    assert(fitted_payload(serial).take(fitted_len(serial) as int) =~= serial.take(
        fitted_len(serial) as int,
    ));
    assert(name.len() <= 128 ==> name.take(name.len() as int) =~= name);
    assert(serial.len() <= 128 ==> serial.take(serial.len() as int) =~= serial);
    assert(name.len() > 128 ==> fitted_payload(name) =~= name.take(128));
    assert(serial.len() > 128 ==> fitted_payload(serial) =~= serial.take(128));
}

/// The event-type bitmap (subsel 0) sets SYN and KEY for every device, REP
/// for a keyboard and REL for a mouse.
pub proof fn lemma_event_types_page(t: InputDeviceType, name: Seq<u8>, serial: Seq<u8>)
    ensures
        ({
            let (size, payload) = config_page(t, name, serial, VIRTIO_INPUT_CFG_EV_BITS, 0);
            &&& size == 1
            &&& bit_is_set(payload, EV_SYN as int)
            &&& bit_is_set(payload, EV_KEY as int)
            &&& t == InputDeviceType::Keyboard ==> bit_is_set(payload, EV_REP as int)
            &&& t == InputDeviceType::Mouse ==> bit_is_set(payload, EV_REL as int)
        }),
{
    assert((0x03u8 >> 0u8) & 1u8 == 1u8) by (bit_vector);
    assert((0x03u8 >> 1u8) & 1u8 == 1u8) by (bit_vector);
    assert((0x07u8 >> 0u8) & 1u8 == 1u8) by (bit_vector);
    assert((0x07u8 >> 1u8) & 1u8 == 1u8) by (bit_vector);
    assert((0x07u8 >> 2u8) & 1u8 == 1u8) by (bit_vector);
    assert((0x10u8 >> 4u8) & 1u8 == 1u8) by (bit_vector);
}

/// Whatever the guest acknowledges, what is kept lies within the offered
/// features, and every offered bit that was acknowledged is kept.
pub proof fn lemma_acked_within_avail(avail: u64, acked: u64)
    ensures
        (acked & avail) & avail == acked & avail,
        (acked & avail) & !avail == 0,
        ((avail | acked) & avail) == avail,
{
    assert((acked & avail) & avail == acked & avail) by (bit_vector);
    assert((acked & avail) & !avail == 0) by (bit_vector);
    assert(((avail | acked) & avail) == avail) by (bit_vector);
}

/// Reading the device-ids page gives size 8 and the product id of the class:
/// 1 for a keyboard, 2 for a mouse.
pub proof fn lemma_devids_page(t: InputDeviceType, name: Seq<u8>, serial: Seq<u8>, c: VirtioInputConfig)
    requires
        (c.size, c.payload@) == config_page(t, name, serial, VIRTIO_INPUT_CFG_ID_DEVIDS, c.subsel),
    ensures
        config_bytes(c)[2] == 8,
        le16_value(config_bytes(c)[12], config_bytes(c)[13]) == product_id(t),
        le16_value(config_bytes(c)[10], config_bytes(c)[11]) == VIRTIO_VENDOR_ID,
        le16_value(config_bytes(c)[8], config_bytes(c)[9]) == BUS_VIRTUAL,
        product_id(InputDeviceType::Keyboard) == 1,
        product_id(InputDeviceType::Mouse) == 2,
{
    let b = config_bytes(c);
    let ids = dev_ids_of(t).spec_bytes();
    assert(ids.len() == 8);
    assert(b[12] == ids[4] && b[13] == ids[5]);
    assert(b[10] == ids[2] && b[11] == ids[3]);
    assert(b[8] == ids[0] && b[9] == ids[1]);
}

/// The virtio-input device as the device bus sees it.
pub struct Input {
    device_type: InputDeviceType,
    device_name: String,
    name: String,
    serial: String,
    avail_features: u64,
    acked_features: u64,
    activated: bool,
    config: VirtioInputConfig,
    event_buffer: EventBuffer,
}

impl Input {
    pub closed spec fn spec_type(&self) -> InputDeviceType {
        self.device_type
    }

    pub closed spec fn spec_name(&self) -> Seq<char> {
        self.name@
    }

    pub closed spec fn spec_serial(&self) -> Seq<char> {
        self.serial@
    }

    pub closed spec fn spec_avail(&self) -> u64 {
        self.avail_features
    }

    pub closed spec fn spec_acked(&self) -> u64 {
        self.acked_features
    }

    pub closed spec fn spec_activated(&self) -> bool {
        self.activated
    }

    /// The page that config reads return.
    pub closed spec fn spec_config(&self) -> VirtioInputConfig {
        self.config
    }

    /// Events waiting for the guest, oldest first.
    pub closed spec fn spec_events(&self) -> Seq<VirtioInputEvent> {
        self.event_buffer@
    }

    pub closed spec fn spec_dropped(&self) -> u64 {
        self.event_buffer.spec_dropped()
    }

    pub closed spec fn wf(&self) -> bool {
        &&& self.config.wf()
        &&& self.event_buffer.wf()
        &&& self.event_buffer.spec_bound() == EVENT_BUFFER_BOUND
        &&& self.avail_features == 1u64 << VIRTIO_F_VERSION_1
        &&& self.acked_features & self.avail_features == self.acked_features
        &&& self.device_name@ == "virtio-input-"@ + self.name@
    }

    /// The page `(select, subsel)` of this device.
    pub open spec fn spec_page(&self, select: u8, subsel: u8) -> (u8, Seq<u8>) {
        config_page(
            self.spec_type(),
            encode_utf8(self.spec_name()),
            encode_utf8(self.spec_serial()),
            select,
            subsel,
        )
    }

    pub fn new(device_type: InputDeviceType, name: &str, serial: &str) -> (r: Self)
        ensures
            r.wf(),
            r.spec_type() == device_type,
            r.spec_name() == name@,
            r.spec_serial() == serial@,
            r.spec_acked() == 0,
            !r.spec_activated(),
            r.spec_config().select == 0,
            r.spec_config().subsel == 0,
            r.spec_config().size == 0,
            r.spec_events() == Seq::<VirtioInputEvent>::empty(),
            r.spec_dropped() == 0,
    {
        let device_name = String::from_str("virtio-input-").concat(name);
        let avail_features: u64 = 1u64 << VIRTIO_F_VERSION_1;
        proof {
            let a = avail_features;
            assert(0u64 & a == 0u64) by (bit_vector);
        }
        Input {
            device_type,
            device_name,
            name: name.to_owned(),
            serial: serial.to_owned(),
            avail_features,
            acked_features: 0,
            activated: false,
            config: VirtioInputConfig::empty(0, 0),
            event_buffer: EventBuffer::new(EVENT_BUFFER_BOUND),
        }
    }

    pub fn new_keyboard() -> (r: Self)
        ensures
            r.wf(),
            r.spec_type() == InputDeviceType::Keyboard,
            r.spec_name() == "virtio-keyboard"@,
            r.spec_serial() == "keyboard-1"@,
            r.spec_acked() == 0,
            !r.spec_activated(),
            r.spec_events() == Seq::<VirtioInputEvent>::empty(),
    {
        Self::new(InputDeviceType::Keyboard, "virtio-keyboard", "keyboard-1")
    }

    pub fn new_mouse() -> (r: Self)
        ensures
            r.wf(),
            r.spec_type() == InputDeviceType::Mouse,
            r.spec_name() == "virtio-mouse"@,
            r.spec_serial() == "mouse-1"@,
            r.spec_acked() == 0,
            !r.spec_activated(),
            r.spec_events() == Seq::<VirtioInputEvent>::empty(),
    {
        Self::new(InputDeviceType::Mouse, "virtio-mouse", "mouse-1")
    }

    /// The page of the event-type bitmaps selected by `subsel`.
    fn ev_bits_page(&self, subsel: u8) -> (r: VirtioInputConfig)
        requires
            self.wf(),
        ensures
            r.wf(),
            r.select == VIRTIO_INPUT_CFG_EV_BITS,
            r.subsel == subsel,
            (r.size, r.payload@) == self.spec_page(VIRTIO_INPUT_CFG_EV_BITS, subsel),
    {
        let mut config = VirtioInputConfig::empty(VIRTIO_INPUT_CFG_EV_BITS, subsel);
        proof {
            lemma_or_bytes();
        }
        if subsel == 0 {
            set_bit(config.payload.as_mut_slice(), EV_SYN as usize);
            set_bit(config.payload.as_mut_slice(), EV_KEY as usize);
            match self.device_type {
                InputDeviceType::Keyboard => set_bit(config.payload.as_mut_slice(), EV_REP as usize),
                InputDeviceType::Mouse => set_bit(config.payload.as_mut_slice(), EV_REL as usize),
            }
            config.size = 1;
        } else if subsel == EV_KEY as u8 {
            match self.device_type {
                InputDeviceType::Keyboard => {
                    config.payload = vec![0xffu8; CONFIG_PAYLOAD_LEN];
                    config.size = 128;
                },
                InputDeviceType::Mouse => {
                    set_bit(config.payload.as_mut_slice(), BTN_LEFT as usize);
                    set_bit(config.payload.as_mut_slice(), BTN_RIGHT as usize);
                    set_bit(config.payload.as_mut_slice(), BTN_MIDDLE as usize);
                    config.size = 24;
                },
            }
        } else if subsel == EV_REP as u8 && self.device_type == InputDeviceType::Keyboard {
            config.payload.set(0, 0x03);
            config.size = 1;
        } else if subsel == EV_REL as u8 && self.device_type == InputDeviceType::Mouse {
            set_bit(config.payload.as_mut_slice(), REL_X as usize);
            set_bit(config.payload.as_mut_slice(), REL_Y as usize);
            set_bit(config.payload.as_mut_slice(), REL_WHEEL as usize);
            config.size = 2;
        }
        assert(config.payload@ =~= self.spec_page(VIRTIO_INPUT_CFG_EV_BITS, subsel).1);
        config
    }

    /// The page `(select, subsel)`; a pair that names no page of this device
    /// gives an empty one.
    pub fn get_config(&self, select: u8, subsel: u8) -> (r: VirtioInputConfig)
        requires
            self.wf(),
        ensures
            r.wf(),
            r.select == select,
            r.subsel == subsel,
            (r.size, r.payload@) == self.spec_page(select, subsel),
    {
        if select == VIRTIO_INPUT_CFG_ID_NAME {
            fitted_page(select, subsel, self.name.as_str().as_bytes())
        } else if select == VIRTIO_INPUT_CFG_ID_SERIAL {
            fitted_page(select, subsel, self.serial.as_str().as_bytes())
        } else if select == VIRTIO_INPUT_CFG_ID_DEVIDS {
            let ids = VirtioInputDevIds {
                bustype: BUS_VIRTUAL,
                vendor: VIRTIO_VENDOR_ID,
                product: match self.device_type {
                    InputDeviceType::Keyboard => 1,
                    InputDeviceType::Mouse => 2,
                },
                version: 1,
            };
            let b = ids.to_bytes();
            fitted_page(select, subsel, b.as_slice())
        } else if select == VIRTIO_INPUT_CFG_EV_BITS {
            self.ev_bits_page(subsel)
        } else {
            let r = VirtioInputConfig::empty(select, subsel);
            assert(r.payload@ =~= self.spec_page(select, subsel).1);
            r
        }
    }

    /// The virtio device id.
    pub fn device_type(&self) -> (r: u32)
        ensures
            r == VIRTIO_ID_INPUT,
    {
        VIRTIO_ID_INPUT
    }

    /// "virtio-input-" followed by the name.
    pub fn device_name(&self) -> (r: &str)
        requires
            self.wf(),
        ensures
            r@ == "virtio-input-"@ + self.spec_name(),
    {
        self.device_name.as_str()
    }

    /// Sizes of the event queue (index 0) and the status queue (index 1).
    pub fn queue_sizes(&self) -> (r: Vec<u16>)
        ensures
            r@ == seq![QUEUE_SIZE, QUEUE_SIZE],
    {
        vec![QUEUE_SIZE, QUEUE_SIZE]
    }

    pub fn avail_features(&self) -> (r: u64)
        requires
            self.wf(),
        ensures
            r == self.spec_avail(),
            r == 1u64 << VIRTIO_F_VERSION_1,
    {
        self.avail_features
    }

    pub fn acked_features(&self) -> (r: u64)
        ensures
            r == self.spec_acked(),
    {
        self.acked_features
    }

    /// Records the features the guest acknowledged; bits the device does not
    /// offer are cleared.
    pub fn set_acked_features(&mut self, acked_features: u64)
        requires
            old(self).wf(),
        ensures
            final(self).wf(),
            final(self).spec_acked() == acked_features & old(self).spec_avail(),
            final(self).spec_avail() == old(self).spec_avail(),
            final(self).spec_type() == old(self).spec_type(),
            final(self).spec_name() == old(self).spec_name(),
            final(self).spec_serial() == old(self).spec_serial(),
            final(self).spec_activated() == old(self).spec_activated(),
            final(self).spec_config() == old(self).spec_config(),
            final(self).spec_events() == old(self).spec_events(),
            final(self).spec_dropped() == old(self).spec_dropped(),
    {
        let v = acked_features & self.avail_features;
        proof {
            let a = self.avail_features;
            assert((acked_features & a) & a == acked_features & a) by (bit_vector);
        }
        self.acked_features = v;
    }

    /// Bytes `offset..offset + len` of the current page, clipped to its end;
    /// nothing at or past the end.
    pub fn read_config(&self, offset: u64, len: usize) -> (r: Vec<u8>)
        requires
            self.wf(),
        ensures
            offset >= CONFIG_LEN ==> r@ == Seq::<u8>::empty(),
            offset < CONFIG_LEN ==> r@ == config_bytes(self.spec_config()).subrange(
                offset as int,
                if offset + len < CONFIG_LEN { offset + len } else { CONFIG_LEN as int },
            ),
    {
        let mut r: Vec<u8> = Vec::new();
        if offset >= CONFIG_LEN as u64 {
            return r;
        }
        let bytes = self.config.to_bytes();
        let start = offset as usize;
        let end: usize = if len < CONFIG_LEN - start { start + len } else { CONFIG_LEN };
        let mut i: usize = start;
        while i < end
            invariant
                start <= i <= end <= CONFIG_LEN,
                bytes@.len() == CONFIG_LEN,
                r@ == bytes@.subrange(start as int, i as int),
            decreases end - i,
        {
            r.push(bytes[i]);
            i = i + 1;
            assert(r@ =~= bytes@.subrange(start as int, i as int));
        }
        r
    }

    /// A write of at least two bytes at offset 0 selects the page
    /// `(data[0], data[1])`; any other write is ignored.
    pub fn write_config(&mut self, offset: u64, data: &[u8])
        requires
            old(self).wf(),
        ensures
            final(self).wf(),
            offset == 0 && data@.len() >= 2 ==> {
                let c = final(self).spec_config();
                &&& c.select == data@[0]
                &&& c.subsel == data@[1]
                &&& (c.size, c.payload@) == old(self).spec_page(data@[0], data@[1])
            },
            !(offset == 0 && data@.len() >= 2) ==> final(self).spec_config() == old(
                self,
            ).spec_config(),
            final(self).spec_type() == old(self).spec_type(),
            final(self).spec_name() == old(self).spec_name(),
            final(self).spec_serial() == old(self).spec_serial(),
            final(self).spec_avail() == old(self).spec_avail(),
            final(self).spec_acked() == old(self).spec_acked(),
            final(self).spec_activated() == old(self).spec_activated(),
            final(self).spec_events() == old(self).spec_events(),
            final(self).spec_dropped() == old(self).spec_dropped(),
    {
        if offset == 0 && data.len() >= 2 {
            self.config = self.get_config(data[0], data[1]);
        }
    }

    pub fn is_activated(&self) -> (r: bool)
        ensures
            r == self.spec_activated(),
    {
        self.activated
    }

    /// Marks the device activated, once; a second call is refused and changes nothing.
    pub fn activate(&mut self) -> (r: Result<(), Error>)
        requires
            old(self).wf(),
        ensures
            final(self).wf(),
            final(self).spec_activated(),
            old(self).spec_activated() ==> r == Err::<(), Error>(Error::AlreadyActivated),
            !old(self).spec_activated() ==> r == Ok::<(), Error>(()),
            final(self).spec_type() == old(self).spec_type(),
            final(self).spec_name() == old(self).spec_name(),
            final(self).spec_serial() == old(self).spec_serial(),
            final(self).spec_avail() == old(self).spec_avail(),
            final(self).spec_acked() == old(self).spec_acked(),
            final(self).spec_config() == old(self).spec_config(),
            final(self).spec_events() == old(self).spec_events(),
            final(self).spec_dropped() == old(self).spec_dropped(),
    {
        if self.activated {
            return Err(Error::AlreadyActivated);
        }
        self.activated = true;
        Ok(())
    }

    /// Queues a host event for the guest; when full, the oldest event is dropped.
    pub fn send_event(&mut self, event: VirtioInputEvent)
        requires
            old(self).wf(),
        ensures
            final(self).wf(),
            final(self).spec_events() == keep_last(
                old(self).spec_events().push(event),
                EVENT_BUFFER_BOUND as nat,
            ),
            final(self).spec_dropped() == saturating_add(
                old(self).spec_dropped(),
                overflow(old(self).spec_events().push(event), EVENT_BUFFER_BOUND as nat),
            ),
            final(self).spec_type() == old(self).spec_type(),
            final(self).spec_name() == old(self).spec_name(),
            final(self).spec_serial() == old(self).spec_serial(),
            final(self).spec_avail() == old(self).spec_avail(),
            final(self).spec_acked() == old(self).spec_acked(),
            final(self).spec_activated() == old(self).spec_activated(),
            final(self).spec_config() == old(self).spec_config(),
    {
        self.event_buffer.push(event);
    }

    /// Queues host events as one batch, so that an update and its
    /// synchronization marker are appended together.
    pub fn send_events(&mut self, events: &Vec<VirtioInputEvent>)
        requires
            old(self).wf(),
        ensures
            final(self).wf(),
            final(self).spec_events() == keep_last(
                old(self).spec_events() + events@,
                EVENT_BUFFER_BOUND as nat,
            ),
            final(self).spec_dropped() == saturating_add(
                old(self).spec_dropped(),
                overflow(old(self).spec_events() + events@, EVENT_BUFFER_BOUND as nat),
            ),
            final(self).spec_type() == old(self).spec_type(),
            final(self).spec_name() == old(self).spec_name(),
            final(self).spec_serial() == old(self).spec_serial(),
            final(self).spec_avail() == old(self).spec_avail(),
            final(self).spec_acked() == old(self).spec_acked(),
            final(self).spec_activated() == old(self).spec_activated(),
            final(self).spec_config() == old(self).spec_config(),
    {
        self.event_buffer.push_batch(events);
    }

    /// Takes the events to deliver when the guest has made `available`
    /// descriptors ready: the oldest ones, as many as fit, in order. Before
    /// activation nothing is delivered.
    pub fn dispatch(&mut self, available: usize) -> (r: Vec<VirtioInputEvent>)
        requires
            old(self).wf(),
        ensures
            final(self).wf(),
            !old(self).spec_activated() ==> r@ == Seq::<VirtioInputEvent>::empty()
                && final(self).spec_events() == old(self).spec_events(),
            old(self).spec_activated() ==> r@ == old(self).spec_events().take(
                if available < old(self).spec_events().len() {
                    available as int
                } else {
                    old(self).spec_events().len() as int
                },
            ) && final(self).spec_events() == old(self).spec_events().skip(r@.len() as int),
            final(self).spec_dropped() == old(self).spec_dropped(),
            final(self).spec_type() == old(self).spec_type(),
            final(self).spec_name() == old(self).spec_name(),
            final(self).spec_serial() == old(self).spec_serial(),
            final(self).spec_avail() == old(self).spec_avail(),
            final(self).spec_acked() == old(self).spec_acked(),
            final(self).spec_activated() == old(self).spec_activated(),
            final(self).spec_config() == old(self).spec_config(),
    {
        if !self.activated {
            return Vec::new();
        }
        self.event_buffer.drain(available)
    }

    /// Puts back, in front and in order, events that could not be written
    /// to the guest.
    pub fn requeue_events(&mut self, events: &Vec<VirtioInputEvent>)
        requires
            old(self).wf(),
        ensures
            final(self).wf(),
            final(self).spec_events() == keep_last(
                events@ + old(self).spec_events(),
                EVENT_BUFFER_BOUND as nat,
            ),
            final(self).spec_dropped() == saturating_add(
                old(self).spec_dropped(),
                overflow(events@ + old(self).spec_events(), EVENT_BUFFER_BOUND as nat),
            ),
            final(self).spec_type() == old(self).spec_type(),
            final(self).spec_name() == old(self).spec_name(),
            final(self).spec_serial() == old(self).spec_serial(),
            final(self).spec_avail() == old(self).spec_avail(),
            final(self).spec_acked() == old(self).spec_acked(),
            final(self).spec_activated() == old(self).spec_activated(),
            final(self).spec_config() == old(self).spec_config(),
    {
        self.event_buffer.requeue_front(events);
    }

    /// Discards every pending event, as on detach.
    pub fn discard_pending_events(&mut self)
        requires
            old(self).wf(),
        ensures
            final(self).wf(),
            final(self).spec_events() == Seq::<VirtioInputEvent>::empty(),
            final(self).spec_dropped() == old(self).spec_dropped(),
            final(self).spec_type() == old(self).spec_type(),
            final(self).spec_name() == old(self).spec_name(),
            final(self).spec_serial() == old(self).spec_serial(),
            final(self).spec_avail() == old(self).spec_avail(),
            final(self).spec_acked() == old(self).spec_acked(),
            final(self).spec_activated() == old(self).spec_activated(),
            final(self).spec_config() == old(self).spec_config(),
    {
        self.event_buffer.clear();
    }

    /// How many events wait for the guest.
    pub fn pending_events(&self) -> (r: usize)
        ensures
            r == self.spec_events().len(),
    {
        self.event_buffer.len()
    }

    /// How many events were dropped because the buffer was full.
    pub fn dropped_events(&self) -> (r: u64)
        ensures
            r == self.spec_dropped(),
    {
        self.event_buffer.dropped()
    }
}

} // verus!
