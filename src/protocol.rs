//! virtio-input wire records: input events, device ids and config pages.
use vstd::prelude::*;

verus! {

// Config-space selectors.
pub const VIRTIO_INPUT_CFG_UNSET: u8 = 0x00;
pub const VIRTIO_INPUT_CFG_ID_NAME: u8 = 0x01;
pub const VIRTIO_INPUT_CFG_ID_SERIAL: u8 = 0x02;
pub const VIRTIO_INPUT_CFG_ID_DEVIDS: u8 = 0x03;
pub const VIRTIO_INPUT_CFG_PROP_BITS: u8 = 0x10;
pub const VIRTIO_INPUT_CFG_EV_BITS: u8 = 0x11;
pub const VIRTIO_INPUT_CFG_ABS_INFO: u8 = 0x12;

// Linux input event types.
pub const EV_SYN: u16 = 0x00;
pub const EV_KEY: u16 = 0x01;
pub const EV_REL: u16 = 0x02;
pub const EV_ABS: u16 = 0x03;
pub const EV_REP: u16 = 0x14;

// Relative axes.
pub const REL_X: u16 = 0x00;
pub const REL_Y: u16 = 0x01;
pub const REL_WHEEL: u16 = 0x08;

// Mouse buttons.
pub const BTN_LEFT: u16 = 0x110;
pub const BTN_RIGHT: u16 = 0x111;
pub const BTN_MIDDLE: u16 = 0x112;

// Synchronization events.
pub const SYN_REPORT: u16 = 0;

// Bus types for input devices.
pub const BUS_PCI: u16 = 0x01;
pub const BUS_VIRTUAL: u16 = 0x06;

/// Length of the payload of a config page, in bytes.
pub const CONFIG_PAYLOAD_LEN: usize = 128;

/// Length of a serialized config page: an 8-byte header and the payload.
pub const CONFIG_LEN: usize = 136;

/// Length of a serialized input event.
pub const EVENT_LEN: usize = 8;

/// Little-endian bytes of a 16-bit value.
pub open spec fn le16(v: u16) -> Seq<u8> {
    seq![(v % 256) as u8, (v / 256) as u8]
}

/// Little-endian bytes of a 32-bit value.
pub open spec fn le32(v: u32) -> Seq<u8> {
    seq![(v % 256) as u8, (v / 256 % 256) as u8, (v / 65536 % 256) as u8, (v / 16777216) as u8]
}

/// The value of two little-endian bytes.
pub open spec fn le16_value(b0: u8, b1: u8) -> int {
    b0 + 256 * b1
}

/// The value of four little-endian bytes.
pub open spec fn le32_value(b0: u8, b1: u8, b2: u8, b3: u8) -> int {
    b0 + 256 * b1 + 65536 * b2 + 16777216 * b3
}

fn u16_to_le(v: u16) -> (r: (u8, u8))
    ensures
        seq![r.0, r.1] == le16(v),
{
    ((v % 256) as u8, (v / 256) as u8)
}

fn u32_to_le(v: u32) -> (r: (u8, u8, u8, u8))
    ensures
        seq![r.0, r.1, r.2, r.3] == le32(v),
{
    ((v % 256) as u8, (v / 256 % 256) as u8, (v / 65536 % 256) as u8, (v / 16777216) as u8)
}

fn u16_from_le(b0: u8, b1: u8) -> (r: u16)
    ensures
        r == le16_value(b0, b1),
{
    b0 as u16 + 256 * (b1 as u16)
}

fn u32_from_le(b0: u8, b1: u8, b2: u8, b3: u8) -> (r: u32)
    ensures
        r == le32_value(b0, b1, b2, b3),
{
    b0 as u32 + 256 * (b1 as u32) + 65536 * (b2 as u32) + 16777216 * (b3 as u32)
}

proof fn lemma_le16_round_trip(v: u16)
    ensures
        le16_value(le16(v)[0], le16(v)[1]) == v,
{
}

proof fn lemma_le32_round_trip(v: u32)
    ensures
        le32_value(le32(v)[0], le32(v)[1], le32(v)[2], le32(v)[3]) == v,
{
}

/// Absolute-axis information of a config page.
#[derive(Clone, Copy, Debug, PartialEq, Eq, Structural)]
pub struct VirtioInputAbsInfo {
    pub min: u32,
    pub max: u32,
    pub fuzz: u32,
    pub flat: u32,
    pub res: u32,
}

/// Device identity of a config page.
#[derive(Clone, Copy, Debug, PartialEq, Eq, Structural)]
pub struct VirtioInputDevIds {
    pub bustype: u16,
    pub vendor: u16,
    pub product: u16,
    pub version: u16,
}

impl VirtioInputDevIds {
    /// The 8 bytes of the record, each field little-endian in declaration order.
    pub open spec fn spec_bytes(self) -> Seq<u8> {
        le16(self.bustype) + le16(self.vendor) + le16(self.product) + le16(self.version)
    }

    pub fn to_bytes(&self) -> (r: Vec<u8>)
        ensures
            r@ == self.spec_bytes(),
    {
        let a = u16_to_le(self.bustype);
        let b = u16_to_le(self.vendor);
        let c = u16_to_le(self.product);
        let d = u16_to_le(self.version);
        let r = vec![a.0, a.1, b.0, b.1, c.0, c.1, d.0, d.1];
        assert(r@ =~= self.spec_bytes());
        r
    }

    /// Reads a record from the first 8 bytes of `b`.
    pub fn from_bytes(b: &[u8]) -> (r: Self)
        requires
            b@.len() >= 8,
        ensures
            r.bustype == le16_value(b@[0], b@[1]),
            r.vendor == le16_value(b@[2], b@[3]),
            r.product == le16_value(b@[4], b@[5]),
            r.version == le16_value(b@[6], b@[7]),
    {
        VirtioInputDevIds {
            bustype: u16_from_le(b[0], b[1]),
            vendor: u16_from_le(b[2], b[3]),
            product: u16_from_le(b[4], b[5]),
            version: u16_from_le(b[6], b[7]),
        }
    }
}

/// One input event as the guest receives it.
#[derive(Clone, Copy, Debug, PartialEq, Eq, Structural)]
pub struct VirtioInputEvent {
    pub event_type: u16,
    pub code: u16,
    pub value: u32,
}

/// The 8 bytes of an event: type, code and value, each little-endian.
pub open spec fn event_bytes(e: VirtioInputEvent) -> Seq<u8> {
    le16(e.event_type) + le16(e.code) + le32(e.value)
}

/// The event that 8 bytes encode.
pub open spec fn event_of_bytes(b: Seq<u8>) -> VirtioInputEvent {
    VirtioInputEvent {
        event_type: le16_value(b[0], b[1]) as u16,
        code: le16_value(b[2], b[3]) as u16,
        value: le32_value(b[4], b[5], b[6], b[7]) as u32,
    }
}

/// The event that ends an atomic batch of updates.
pub open spec fn is_syn_report(e: VirtioInputEvent) -> bool {
    e.event_type == EV_SYN && e.code == SYN_REPORT && e.value == 0
}

impl VirtioInputEvent {
    pub fn new(event_type: u16, code: u16, value: u32) -> (r: Self)
        ensures
            r.event_type == event_type,
            r.code == code,
            r.value == value,
    {
        VirtioInputEvent { event_type, code, value }
    }

    pub fn syn_report() -> (r: Self)
        ensures
            is_syn_report(r),
    {
        Self::new(EV_SYN, SYN_REPORT, 0)
    }

    /// A key transition: value 1 when pressed, 0 when released.
    pub fn key(code: u16, pressed: bool) -> (r: Self)
        ensures
            r.event_type == EV_KEY,
            r.code == code,
            r.value == (if pressed { 1u32 } else { 0u32 }),
    {
        Self::new(EV_KEY, code, if pressed { 1 } else { 0 })
    }

    /// Relative motion along `axis`; the signed delta is carried as its
    /// two's-complement bit pattern.
    pub fn rel_motion(axis: u16, value: i32) -> (r: Self)
        ensures
            r.event_type == EV_REL,
            r.code == axis,
            r.value == (if value >= 0 { value as int } else { value + 0x1_0000_0000 }),
    {
        let bits: u32 = if value >= 0 {
            value as u32
        } else {
            (value as i64 + 0x1_0000_0000i64) as u32
        };
        Self::new(EV_REL, axis, bits)
    }

    pub fn encode(&self) -> (r: Vec<u8>)
        ensures
            r@ == event_bytes(*self),
    {
        let t = u16_to_le(self.event_type);
        let c = u16_to_le(self.code);
        let v = u32_to_le(self.value);
        let r = vec![t.0, t.1, c.0, c.1, v.0, v.1, v.2, v.3];
        assert(r@ =~= event_bytes(*self));
        r
    }

    /// Reads an event from the first 8 bytes of `b`.
    pub fn decode(b: &[u8]) -> (r: Self)
        requires
            b@.len() >= 8,
        ensures
            r == event_of_bytes(b@),
    {
        VirtioInputEvent {
            event_type: u16_from_le(b[0], b[1]),
            code: u16_from_le(b[2], b[3]),
            value: u32_from_le(b[4], b[5], b[6], b[7]),
        }
    }
}

/// Decoding the encoding of an event gives the event back.
pub proof fn lemma_event_round_trip(e: VirtioInputEvent)
    ensures
        event_bytes(e).len() == EVENT_LEN,
        event_of_bytes(event_bytes(e)) == e,
{
    lemma_le16_round_trip(e.event_type);
    lemma_le16_round_trip(e.code);
    lemma_le32_round_trip(e.value);
}

/// Whether bit `bit` of `bitmap` is set, bit 0 being the low bit of byte 0.
pub open spec fn bit_is_set(bitmap: Seq<u8>, bit: int) -> bool {
    0 <= bit < 8 * bitmap.len() && (bitmap[bit / 8] >> (bit % 8) as u8) & 1u8 == 1u8
}

/// Sets bit `bit` of `bitmap`; a bit beyond its end is ignored.
pub fn set_bit(bitmap: &mut [u8], bit: usize)
    ensures
        bit / 8 < old(bitmap)@.len() ==> final(bitmap)@ == old(bitmap)@.update(
            (bit / 8) as int,
            old(bitmap)@[(bit / 8) as int] | (1u8 << (bit % 8) as u8),
        ),
        bit / 8 >= old(bitmap)@.len() ==> final(bitmap)@ == old(bitmap)@,
{
    let byte_idx = bit / 8;
    let bit_idx = (bit % 8) as u8;
    if byte_idx < bitmap.len() {
        bitmap[byte_idx] = bitmap[byte_idx] | (1u8 << bit_idx);
    }
}

/// `n` zero bytes.
pub open spec fn zeros(n: nat) -> Seq<u8> {
    Seq::new(n, |i: int| 0u8)
}

/// One page of config space: the selector the guest chose, the number of
/// meaningful payload bytes, and a 128-byte payload read according to `select`.
#[derive(Debug)]
pub struct VirtioInputConfig {
    pub select: u8,
    pub subsel: u8,
    pub size: u8,
    pub payload: Vec<u8>,
}

/// The guest-visible bytes of a page: select, subsel, size, five reserved
/// zero bytes, then the payload.
pub open spec fn config_bytes(c: VirtioInputConfig) -> Seq<u8> {
    seq![c.select, c.subsel, c.size, 0u8, 0u8, 0u8, 0u8, 0u8] + c.payload@
}

impl VirtioInputConfig {
    pub open spec fn wf(&self) -> bool {
        self.payload@.len() == CONFIG_PAYLOAD_LEN && self.size <= CONFIG_PAYLOAD_LEN
    }

    /// A page for `(select, subsel)` that holds nothing.
    pub fn empty(select: u8, subsel: u8) -> (r: Self)
        ensures
            r.wf(),
            r.select == select,
            r.subsel == subsel,
            r.size == 0,
            r.payload@ == zeros(CONFIG_PAYLOAD_LEN as nat),
    {
        let payload = vec![0u8; CONFIG_PAYLOAD_LEN];
        assert(payload@ =~= zeros(CONFIG_PAYLOAD_LEN as nat));
        VirtioInputConfig { select, subsel, size: 0, payload }
    }

    /// The page as the guest reads it.
    pub fn to_bytes(&self) -> (r: Vec<u8>)
        requires
            self.wf(),
        ensures
            r@ == config_bytes(*self),
            r@.len() == CONFIG_LEN,
    {
        let mut r: Vec<u8> = vec![self.select, self.subsel, self.size, 0, 0, 0, 0, 0];
        let mut i: usize = 0;
        while i < CONFIG_PAYLOAD_LEN
            invariant
                self.wf(),
                i <= CONFIG_PAYLOAD_LEN,
                r@ == seq![self.select, self.subsel, self.size, 0u8, 0u8, 0u8, 0u8, 0u8]
                    + self.payload@.subrange(0, i as int),
            decreases CONFIG_PAYLOAD_LEN - i,
        {
            r.push(self.payload[i]);
            i = i + 1;
            assert(r@ =~= seq![self.select, self.subsel, self.size, 0u8, 0u8, 0u8, 0u8, 0u8]
                + self.payload@.subrange(0, i as int));
        }
        assert(self.payload@.subrange(0, CONFIG_PAYLOAD_LEN as int) =~= self.payload@);
        r
    }

    /// The device ids held by a `VIRTIO_INPUT_CFG_ID_DEVIDS` page.
    pub fn dev_ids(&self) -> (r: VirtioInputDevIds)
        requires
            self.wf(),
        ensures
            r.bustype == le16_value(self.payload@[0], self.payload@[1]),
            r.vendor == le16_value(self.payload@[2], self.payload@[3]),
            r.product == le16_value(self.payload@[4], self.payload@[5]),
            r.version == le16_value(self.payload@[6], self.payload@[7]),
    {
        VirtioInputDevIds::from_bytes(self.payload.as_slice())
    }
}

} // verus!
