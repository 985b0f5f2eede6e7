use virtio_input::buffer::EventBuffer;
use virtio_input::device::{Error, Input, InputDeviceType, EVENT_BUFFER_BOUND, VIRTIO_ID_INPUT};
use virtio_input::event_handler::{InputEventHandler, EVENT_SET_IN};
use virtio_input::protocol::{
    set_bit, VirtioInputConfig, VirtioInputDevIds, VirtioInputEvent, EV_KEY, EV_REL, EV_REP,
    EV_SYN, REL_X, SYN_REPORT, VIRTIO_INPUT_CFG_ABS_INFO, VIRTIO_INPUT_CFG_EV_BITS,
    VIRTIO_INPUT_CFG_ID_DEVIDS, VIRTIO_INPUT_CFG_ID_NAME, VIRTIO_INPUT_CFG_ID_SERIAL,
    VIRTIO_INPUT_CFG_PROP_BITS,
};

fn ev(t: u16, c: u16, v: u32) -> VirtioInputEvent {
    VirtioInputEvent::new(t, c, v)
}

fn bit(bytes: &[u8], i: usize) -> bool {
    (bytes[i / 8] >> (i % 8)) & 1 == 1
}

#[test]
fn event_encoding_is_little_endian() {
    let e = ev(0x0102, 0x0304, 0x0506_0708);
    assert_eq!(e.encode(), vec![0x02, 0x01, 0x04, 0x03, 0x08, 0x07, 0x06, 0x05]);
    assert_eq!(VirtioInputEvent::key(0x1e, true).encode(), vec![1, 0, 0x1e, 0, 1, 0, 0, 0]);
}

#[test]
fn event_round_trip() {
    let cases = [
        ev(0, 0, 0),
        ev(EV_KEY, 0, 0xFFFF_FFFF),
        ev(0xFFFF, 0xFFFF, 0xFFFF_FFFF),
        ev(EV_REL, REL_X, 12345),
        VirtioInputEvent::syn_report(),
        VirtioInputEvent::rel_motion(REL_X, -7),
    ];
    for e in cases.iter() {
        let b = e.encode();
        assert_eq!(b.len(), 8);
        assert_eq!(VirtioInputEvent::decode(&b), *e);
    }
}

#[test]
fn event_constructors() {
    let s = VirtioInputEvent::syn_report();
    assert_eq!((s.event_type, s.code, s.value), (EV_SYN, SYN_REPORT, 0));
    assert_eq!(VirtioInputEvent::key(30, true).value, 1);
    assert_eq!(VirtioInputEvent::key(30, false).value, 0);
    assert_eq!(VirtioInputEvent::key(30, false).event_type, EV_KEY);
    assert_eq!(VirtioInputEvent::rel_motion(REL_X, -1).value, 0xFFFF_FFFF);
    assert_eq!(VirtioInputEvent::rel_motion(REL_X, 5).value, 5);
    assert_eq!(VirtioInputEvent::rel_motion(REL_X, i32::MIN).value, 0x8000_0000);
}

#[test]
fn set_bit_in_and_out_of_range() {
    let mut b = vec![0u8; 3];
    set_bit(&mut b, 0);
    set_bit(&mut b, 9);
    set_bit(&mut b, 23);
    assert_eq!(b, vec![0x01, 0x02, 0x80]);
    set_bit(&mut b, 24);
    assert_eq!(b, vec![0x01, 0x02, 0x80]);
}

#[test]
fn dev_ids_bytes() {
    let ids = VirtioInputDevIds { bustype: 6, vendor: 0x1af4, product: 2, version: 1 };
    let b = ids.to_bytes();
    assert_eq!(b, vec![6, 0, 0xf4, 0x1a, 2, 0, 1, 0]);
    assert_eq!(VirtioInputDevIds::from_bytes(&b), ids);
}

#[test]
fn empty_config_serializes_to_136_zero_bytes_after_header() {
    let c = VirtioInputConfig::empty(5, 6);
    let b = c.to_bytes();
    assert_eq!(b.len(), 136);
    assert_eq!(&b[..8], &[5, 6, 0, 0, 0, 0, 0, 0]);
    assert!(b[8..].iter().all(|x| *x == 0));
}

#[test]
fn unknown_pages_are_empty() {
    let kb = Input::new_keyboard();
    let mouse = Input::new_mouse();
    for dev in [&kb, &mouse] {
        assert_eq!(dev.get_config(VIRTIO_INPUT_CFG_PROP_BITS, 0).size, 0);
        assert_eq!(dev.get_config(VIRTIO_INPUT_CFG_ABS_INFO, 0).size, 0);
        assert_eq!(dev.get_config(0x99, 0).size, 0);
        assert_eq!(dev.get_config(0, 0).size, 0);
        assert_eq!(dev.get_config(VIRTIO_INPUT_CFG_EV_BITS, 0x03).size, 0);
    }
    assert_eq!(kb.get_config(VIRTIO_INPUT_CFG_EV_BITS, EV_REL as u8).size, 0);
    assert_eq!(mouse.get_config(VIRTIO_INPUT_CFG_EV_BITS, EV_REP as u8).size, 0);
}

#[test]
fn name_and_serial_pages() {
    let kb = Input::new_keyboard();
    let c = kb.get_config(VIRTIO_INPUT_CFG_ID_NAME, 0);
    assert_eq!(c.size, 15);
    assert_eq!(&c.payload[..15], b"virtio-keyboard");
    assert!(c.payload[15..].iter().all(|x| *x == 0));
    let c = kb.get_config(VIRTIO_INPUT_CFG_ID_SERIAL, 0);
    assert_eq!(c.size, 10);
    assert_eq!(&c.payload[..10], b"keyboard-1");
}

#[test]
fn long_name_is_truncated_to_128_bytes() {
    let long: String = (0..200).map(|i| (b'a' + (i % 26) as u8) as char).collect();
    let exact: String = "x".repeat(128);
    let dev = Input::new(InputDeviceType::Mouse, &long, &exact);
    let c = dev.get_config(VIRTIO_INPUT_CFG_ID_NAME, 0);
    assert_eq!(c.size, 128);
    assert_eq!(&c.payload[..], &long.as_bytes()[..128]);
    let c = dev.get_config(VIRTIO_INPUT_CFG_ID_SERIAL, 0);
    assert_eq!(c.size, 128);
    assert_eq!(&c.payload[..], exact.as_bytes());
}

#[test]
fn event_type_bitmaps() {
    let kb = Input::new_keyboard().get_config(VIRTIO_INPUT_CFG_EV_BITS, 0);
    assert_eq!(kb.size, 1);
    assert!(bit(&kb.payload, EV_SYN as usize));
    assert!(bit(&kb.payload, EV_KEY as usize));
    assert!(bit(&kb.payload, EV_REP as usize));
    assert!(!bit(&kb.payload, EV_REL as usize));
    assert_eq!(kb.payload[0], 0x03);
    let m = Input::new_mouse().get_config(VIRTIO_INPUT_CFG_EV_BITS, 0);
    assert_eq!(m.size, 1);
    assert_eq!(m.payload[0], 0x07);
    assert!(bit(&m.payload, EV_REL as usize));
    assert!(!bit(&m.payload, EV_REP as usize));
}

#[test]
fn code_bitmaps() {
    let kb = Input::new_keyboard();
    let keys = kb.get_config(VIRTIO_INPUT_CFG_EV_BITS, EV_KEY as u8);
    assert_eq!(keys.size, 128);
    assert!(keys.payload.iter().all(|x| *x == 0xff));
    let rep = kb.get_config(VIRTIO_INPUT_CFG_EV_BITS, EV_REP as u8);
    assert_eq!((rep.size, rep.payload[0]), (1, 0x03));
    let mouse = Input::new_mouse();
    let buttons = mouse.get_config(VIRTIO_INPUT_CFG_EV_BITS, EV_KEY as u8);
    assert_eq!(buttons.size, 24);
    assert_eq!(buttons.payload[34], 0x07);
    let rel = mouse.get_config(VIRTIO_INPUT_CFG_EV_BITS, EV_REL as u8);
    assert_eq!((rel.size, rel.payload[0], rel.payload[1]), (2, 0x03, 0x01));
}

#[test]
fn push_push_drain_keeps_order() {
    let mut b = EventBuffer::new(16);
    let e1 = VirtioInputEvent::key(30, true);
    let e2 = VirtioInputEvent::syn_report();
    b.push(e1);
    b.push(e2);
    assert_eq!(b.drain(2), vec![e1, e2]);
    assert_eq!(b.len(), 0);
    assert_eq!(b.drain(4), vec![]);
}

#[test]
fn drain_takes_at_most_max() {
    let mut b = EventBuffer::new(16);
    b.push_batch(&vec![ev(1, 1, 1), ev(1, 2, 1), ev(1, 3, 1)]);
    assert_eq!(b.drain(2), vec![ev(1, 1, 1), ev(1, 2, 1)]);
    assert_eq!(b.len(), 1);
    b.requeue_front(&vec![ev(1, 2, 1)]);
    assert_eq!(b.drain(10), vec![ev(1, 2, 1), ev(1, 3, 1)]);
}

#[test]
fn overflow_drops_oldest_and_counts() {
    let mut b = EventBuffer::new(3);
    for i in 0..5u16 {
        b.push(ev(EV_KEY, i, 1));
    }
    assert_eq!(b.dropped(), 2);
    assert_eq!(b.drain(10), vec![ev(EV_KEY, 2, 1), ev(EV_KEY, 3, 1), ev(EV_KEY, 4, 1)]);
    b.push_batch(&vec![ev(0, 0, 0); 7]);
    assert_eq!(b.dropped(), 6);
    assert_eq!(b.len(), 3);
    b.clear();
    assert_eq!(b.len(), 0);
    assert_eq!(b.dropped(), 6);
}

#[test]
fn activation_is_one_way() {
    let mut dev = Input::new_keyboard();
    assert!(!dev.is_activated());
    assert_eq!(dev.activate(), Ok(()));
    assert!(dev.is_activated());
    dev.set_acked_features(0);
    dev.write_config(0, &[VIRTIO_INPUT_CFG_ID_NAME, 0]);
    dev.send_event(VirtioInputEvent::syn_report());
    assert!(dev.is_activated());
    assert_eq!(dev.activate(), Err(Error::AlreadyActivated));
    assert!(dev.is_activated());
}

#[test]
fn acked_features_are_clamped() {
    let mut dev = Input::new_mouse();
    let avail = dev.avail_features();
    assert_eq!(avail, 1u64 << 32);
    dev.set_acked_features(avail | 1 | (1 << 40));
    assert_eq!(dev.acked_features(), avail);
    assert_eq!(dev.acked_features() & !avail, 0);
    dev.set_acked_features(0x5);
    assert_eq!(dev.acked_features(), 0);
}

#[test]
fn devids_end_to_end() {
    for (mut dev, product) in [(Input::new_keyboard(), 1u8), (Input::new_mouse(), 2u8)] {
        dev.write_config(0, &[VIRTIO_INPUT_CFG_ID_DEVIDS, 0]);
        let b = dev.read_config(0, 136);
        assert_eq!(b.len(), 136);
        assert_eq!(b[0], VIRTIO_INPUT_CFG_ID_DEVIDS);
        assert_eq!(b[2], 8);
        assert_eq!(&b[8..16], &[6, 0, 0xf4, 0x1a, product, 0, 1, 0]);
        let ids = VirtioInputDevIds::from_bytes(&b[8..]);
        assert_eq!(ids.product, product as u16);
    }
}

#[test]
fn config_reads_are_clipped() {
    let mut dev = Input::new_keyboard();
    dev.write_config(0, &[VIRTIO_INPUT_CFG_ID_NAME, 0]);
    assert_eq!(dev.read_config(2, 1), vec![15]);
    assert_eq!(dev.read_config(8, 6), b"virtio".to_vec());
    assert_eq!(dev.read_config(130, 100).len(), 6);
    assert_eq!(dev.read_config(136, 4), vec![]);
    assert_eq!(dev.read_config(u64::MAX, 4), vec![]);
}

#[test]
fn bad_config_writes_are_ignored() {
    let mut dev = Input::new_keyboard();
    dev.write_config(0, &[VIRTIO_INPUT_CFG_ID_NAME, 0]);
    dev.write_config(1, &[VIRTIO_INPUT_CFG_ID_DEVIDS, 0]);
    dev.write_config(0, &[VIRTIO_INPUT_CFG_ID_DEVIDS]);
    dev.write_config(500, &[VIRTIO_INPUT_CFG_ID_DEVIDS, 0]);
    assert_eq!(dev.read_config(0, 3), vec![VIRTIO_INPUT_CFG_ID_NAME, 0, 15]);
}

#[test]
fn dispatch_waits_for_activation() {
    let mut dev = Input::new_keyboard();
    let batch = vec![VirtioInputEvent::key(30, true), VirtioInputEvent::syn_report()];
    dev.send_events(&batch);
    assert_eq!(dev.dispatch(8), vec![]);
    assert_eq!(dev.pending_events(), 2);
    dev.activate().unwrap();
    assert_eq!(dev.dispatch(1), vec![batch[0]]);
    dev.requeue_events(&vec![batch[0]]);
    assert_eq!(dev.dispatch(8), batch);
    assert_eq!(dev.pending_events(), 0);
}

#[test]
fn device_overflow_and_discard() {
    let mut dev = Input::new_mouse();
    for i in 0..(EVENT_BUFFER_BOUND + 5) {
        dev.send_event(VirtioInputEvent::rel_motion(REL_X, i as i32));
    }
    assert_eq!(dev.pending_events(), EVENT_BUFFER_BOUND);
    assert_eq!(dev.dropped_events(), 5);
    dev.activate().unwrap();
    assert_eq!(dev.dispatch(1), vec![VirtioInputEvent::rel_motion(REL_X, 5)]);
    dev.discard_pending_events();
    assert_eq!(dev.pending_events(), 0);
}

#[test]
fn device_identity() {
    let kb = Input::new_keyboard();
    assert_eq!(kb.device_type(), VIRTIO_ID_INPUT);
    assert_eq!(kb.device_name(), "virtio-input-virtio-keyboard");
    assert_eq!(Input::new_mouse().device_name(), "virtio-input-virtio-mouse");
    assert_eq!(kb.queue_sizes(), vec![256, 256]);
}

#[test]
fn event_handler_accepts_only_input_ready() {
    let mut h = InputEventHandler::new();
    assert!(h.process(EVENT_SET_IN));
    assert!(!h.process(0x4));
    assert!(!h.process(EVENT_SET_IN | 0x4));
    assert!(h.interest_list().is_empty());
}
