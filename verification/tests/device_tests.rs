use netdev::device::{NetDevice, NetDeviceFlag, NetDeviceType};
use netdev::errors::DeviceError;

fn dummy(mtu: u16, flags: u16) -> NetDevice {
    NetDevice::new(NetDeviceType::Dummy, mtu, flags, 0, 0, &[], &[]).unwrap()
}

#[test]
fn flag_bits() {
    assert_eq!(NetDeviceFlag::Up.bit(), 0x0001);
    assert_eq!(NetDeviceFlag::Loopback.bit(), 0x0010);
    assert_eq!(NetDeviceFlag::Broadcast.bit(), 0x0020);
    assert_eq!(NetDeviceFlag::P2P.bit(), 0x0040);
    assert_eq!(NetDeviceFlag::NeedArp.bit(), 0x0100);
    assert!(NetDeviceFlag::is_up(&0x0001));
    assert!(NetDeviceFlag::is_up(&0x0031));
    assert!(!NetDeviceFlag::is_up(&0x0000));
    assert!(!NetDeviceFlag::is_up(&0x0030));
}

#[test]
fn construction_starts_closed_and_unnamed() {
    let dev = dummy(128, 0);
    assert!(!dev.is_open());
    assert_eq!(dev.name_bytes(), Vec::<u8>::new());
    assert_eq!(dev.mtu(), 128);
    assert_eq!(dev.addr_bytes(), Vec::<u8>::new());
    assert_eq!(dev.broadcast_bytes(), Vec::<u8>::new());
}

#[test]
fn construction_clears_up_bit_only() {
    // Even a flags word with the Up bit set at construction yields a closed
    // device; the other flags stay.
    let dev = dummy(64, 0x0031);
    assert!(!dev.is_open());
    assert_eq!(dev.flags(), 0x0030);
}

#[test]
fn construction_rejects_oversized_address() {
    let long = [0xABu8; 17];
    let r = NetDevice::new(NetDeviceType::Ethernet, 1500, 0, 14, 6, &long, &[]);
    assert_eq!(r.unwrap_err(), DeviceError::ConfigurationError);
    let r = NetDevice::new(NetDeviceType::Ethernet, 1500, 0, 14, 6, &[], &long);
    assert_eq!(r.unwrap_err(), DeviceError::ConfigurationError);
}

#[test]
fn construction_accepts_address_at_capacity() {
    let addr = [0x11u8; 16];
    let bcast = [0xFFu8; 16];
    let dev = NetDevice::new(NetDeviceType::Ethernet, 1500, 0, 14, 6, &addr, &bcast).unwrap();
    assert_eq!(dev.addr_bytes(), addr.to_vec());
    assert_eq!(dev.broadcast_bytes(), bcast.to_vec());
    assert_eq!(dev.hlen(), 14);
    assert_eq!(dev.alen(), 6);
    assert_eq!(dev.device_type(), NetDeviceType::Ethernet);
}

#[test]
fn reopen_fails_and_keeps_flags() {
    let mut dev = dummy(128, 0x0030);
    assert_eq!(dev.open(), Ok(()));
    let flags_after_first_open = dev.flags();
    assert_eq!(flags_after_first_open, 0x0031);
    assert_eq!(dev.open(), Err(DeviceError::AlreadyOpenError));
    assert_eq!(dev.flags(), flags_after_first_open);
    assert!(dev.is_open());
}

#[test]
fn close_without_open_fails() {
    let mut dev = dummy(128, 0);
    assert_eq!(dev.close(), Err(DeviceError::NotOpenError));
    assert!(!dev.is_open());
}

#[test]
fn close_after_close_fails() {
    let mut dev = dummy(128, 0x0100);
    assert_eq!(dev.open(), Ok(()));
    assert_eq!(dev.close(), Ok(()));
    assert_eq!(dev.flags(), 0x0100);
    assert_eq!(dev.close(), Err(DeviceError::NotOpenError));
    assert_eq!(dev.flags(), 0x0100);
}

#[test]
fn output_on_closed_device_fails_whatever_the_payload() {
    let dev = dummy(128, 0);
    let dst = [0xFFu8; 6];
    for len in [0usize, 1, 128, 129, 10_000] {
        let data = vec![0x55u8; len];
        let r = dev.output(NetDeviceType::Dummy, &data, &dst);
        assert_eq!(r, Err(DeviceError::NotOpenError));
    }
}

#[test]
fn output_respects_mtu_boundary() {
    let mut dev = dummy(8, 0);
    dev.open().unwrap();
    let at_mtu = vec![0x55u8; 8];
    assert_eq!(dev.output(NetDeviceType::Dummy, &at_mtu, &[]), Ok(()));
    let over_mtu = vec![0x55u8; 9];
    assert_eq!(
        dev.output(NetDeviceType::Dummy, &over_mtu, &[]),
        Err(DeviceError::PayloadTooLargeError)
    );
}

#[test]
fn output_with_zero_mtu_accepts_only_empty_payload() {
    let mut dev = dummy(0, 0);
    dev.open().unwrap();
    assert_eq!(dev.output(NetDeviceType::Dummy, &[], &[]), Ok(()));
    assert_eq!(
        dev.output(NetDeviceType::Dummy, &[0u8], &[]),
        Err(DeviceError::PayloadTooLargeError)
    );
}
