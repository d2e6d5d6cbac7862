use vstd::prelude::*;

use crate::bounded::BoundedBuf;
use crate::errors::DeviceError;

verus! {

/// Number of bytes reserved for an interface name.
pub const IF_NAME_SIZE: usize = 20;

/// Number of bytes reserved for a link-layer address.
pub const NET_DEVICE_ADDR_LEN: usize = 16;

/// The link-layer kind of a device; it determines framing semantics for the
/// protocol layers above this one.
#[derive(Clone, Copy, Debug, PartialEq, Eq, Structural)]
pub enum NetDeviceType {
    Dummy,
    Loopback,
    Ethernet,
}

/// One flag of a device's flags word. The Up flag is the sole lifecycle
/// indicator; the others describe fixed link-layer capabilities.
#[derive(Clone, Copy, Debug, PartialEq, Eq, Structural)]
pub enum NetDeviceFlag {
    Up,
    Loopback,
    Broadcast,
    P2P,
    NeedArp,
}

impl NetDeviceFlag {
    /// The bit this flag occupies in a device's flags word.
    pub open spec fn spec_bit(self) -> u16 {
        match self {
            NetDeviceFlag::Up => 0x0001,
            NetDeviceFlag::Loopback => 0x0010,
            NetDeviceFlag::Broadcast => 0x0020,
            NetDeviceFlag::P2P => 0x0040,
            NetDeviceFlag::NeedArp => 0x0100,
        }
    }

    /// The bit this flag occupies in a device's flags word.
    pub fn bit(self) -> (b: u16)
        ensures
            b == self.spec_bit(),
    {
        match self {
            NetDeviceFlag::Up => 0x0001,
            NetDeviceFlag::Loopback => 0x0010,
            NetDeviceFlag::Broadcast => 0x0020,
            NetDeviceFlag::P2P => 0x0040,
            NetDeviceFlag::NeedArp => 0x0100,
        }
    }

    /// Mask test for the Up bit of a flags word.
    pub fn is_up(flag: &u16) -> (r: bool)
        ensures
            r == spec_is_up(*flag),
    {
        *flag & 0x0001 != 0
    }
}

/// Whether a flags word has the Up bit set.
pub open spec fn spec_is_up(flags: u16) -> bool {
    (flags & NetDeviceFlag::Up.spec_bit()) != 0
}

/// The model of a device: its identity and state as plain mathematical
/// values. `name`, `addr` and `broadcast` are the configured bytes, without
/// the zero padding their buffers carry.
#[verifier::ext_equal]
pub ghost struct DeviceModel {
    pub name: Seq<u8>,
    pub ty: NetDeviceType,
    pub mtu: u16,
    pub flags: u16,
    pub hlen: u16,
    pub alen: u16,
    pub addr: Seq<u8>,
    pub broadcast: Seq<u8>,
}

/// `m` after a successful `open`: the Up bit is set, nothing else changes.
pub open spec fn spec_opened(m: DeviceModel) -> DeviceModel {
    DeviceModel { flags: m.flags | NetDeviceFlag::Up.spec_bit(), ..m }
}

/// `m` after a successful `close`: the Up bit is cleared, nothing else
/// changes.
pub open spec fn spec_closed(m: DeviceModel) -> DeviceModel {
    DeviceModel { flags: m.flags & !NetDeviceFlag::Up.spec_bit(), ..m }
}

/// One logical network interface: its identity (type, addressing, framing
/// parameters), its flags word, and its name once the registry assigns one.
#[derive(Debug)]
pub struct NetDevice {
    name: BoundedBuf,
    ty: NetDeviceType,
    mtu: u16,
    flags: u16,
    hlen: u16,
    alen: u16,
    addr: BoundedBuf,
    broadcast: BoundedBuf,
}

impl View for NetDevice {
    type V = DeviceModel;

    closed spec fn view(&self) -> DeviceModel {
        DeviceModel {
            name: self.name.spec_content(),
            ty: self.ty,
            mtu: self.mtu,
            flags: self.flags,
            hlen: self.hlen,
            alen: self.alen,
            addr: self.addr.spec_content(),
            broadcast: self.broadcast.spec_content(),
        }
    }
}

impl NetDevice {
    #[verifier::type_invariant]
    spec fn inv(&self) -> bool {
        &&& self.name.spec_cap() == IF_NAME_SIZE
        &&& self.addr.spec_cap() == NET_DEVICE_ADDR_LEN
        &&& self.broadcast.spec_cap() == NET_DEVICE_ADDR_LEN
    }

    /// Builds a device from its link-layer parameters. The device starts with
    /// no name and with the Up bit cleared, whatever `flags` holds; it fails
    /// with `ConfigurationError` if `addr` or `broadcast` exceed the fixed
    /// address capacity.
    pub fn new(
        ty: NetDeviceType,
        mtu: u16,
        flags: u16,
        hlen: u16,
        alen: u16,
        addr: &[u8],
        broadcast: &[u8],
    ) -> (r: Result<NetDevice, DeviceError>)
        ensures
            match r {
                Ok(d) => {
                    &&& addr@.len() <= NET_DEVICE_ADDR_LEN
                    &&& broadcast@.len() <= NET_DEVICE_ADDR_LEN
                    &&& d@ == (DeviceModel {
                        name: Seq::<u8>::empty(),
                        ty,
                        mtu,
                        flags: flags & !NetDeviceFlag::Up.spec_bit(),
                        hlen,
                        alen,
                        addr: addr@,
                        broadcast: broadcast@,
                    })
                    &&& !spec_is_up(d@.flags)
                },
                Err(e) => {
                    &&& e == DeviceError::ConfigurationError
                    &&& (addr@.len() > NET_DEVICE_ADDR_LEN || broadcast@.len()
                        > NET_DEVICE_ADDR_LEN)
                },
            },
    {
        let addr_buf = match BoundedBuf::new(NET_DEVICE_ADDR_LEN, addr) {
            Ok(b) => b,
            Err(e) => {
                return Err(e);
            },
        };
        let broadcast_buf = match BoundedBuf::new(NET_DEVICE_ADDR_LEN, broadcast) {
            Ok(b) => b,
            Err(e) => {
                return Err(e);
            },
        };
        let no_name: Vec<u8> = Vec::new();
        let name_buf = BoundedBuf::with_content(IF_NAME_SIZE, no_name.as_slice());
        let up = NetDeviceFlag::Up.bit();
        let d = NetDevice {
            name: name_buf,
            ty,
            mtu,
            flags: flags & !up,
            hlen,
            alen,
            addr: addr_buf,
            broadcast: broadcast_buf,
        };
        proof {
            assert(d@ =~= DeviceModel {
                name: Seq::<u8>::empty(),
                ty,
                mtu,
                flags: flags & !NetDeviceFlag::Up.spec_bit(),
                hlen,
                alen,
                addr: addr@,
                broadcast: broadcast@,
            });
            assert(!spec_is_up(d@.flags)) by {
                assert((flags & !0x0001u16) & 0x0001u16 == 0) by (bit_vector);
            }
        }
        Ok(d)
    }

    /// A copy of this device carrying `name`. Naming is the registry's
    /// privilege: the caller guarantees that the device is still unnamed and
    /// that the name fits the fixed name capacity.
    pub fn with_name(&self, name: &[u8]) -> (d: NetDevice)
        requires
            name@.len() <= IF_NAME_SIZE,
            self@.name.len() == 0,
        ensures
            d@ == (DeviceModel { name: name@, ..self@ }),
    {
        proof {
            use_type_invariant(self);
        }
        let name_buf = BoundedBuf::with_content(IF_NAME_SIZE, name);
        let d = NetDevice {
            name: name_buf,
            ty: self.ty,
            mtu: self.mtu,
            flags: self.flags,
            hlen: self.hlen,
            alen: self.alen,
            addr: self.addr.clone_buf(),
            broadcast: self.broadcast.clone_buf(),
        };
        proof {
            assert(d@ =~= DeviceModel { name: name@, ..self@ });
        }
        d
    }

    /// Sets the Up bit; fails with `AlreadyOpenError`, changing nothing, if
    /// it is already set. No other flag is touched.
    pub fn open(&mut self) -> (r: Result<(), DeviceError>)
        ensures
            match r {
                Ok(()) => {
                    &&& !spec_is_up(old(self)@.flags)
                    &&& final(self)@ == spec_opened(old(self)@)
                    &&& spec_is_up(final(self)@.flags)
                },
                Err(e) => {
                    &&& e == DeviceError::AlreadyOpenError
                    &&& spec_is_up(old(self)@.flags)
                    &&& *final(self) == *old(self)
                },
            },
    {
        proof {
            use_type_invariant(&*self);
        }
        if NetDeviceFlag::is_up(&self.flags) {
            Err(DeviceError::AlreadyOpenError)
        } else {
            let up = NetDeviceFlag::Up.bit();
            let ghost f = self.flags;
            self.flags = self.flags | up;
            proof {
                assert(self@ =~= spec_opened(old(self)@));
                assert((f | 0x0001u16) & 0x0001u16 != 0) by (bit_vector);
            }
            Ok(())
        }
    }

    /// Clears the Up bit; fails with `NotOpenError`, changing nothing, if it
    /// is not set. No other flag is touched.
    pub fn close(&mut self) -> (r: Result<(), DeviceError>)
        ensures
            match r {
                Ok(()) => {
                    &&& spec_is_up(old(self)@.flags)
                    &&& final(self)@ == spec_closed(old(self)@)
                    &&& !spec_is_up(final(self)@.flags)
                },
                Err(e) => {
                    &&& e == DeviceError::NotOpenError
                    &&& !spec_is_up(old(self)@.flags)
                    &&& *final(self) == *old(self)
                },
            },
    {
        proof {
            use_type_invariant(&*self);
        }
        if !NetDeviceFlag::is_up(&self.flags) {
            Err(DeviceError::NotOpenError)
        } else {
            let up = NetDeviceFlag::Up.bit();
            let ghost f = self.flags;
            self.flags = self.flags & !up;
            proof {
                assert(self@ =~= spec_closed(old(self)@));
                assert((f & !0x0001u16) & 0x0001u16 == 0) by (bit_vector);
            }
            Ok(())
        }
    }

    /// Validates a transmission request: the device must be open and the
    /// payload no longer than the MTU. On success the frame
    /// `(ty, data, dst)` is ready, exactly as validated, for the external
    /// transmission hook; a single call either succeeds or fails whole.
    #[allow(unused_variables)]
    pub fn output(&self, ty: NetDeviceType, data: &[u8], dst: &[u8]) -> (r: Result<
        (),
        DeviceError,
    >)
        ensures
            match r {
                Ok(()) => spec_is_up(self@.flags) && data@.len() <= self@.mtu,
                Err(e) => match e {
                    DeviceError::NotOpenError => !spec_is_up(self@.flags),
                    DeviceError::PayloadTooLargeError => spec_is_up(self@.flags) && data@.len()
                        > self@.mtu,
                    _ => false,
                },
            },
    {
        if !NetDeviceFlag::is_up(&self.flags) {
            return Err(DeviceError::NotOpenError);
        }
        if data.len() > self.mtu as usize {
            return Err(DeviceError::PayloadTooLargeError);
        }
        Ok(())
    }

    /// The assigned name; empty until the registry assigns one.
    pub fn name_bytes(&self) -> (r: Vec<u8>)
        ensures
            r@ == self@.name,
    {
        self.name.content()
    }

    /// The configured hardware address, without the zero padding its buffer
    /// carries.
    pub fn addr_bytes(&self) -> (r: Vec<u8>)
        ensures
            r@ == self@.addr,
    {
        self.addr.content()
    }

    /// The configured broadcast address, without the zero padding its buffer
    /// carries.
    pub fn broadcast_bytes(&self) -> (r: Vec<u8>)
        ensures
            r@ == self@.broadcast,
    {
        self.broadcast.content()
    }

    /// The maximum payload size, in bytes, this device accepts for output.
    pub fn mtu(&self) -> (m: u16)
        ensures
            m == self@.mtu,
    {
        self.mtu
    }

    /// The flags word.
    pub fn flags(&self) -> (f: u16)
        ensures
            f == self@.flags,
    {
        self.flags
    }

    /// Whether the Up bit is set: true exactly between a successful `open`
    /// and the next successful `close`.
    pub fn is_open(&self) -> (r: bool)
        ensures
            r == spec_is_up(self@.flags),
    {
        NetDeviceFlag::is_up(&self.flags)
    }

    /// The link-layer kind of this device.
    pub fn device_type(&self) -> (t: NetDeviceType)
        ensures
            t == self@.ty,
    {
        self.ty
    }

    /// The header length, in bytes.
    pub fn hlen(&self) -> (h: u16)
        ensures
            h == self@.hlen,
    {
        self.hlen
    }

    /// The address length, in bytes.
    pub fn alen(&self) -> (a: u16)
        ensures
            a == self@.alen,
    {
        self.alen
    }
}

/// Opening a device sets its Up bit, so a second `open` immediately after a
/// successful one finds the device already up: by `open`'s contract the
/// second call fails with `AlreadyOpenError` and leaves the flags exactly as
/// the first `open` set them.
pub proof fn lemma_reopen_fails(m: DeviceModel)
    ensures
        spec_is_up(spec_opened(m).flags),
{
    let f = m.flags;
    assert((f | 0x0001u16) & 0x0001u16 != 0) by (bit_vector);
}

/// A device that was never opened (construction clears the Up bit) and a
/// device just closed are both down, so by `close`'s contract a `close` on
/// either fails with `NotOpenError`, and by `output`'s contract any
/// transmission on either fails the same way.
pub proof fn lemma_fresh_or_closed_is_down(m: DeviceModel)
    ensures
        !spec_is_up(m.flags & !NetDeviceFlag::Up.spec_bit()),
        !spec_is_up(spec_closed(m).flags),
{
    let f = m.flags;
    assert((f & !0x0001u16) & 0x0001u16 == 0) by (bit_vector);
}

} // verus!
