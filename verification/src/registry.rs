use vstd::prelude::*;

use crate::device::{DeviceModel, NetDevice, NetDeviceType};
use crate::device::{spec_closed, spec_is_up, spec_opened};
use crate::errors::{DeviceError, RegistryError};
use crate::naming::{lemma_decimal_len, lemma_pow10_17, net_name, spec_net_name};

verus! {

/// Devices a registry can register without running out of name bytes:
/// an index below `10^17` has at most 17 decimal digits, so `"net"` plus the
/// digits fits the fixed name capacity.
pub open spec fn spec_registry_limit() -> nat {
    100_000_000_000_000_000
}

/// An ordered, append-only collection of devices. The position a device gets
/// at registration is its stable handle for the registry's lifetime: no
/// compaction, no removal. The registry is an owned value, not process-wide
/// state, so independent device universes can coexist.
#[derive(Debug)]
pub struct NetDeviceArray {
    devices: Vec<NetDevice>,
}

impl View for NetDeviceArray {
    type V = Seq<DeviceModel>;

    closed spec fn view(&self) -> Seq<DeviceModel> {
        self.devices@.map_values(|d: NetDevice| d@)
    }
}

/// What one registration does to a registry's model: the template `t` is
/// appended, renamed to the name that belongs to its position.
pub open spec fn spec_register_step(s: Seq<DeviceModel>, t: DeviceModel) -> Seq<DeviceModel> {
    s.push(DeviceModel { name: spec_net_name(s.len()), ..t })
}

impl NetDeviceArray {
    /// An empty registry.
    pub fn new() -> (r: NetDeviceArray)
        ensures
            r@ == Seq::<DeviceModel>::empty(),
    {
        let r = NetDeviceArray { devices: Vec::new() };
        proof {
            assert(r@ =~= Seq::<DeviceModel>::empty());
        }
        r
    }

    /// The number of registered devices.
    pub fn len(&self) -> (n: usize)
        ensures
            n == self@.len(),
    {
        self.devices.len()
    }

    /// A copy of the given configuration, named `net<N>` for its zero-based
    /// registration index `N`, is appended; the returned handle `N` stays
    /// valid for the registry's lifetime. The caller hands in an unnamed
    /// template — registration is the single owner of name assignment — and
    /// keeps the registry below the capacity of the name scheme.
    pub fn register(&mut self, dev: &NetDevice) -> (handle: usize)
        requires
            dev@.name.len() == 0,
            old(self)@.len() < spec_registry_limit(),
        ensures
            handle == old(self)@.len(),
            final(self)@ == spec_register_step(old(self)@, dev@),
            final(self)@.len() == old(self)@.len() + 1,
            final(self)@[handle as int].name == spec_net_name(handle as nat),
    {
        let handle = self.devices.len();
        let name = net_name(handle);
        proof {
            lemma_pow10_17();
            lemma_decimal_len(handle as nat, 17);
        }
        let named = dev.with_name(name.as_slice());
        self.devices.push(named);
        proof {
            assert(self@ =~= spec_register_step(old(self)@, dev@));
        }
        handle
    }

    /// The registered device at `index`, if any.
    pub fn get(&self, index: usize) -> (r: Option<&NetDevice>)
        ensures
            match r {
                Some(d) => index < self@.len() && d@ == self@[index as int],
                None => index >= self@.len(),
            },
    {
        if index < self.devices.len() {
            Some(&self.devices[index])
        } else {
            None
        }
    }

    /// Bulk open: opens the registered devices in registration order,
    /// stopping at the first device that refuses and reporting which one and
    /// why. Devices opened before the failure stay open — there is no
    /// rollback; a caller that needs atomicity across the registry must
    /// build it itself. Fails with `EmptyRegistryError` if no device is
    /// registered.
    pub fn run(&mut self) -> (r: Result<(), RegistryError>)
        ensures
            final(self)@.len() == old(self)@.len(),
            match r {
                Ok(()) => {
                    &&& old(self)@.len() > 0
                    &&& forall|i: int|
                        0 <= i < old(self)@.len() ==> !spec_is_up(
                            (#[trigger] old(self)@[i]).flags,
                        )
                    &&& forall|i: int|
                        0 <= i < old(self)@.len() ==> final(self)@[i] == spec_opened(
                            #[trigger] old(self)@[i],
                        )
                },
                Err(e) => match e {
                    RegistryError::EmptyRegistryError => old(self)@.len() == 0 && final(self)@
                        == old(self)@,
                    RegistryError::DeviceFailure { handle, error } => {
                        &&& old(self)@.len() > 0
                        &&& error == DeviceError::AlreadyOpenError
                        &&& handle < old(self)@.len()
                        &&& spec_is_up(old(self)@[handle as int].flags)
                        &&& forall|i: int|
                            0 <= i < handle ==> !spec_is_up((#[trigger] old(self)@[i]).flags)
                        &&& forall|i: int|
                            0 <= i < handle ==> final(self)@[i] == spec_opened(
                                #[trigger] old(self)@[i],
                            )
                        &&& forall|i: int|
                            handle <= i < old(self)@.len() ==> final(self)@[i]
                                == #[trigger] old(self)@[i]
                    },
                    RegistryError::IndexOutOfRangeError => false,
                },
            },
    {
        if self.devices.len() == 0 {
            return Err(RegistryError::EmptyRegistryError);
        }
        let ghost pre: Seq<NetDevice> = self.devices@;
        let n = self.devices.len();
        let mut i: usize = 0;
        while i < n
            invariant
                i <= n,
                n == self.devices@.len(),
                pre.len() == n,
                old(self)@ == pre.map_values(|d: NetDevice| d@),
                forall|j: int|
                    0 <= j < i ==> !spec_is_up((#[trigger] pre[j])@.flags) && self.devices@[j]@
                        == spec_opened(pre[j]@),
                forall|j: int| i <= j < n ==> #[trigger] self.devices@[j] == pre[j],
            decreases n - i,
        {
            let dev = &mut self.devices[i];
            match dev.open() {
                Ok(()) => {
                    i = i + 1;
                },
                Err(error) => {
                    proof {
                        assert forall|j: int| 0 <= j < i implies self@[j] == spec_opened(
                            old(self)@[j],
                        ) by {
                            assert(self.devices@[j]@ == spec_opened(pre[j]@));
                        }
                        assert forall|j: int| i <= j < n implies self@[j] == old(self)@[j] by {
                            assert(self.devices@[j] == pre[j]);
                        }
                    }
                    return Err(RegistryError::DeviceFailure { handle: i, error });
                },
            }
        }
        proof {
            assert forall|j: int| 0 <= j < n implies !spec_is_up(old(self)@[j].flags) && self@[j]
                == spec_opened(old(self)@[j]) by {
                assert(self.devices@[j]@ == spec_opened(pre[j]@));
            }
        }
        Ok(())
    }

    /// Bulk close: symmetric to `run`. Closes the registered devices in
    /// registration order, stopping at the first device that refuses and
    /// reporting which one and why; devices closed before the failure stay
    /// closed — no rollback. Fails with `EmptyRegistryError` if no device is
    /// registered.
    pub fn shutdown(&mut self) -> (r: Result<(), RegistryError>)
        ensures
            final(self)@.len() == old(self)@.len(),
            match r {
                Ok(()) => {
                    &&& old(self)@.len() > 0
                    &&& forall|i: int|
                        0 <= i < old(self)@.len() ==> spec_is_up((#[trigger] old(self)@[i]).flags)
                    &&& forall|i: int|
                        0 <= i < old(self)@.len() ==> final(self)@[i] == spec_closed(
                            #[trigger] old(self)@[i],
                        )
                },
                Err(e) => match e {
                    RegistryError::EmptyRegistryError => old(self)@.len() == 0 && final(self)@
                        == old(self)@,
                    RegistryError::DeviceFailure { handle, error } => {
                        &&& old(self)@.len() > 0
                        &&& error == DeviceError::NotOpenError
                        &&& handle < old(self)@.len()
                        &&& !spec_is_up(old(self)@[handle as int].flags)
                        &&& forall|i: int|
                            0 <= i < handle ==> spec_is_up((#[trigger] old(self)@[i]).flags)
                        &&& forall|i: int|
                            0 <= i < handle ==> final(self)@[i] == spec_closed(
                                #[trigger] old(self)@[i],
                            )
                        &&& forall|i: int|
                            handle <= i < old(self)@.len() ==> final(self)@[i]
                                == #[trigger] old(self)@[i]
                    },
                    RegistryError::IndexOutOfRangeError => false,
                },
            },
    {
        if self.devices.len() == 0 {
            return Err(RegistryError::EmptyRegistryError);
        }
        let ghost pre: Seq<NetDevice> = self.devices@;
        let n = self.devices.len();
        let mut i: usize = 0;
        while i < n
            invariant
                i <= n,
                n == self.devices@.len(),
                pre.len() == n,
                old(self)@ == pre.map_values(|d: NetDevice| d@),
                forall|j: int|
                    0 <= j < i ==> spec_is_up((#[trigger] pre[j])@.flags) && self.devices@[j]@
                        == spec_closed(pre[j]@),
                forall|j: int| i <= j < n ==> #[trigger] self.devices@[j] == pre[j],
            decreases n - i,
        {
            let dev = &mut self.devices[i];
            match dev.close() {
                Ok(()) => {
                    i = i + 1;
                },
                Err(error) => {
                    proof {
                        assert forall|j: int| 0 <= j < i implies self@[j] == spec_closed(
                            old(self)@[j],
                        ) by {
                            assert(self.devices@[j]@ == spec_closed(pre[j]@));
                        }
                        assert forall|j: int| i <= j < n implies self@[j] == old(self)@[j] by {
                            assert(self.devices@[j] == pre[j]);
                        }
                    }
                    return Err(RegistryError::DeviceFailure { handle: i, error });
                },
            }
        }
        proof {
            assert forall|j: int| 0 <= j < n implies spec_is_up(old(self)@[j].flags) && self@[j]
                == spec_closed(old(self)@[j]) by {
                assert(self.devices@[j]@ == spec_closed(pre[j]@));
            }
        }
        Ok(())
    }

    /// Handle-indexed transmission dispatch: fails with
    /// `IndexOutOfRangeError` if `index` is not a registered handle,
    /// otherwise delegates to that device's `output` and wraps its refusal,
    /// if any, with the handle.
    pub fn output(&self, index: usize, ty: NetDeviceType, data: &[u8], dst: &[u8]) -> (r: Result<
        (),
        RegistryError,
    >)
        ensures
            match r {
                Ok(()) => {
                    &&& index < self@.len()
                    &&& spec_is_up(self@[index as int].flags)
                    &&& data@.len() <= self@[index as int].mtu
                },
                Err(e) => match e {
                    RegistryError::IndexOutOfRangeError => index >= self@.len(),
                    RegistryError::DeviceFailure { handle, error } => {
                        &&& handle == index
                        &&& index < self@.len()
                        &&& match error {
                            DeviceError::NotOpenError => !spec_is_up(self@[index as int].flags),
                            DeviceError::PayloadTooLargeError => spec_is_up(
                                self@[index as int].flags,
                            ) && data@.len() > self@[index as int].mtu,
                            _ => false,
                        }
                    },
                    RegistryError::EmptyRegistryError => false,
                },
            },
    {
        if index >= self.devices.len() {
            return Err(RegistryError::IndexOutOfRangeError);
        }
        let dev = &self.devices[index];
        match dev.output(ty, data, dst) {
            Ok(()) => Ok(()),
            Err(error) => Err(RegistryError::DeviceFailure { handle: index, error }),
        }
    }
}

/// The registry's model after the templates `ts` are registered in order on
/// an empty registry: each is appended under the name that belongs to its
/// position.
pub open spec fn spec_register_all(ts: Seq<DeviceModel>) -> Seq<DeviceModel>
    decreases ts.len(),
{
    if ts.len() == 0 {
        Seq::<DeviceModel>::empty()
    } else {
        spec_register_step(spec_register_all(ts.drop_last()), ts.last())
    }
}

/// Names follow registration order alone: registering `N` templates in
/// sequence on an empty registry assigns the names `net0`, `net1`, …,
/// `net<N-1>`, independent of each device's type or configuration.
pub proof fn lemma_names_follow_registration_order(ts: Seq<DeviceModel>)
    ensures
        spec_register_all(ts).len() == ts.len(),
        forall|i: int|
            0 <= i < ts.len() ==> (#[trigger] spec_register_all(ts)[i]).name == spec_net_name(
                i as nat,
            ),
    decreases ts.len(),
{
    if ts.len() > 0 {
        lemma_names_follow_registration_order(ts.drop_last());
    }
}

} // verus!
