//! An explicit, fakeable host subsystem.
//!
//! The binding layer is purely reactive glue around three host entry points
//! with a C-style integer convention: registration (returns 0 on success, a
//! negative code on rejection), unregistration (returns nothing and always
//! succeeds from the caller's standpoint), and synchronous half-duplex
//! transfer (same integer convention as registration). This type models
//! such a host as a value: its configuration says what each entry point
//! will answer, and its counters and last-call records say exactly what the
//! binding layer asked of it. Every contract of the layer is stated, and
//! proved, against these records, and a test drives the same fields as a
//! stub host.

use crate::descriptor::SpiDriver;
use crate::ids::copy_bytes;
use crate::ids::valid_name;
use vstd::prelude::*;

verus! {

/// The module identity token a registration presents to the host.
#[derive(Debug, Clone, Copy, PartialEq, Eq, Structural)]
pub struct ThisModule(pub u64);

/// A host subsystem, explicit and configurable.
pub struct Host {
    /// What the registration entry point answers: 0 accepts, a negative
    /// code rejects.
    pub register_status: i32,
    /// What the transfer entry point answers: 0 completes, a negative
    /// code fails.
    pub transfer_status: i32,
    /// The byte a completed transfer writes into each requested position
    /// of the receive buffer.
    pub rx_pattern: u8,
    /// How many times the registration entry point was called.
    pub register_calls: u64,
    /// How many times the unregistration entry point was called.
    pub unregister_calls: u64,
    /// How many times the transfer entry point was called.
    pub transfer_calls: u64,
    /// Module identity of the last registration call.
    pub last_reg_module: u64,
    /// Descriptor name of the last registration call.
    pub last_reg_name: Vec<u8>,
    /// Identifier-table extent of the last registration call.
    pub last_reg_id_count: usize,
    /// Whether the probe slot was set in the last registration call.
    pub last_reg_probe_set: bool,
    /// Whether the remove slot was set in the last registration call.
    pub last_reg_remove_set: bool,
    /// Whether the shutdown slot was set in the last registration call.
    pub last_reg_shutdown_set: bool,
    /// Descriptor name of the last unregistration call.
    pub last_unreg_name: Vec<u8>,
    /// Device pointer of the last transfer call.
    pub last_transfer_dev: u64,
    /// Transmit length of the last transfer call.
    pub last_transfer_n_tx: usize,
    /// Receive length of the last transfer call.
    pub last_transfer_n_rx: usize,
}

/// The two hosts are configured alike.
pub open spec fn same_config(a: Host, b: Host) -> bool {
    &&& a.register_status == b.register_status
    &&& a.transfer_status == b.transfer_status
    &&& a.rx_pattern == b.rx_pattern
}

/// The two hosts saw the same registration calls.
pub open spec fn same_register_obs(a: Host, b: Host) -> bool {
    &&& a.register_calls == b.register_calls
    &&& a.last_reg_module == b.last_reg_module
    &&& a.last_reg_name@ == b.last_reg_name@
    &&& a.last_reg_id_count == b.last_reg_id_count
    &&& a.last_reg_probe_set == b.last_reg_probe_set
    &&& a.last_reg_remove_set == b.last_reg_remove_set
    &&& a.last_reg_shutdown_set == b.last_reg_shutdown_set
}

/// The two hosts saw the same unregistration calls.
pub open spec fn same_unregister_obs(a: Host, b: Host) -> bool {
    &&& a.unregister_calls == b.unregister_calls
    &&& a.last_unreg_name@ == b.last_unreg_name@
}

/// The two hosts saw the same transfer calls.
pub open spec fn same_transfer_obs(a: Host, b: Host) -> bool {
    &&& a.transfer_calls == b.transfer_calls
    &&& a.last_transfer_dev == b.last_transfer_dev
    &&& a.last_transfer_n_tx == b.last_transfer_n_tx
    &&& a.last_transfer_n_rx == b.last_transfer_n_rx
}

/// Between `a` and `b` the host saw exactly one more registration call,
/// with the given descriptor contents, and nothing else.
pub open spec fn register_recorded(
    a: Host,
    b: Host,
    module: u64,
    name: Seq<u8>,
    id_count: nat,
    probe_set: bool,
    remove_set: bool,
    shutdown_set: bool,
) -> bool {
    &&& b.register_calls == a.register_calls + 1
    &&& b.last_reg_module == module
    &&& b.last_reg_name@ == name
    &&& b.last_reg_id_count == id_count
    &&& b.last_reg_probe_set == probe_set
    &&& b.last_reg_remove_set == remove_set
    &&& b.last_reg_shutdown_set == shutdown_set
    &&& same_config(a, b)
    &&& same_unregister_obs(a, b)
    &&& same_transfer_obs(a, b)
}

/// Between `a` and `b` the host saw exactly one more unregistration call,
/// for a descriptor of the given name, and nothing else.
pub open spec fn unregister_recorded(a: Host, b: Host, name: Seq<u8>) -> bool {
    &&& b.unregister_calls == a.unregister_calls + 1
    &&& b.last_unreg_name@ == name
    &&& same_config(a, b)
    &&& same_register_obs(a, b)
    &&& same_transfer_obs(a, b)
}

/// Between `a` and `b` the host saw exactly one more transfer call, with
/// the given device pointer and buffer lengths, and nothing else.
pub open spec fn transfer_recorded(a: Host, b: Host, dev: u64, n_tx: nat, n_rx: nat) -> bool {
    &&& b.transfer_calls == a.transfer_calls + 1
    &&& b.last_transfer_dev == dev
    &&& b.last_transfer_n_tx == n_tx
    &&& b.last_transfer_n_rx == n_rx
    &&& same_config(a, b)
    &&& same_register_obs(a, b)
    &&& same_unregister_obs(a, b)
}

/// What a receive buffer holds after a transfer call on host `h` asked to
/// read `n_rx` bytes into a buffer holding `rx`: a completed transfer
/// fills the requested prefix with the host's pattern, a failed one leaves
/// the buffer as it was.
pub open spec fn rx_after(h: Host, rx: Seq<u8>, n_rx: int) -> Seq<u8> {
    if h.transfer_status == 0 {
        Seq::new(rx.len(), |i: int| if i < n_rx { h.rx_pattern } else { rx[i] })
    } else {
        rx
    }
}

impl Host {
    /// A fresh host with the given answers configured and no calls seen.
    /// Status codes follow the host convention: 0 is success, a negative
    /// code is an error.
    pub fn new(register_status: i32, transfer_status: i32, rx_pattern: u8) -> (r: Host)
        requires
            register_status <= 0,
            transfer_status <= 0,
        ensures
            r.register_status == register_status,
            r.transfer_status == transfer_status,
            r.rx_pattern == rx_pattern,
            r.register_calls == 0,
            r.unregister_calls == 0,
            r.transfer_calls == 0,
            r.last_reg_module == 0,
            r.last_reg_name@ == Seq::<u8>::empty(),
            r.last_reg_id_count == 0,
            !r.last_reg_probe_set,
            !r.last_reg_remove_set,
            !r.last_reg_shutdown_set,
            r.last_unreg_name@ == Seq::<u8>::empty(),
            r.last_transfer_dev == 0,
            r.last_transfer_n_tx == 0,
            r.last_transfer_n_rx == 0,
    {
        Host {
            register_status,
            transfer_status,
            rx_pattern,
            register_calls: 0,
            unregister_calls: 0,
            transfer_calls: 0,
            last_reg_module: 0,
            last_reg_name: Vec::new(),
            last_reg_id_count: 0,
            last_reg_probe_set: false,
            last_reg_remove_set: false,
            last_reg_shutdown_set: false,
            last_unreg_name: Vec::new(),
            last_transfer_dev: 0,
            last_transfer_n_tx: 0,
            last_transfer_n_rx: 0,
        }
    }

    /// The registration entry point: records the submitted descriptor and
    /// answers the configured status. Only a well-formed descriptor may be
    /// submitted: its name must fit the host's fixed name buffer as a
    /// terminated string.
    pub fn register_driver(&mut self, module: ThisModule, drv: &SpiDriver) -> (status: i32)
        requires
            old(self).register_calls < u64::MAX,
            valid_name(drv.name@),
        ensures
            status == old(self).register_status,
            register_recorded(
                *old(self),
                *final(self),
                module.0,
                drv.name@,
                drv.id_count as nat,
                drv.probe is Some,
                drv.remove is Some,
                drv.shutdown is Some,
            ),
    {
        self.register_calls = self.register_calls + 1;
        self.last_reg_module = module.0;
        self.last_reg_name = copy_bytes(&drv.name);
        self.last_reg_id_count = drv.id_count;
        self.last_reg_probe_set = drv.probe.is_some();
        self.last_reg_remove_set = drv.remove.is_some();
        self.last_reg_shutdown_set = drv.shutdown.is_some();
        self.register_status
    }

    /// The unregistration entry point: records the call and returns
    /// nothing. From the caller's standpoint it always succeeds.
    pub fn unregister_driver(&mut self, drv: &SpiDriver)
        requires
            old(self).unregister_calls < u64::MAX,
        ensures
            unregister_recorded(*old(self), *final(self), drv.name@),
    {
        self.unregister_calls = self.unregister_calls + 1;
        self.last_unreg_name = copy_bytes(&drv.name);
    }

    /// The transfer entry point: records device pointer and lengths,
    /// fills the requested receive prefix when it completes, and answers
    /// the configured status. The call blocks its caller until done; no
    /// concurrency is introduced here.
    pub fn transfer(
        &mut self,
        dev: u64,
        tx_buf: &[u8],
        n_tx: usize,
        rx_buf: &mut Vec<u8>,
        n_rx: usize,
    ) -> (status: i32)
        requires
            old(self).transfer_calls < u64::MAX,
            dev != 0,
            n_tx <= tx_buf@.len(),
            n_rx <= old(rx_buf)@.len(),
        ensures
            status == old(self).transfer_status,
            transfer_recorded(*old(self), *final(self), dev, n_tx as nat, n_rx as nat),
            final(rx_buf)@ == rx_after(*old(self), old(rx_buf)@, n_rx as int),
    {
        self.transfer_calls = self.transfer_calls + 1;
        self.last_transfer_dev = dev;
        self.last_transfer_n_tx = n_tx;
        self.last_transfer_n_rx = n_rx;
        if self.transfer_status == 0 {
            let mut i: usize = 0;
            while i < n_rx
                invariant
                    0 <= i <= n_rx <= rx_buf@.len(),
                    rx_buf@.len() == old(rx_buf)@.len(),
                    forall|j: int| 0 <= j < i ==> rx_buf@[j] == self.rx_pattern,
                    forall|j: int| i <= j < rx_buf@.len() ==> rx_buf@[j] == old(rx_buf)@[j],
                decreases n_rx - i,
            {
                let pattern = self.rx_pattern;
                rx_buf[i] = pattern;
                i += 1;
            }
            proof {
                assert(rx_buf@ =~= rx_after(*old(self), old(rx_buf)@, n_rx as int));
            }
        }
        self.transfer_status
    }
}

} // verus!
