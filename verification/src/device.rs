//! The device handle and the transfer primitives built on it.

use crate::error::TransferError;
use crate::host::rx_after;
use crate::host::same_config;
use crate::host::same_register_obs;
use crate::host::same_unregister_obs;
use crate::host::transfer_recorded;
use crate::host::Host;
use vstd::prelude::*;

verus! {

/// A non-owning handle to a live device record of the host.
///
/// The wrapped word stands for the device pointer the host passes into a
/// lifecycle callback. The handle is only a capability for issuing
/// transfers: it owns nothing, and it must not be retained beyond the
/// callback that supplied its pointer.
#[derive(Clone, Copy)]
pub struct SpiDevice(u64);

impl SpiDevice {
    /// The wrapped device pointer.
    pub closed spec fn spec_ptr(&self) -> u64 {
        self.0
    }

    #[verifier::type_invariant]
    closed spec fn inv(&self) -> bool {
        self.0 != 0
    }

    /// Wraps a device pointer supplied by the host. The precondition of
    /// the wrap — the pointer is non-null and currently valid — is
    /// pushed onto the caller; validity is the host's contract and
    /// cannot be checked here.
    pub fn from_ptr(dev: u64) -> (r: Self)
        requires
            dev != 0,
        ensures
            r.spec_ptr() == dev,
    {
        SpiDevice(dev)
    }

    /// The raw device pointer, for handing back to the host.
    pub fn to_ptr(&mut self) -> (r: u64)
        ensures
            r == old(self).spec_ptr(),
            r != 0,
            *final(self) == *old(self),
    {
        proof {
            use_type_invariant(&*self);
        }
        self.0
    }
}

/// Between hosts `a` and `b` a write was observed: exactly one more
/// transfer call, transmitting `n_tx` bytes and reading none.
pub open spec fn write_observed(a: Host, b: Host, dev: u64, n_tx: nat) -> bool {
    &&& b.transfer_calls == a.transfer_calls + 1
    &&& b.last_transfer_dev == dev
    &&& b.last_transfer_n_tx == n_tx
    &&& b.last_transfer_n_rx == 0
    &&& same_config(a, b)
    &&& same_register_obs(a, b)
    &&& same_unregister_obs(a, b)
}

/// Between hosts `a` and `b` a read was observed: exactly one more
/// transfer call, transmitting nothing and reading `n_rx` bytes.
pub open spec fn read_observed(a: Host, b: Host, dev: u64, n_rx: nat) -> bool {
    &&& b.transfer_calls == a.transfer_calls + 1
    &&& b.last_transfer_dev == dev
    &&& b.last_transfer_n_tx == 0
    &&& b.last_transfer_n_rx == n_rx
    &&& same_config(a, b)
    &&& same_register_obs(a, b)
    &&& same_unregister_obs(a, b)
}

/// Law: a write is observationally a combined transfer whose receive side
/// is empty — the host sees the very same call.
pub proof fn lemma_write_is_empty_rx_transfer(a: Host, b: Host, dev: u64, n_tx: nat)
    ensures
        write_observed(a, b, dev, n_tx) <==> transfer_recorded(a, b, dev, n_tx, 0),
{
}

/// Law: a read is observationally a combined transfer whose transmit side
/// is empty — the host sees the very same call.
pub proof fn lemma_read_is_empty_tx_transfer(a: Host, b: Host, dev: u64, n_rx: nat)
    ensures
        read_observed(a, b, dev, n_rx) <==> transfer_recorded(a, b, dev, 0, n_rx),
{
}

/// Law: a transfer that is asked to read nothing leaves any receive
/// buffer exactly as it was, whatever the host answers.
pub proof fn lemma_zero_read_leaves_buffer(h: Host, rx: Seq<u8>)
    ensures
        rx_after(h, rx, 0) == rx,
{
    assert(rx_after(h, rx, 0) =~= rx);
}

/// Law: an empty transfer against a host whose transfer stub accepts
/// succeeds trivially — it issues exactly one call with both lengths
/// zero and touches no buffer.
pub proof fn lemma_empty_transfer_trivial(a: Host, b: Host, dev: u64, rx: Seq<u8>)
    requires
        a.transfer_status == 0,
        transfer_recorded(a, b, dev, 0, 0),
    ensures
        b.transfer_calls == a.transfer_calls + 1,
        b.last_transfer_n_tx == 0,
        b.last_transfer_n_rx == 0,
        rx_after(a, rx, 0) == rx,
{
    lemma_zero_read_leaves_buffer(a, rx);
}

/// The transfer primitives: thin, synchronous wrappers around the host's
/// transfer entry point, in its combined write-then-read form and its two
/// one-sided specializations.
pub struct Spi;

impl Spi {
    /// Issues one synchronous combined write-then-read on `dev`:
    /// `n_tx` bytes of `tx_buf` go out, then `n_rx` bytes are read into
    /// the front of `rx_buf`. Either side, or both, may be empty. The
    /// call blocks until the host completes it, returns `Ok` exactly
    /// when the host reports status 0, and surfaces any other status
    /// unchanged as a `TransferError`.
    pub fn write_then_read(
        dev: &mut SpiDevice,
        tx_buf: &[u8],
        n_tx: usize,
        rx_buf: &mut Vec<u8>,
        n_rx: usize,
        host: &mut Host,
    ) -> (r: Result<(), TransferError>)
        requires
            old(host).transfer_calls < u64::MAX,
            n_tx <= tx_buf@.len(),
            n_rx <= old(rx_buf)@.len(),
        ensures
            transfer_recorded(*old(host), *final(host), old(dev).spec_ptr(), n_tx as nat, n_rx as nat),
            final(rx_buf)@ == rx_after(*old(host), old(rx_buf)@, n_rx as int),
            r is Ok <==> old(host).transfer_status == 0,
            r matches Err(e) ==> e.code == old(host).transfer_status,
            *final(dev) == *old(dev),
    {
        let ptr = dev.to_ptr();
        let status = host.transfer(ptr, tx_buf, n_tx, rx_buf, n_rx);
        if status == 0 {
            Ok(())
        } else {
            Err(TransferError { code: status })
        }
    }

    /// Issues a pure write: `n_tx` bytes of `tx_buf` go out, nothing is
    /// read. Observationally this is `write_then_read` with an empty
    /// receive side, as `lemma_write_is_empty_rx_transfer` states.
    #[inline]
    pub fn write(dev: &mut SpiDevice, tx_buf: &[u8], n_tx: usize, host: &mut Host) -> (r: Result<
        (),
        TransferError,
    >)
        requires
            old(host).transfer_calls < u64::MAX,
            n_tx <= tx_buf@.len(),
        ensures
            write_observed(*old(host), *final(host), old(dev).spec_ptr(), n_tx as nat),
            r is Ok <==> old(host).transfer_status == 0,
            r matches Err(e) ==> e.code == old(host).transfer_status,
            *final(dev) == *old(dev),
    {
        let mut empty_rx: Vec<u8> = Vec::new();
        Spi::write_then_read(dev, tx_buf, n_tx, &mut empty_rx, 0, host)
    }

    /// Issues a pure read of `n_rx` bytes into the front of `rx_buf`,
    /// transmitting nothing. Observationally this is `write_then_read`
    /// with an empty transmit side, as `lemma_read_is_empty_tx_transfer`
    /// states.
    #[inline]
    pub fn read(dev: &mut SpiDevice, rx_buf: &mut Vec<u8>, n_rx: usize, host: &mut Host) -> (r:
        Result<(), TransferError>)
        requires
            old(host).transfer_calls < u64::MAX,
            n_rx <= old(rx_buf)@.len(),
        ensures
            read_observed(*old(host), *final(host), old(dev).spec_ptr(), n_rx as nat),
            final(rx_buf)@ == rx_after(*old(host), old(rx_buf)@, n_rx as int),
            r is Ok <==> old(host).transfer_status == 0,
            r matches Err(e) ==> e.code == old(host).transfer_status,
            *final(dev) == *old(dev),
    {
        let empty_tx: Vec<u8> = Vec::new();
        Spi::write_then_read(dev, empty_tx.as_slice(), 0, rx_buf, n_rx, host)
    }
}

} // verus!
