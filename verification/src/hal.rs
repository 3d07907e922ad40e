//! The transport bridge: a process-wide, single-slot registry exposing one
//! active byte-transport device to the engine.
//!
//! The engine drives raw full-duplex exchanges through whichever device is
//! registered in the slot. Registration hands back a token; a transfer is
//! served only when its token matches the current registration, so a stale
//! token (one issued before a later re-registration) is rejected instead of
//! reaching a device that may no longer be the active one.

use vstd::prelude::*;
use crate::sensor::SensorError;

verus! {

/// Proof that a device was placed in the bridge's slot, and under which
/// registration epoch. Issued by [`TransportBridge::register`]; a transfer
/// presented with a token from an earlier epoch is refused.
#[derive(Clone, Copy, Debug, PartialEq, Eq, Structural)]
pub struct RegistrationToken {
    /// Identifier of the registered device.
    pub device: u32,
    /// Registration epoch the token was issued under.
    pub epoch: u64,
}

/// The record of one fully completed exchange: which device served it, how
/// many bytes were exchanged, and its position in the bridge's history.
#[derive(Clone, Copy, Debug, PartialEq, Eq, Structural)]
pub struct TransferRecord {
    /// Identifier of the device that served the exchange.
    pub device: u32,
    /// Number of bytes exchanged.
    pub len: usize,
    /// Zero-based position of this exchange in the bridge's history.
    pub seq: u64,
}

/// The single-slot device registry together with its exchange history.
pub struct TransportBridge {
    registered: bool,
    device: u32,
    epoch: u64,
    completed: u64,
    history: Ghost<Seq<TransferRecord>>,
}

impl TransportBridge {
    /// Whether any device is currently registered.
    pub closed spec fn spec_registered(self) -> bool {
        self.registered
    }

    /// The currently registered device.
    pub closed spec fn spec_device(self) -> u32 {
        self.device
    }

    /// The current registration epoch.
    pub closed spec fn spec_epoch(self) -> u64 {
        self.epoch
    }

    /// How many exchanges have fully completed.
    pub closed spec fn spec_completed(self) -> u64 {
        self.completed
    }

    /// The records of all fully completed exchanges, oldest first.
    pub closed spec fn spec_history(self) -> Seq<TransferRecord> {
        self.history@
    }

    /// A token is current when it carries the bridge's present epoch.
    pub open spec fn token_current(self, token: RegistrationToken) -> bool {
        self.spec_registered() && token.epoch == self.spec_epoch()
    }

    /// The record that a successful exchange of `len` bytes produces now.
    pub open spec fn spec_next_record(self, len: usize) -> TransferRecord {
        TransferRecord { device: self.spec_device(), len, seq: self.spec_completed() }
    }

    /// A fresh bridge with an empty slot and no completed exchanges.
    pub fn new() -> (r: TransportBridge)
        ensures
            !r.spec_registered(),
            r.spec_epoch() == 0,
            r.spec_completed() == 0,
            r.spec_history() == Seq::<TransferRecord>::empty(),
    {
        TransportBridge {
            registered: false,
            device: 0,
            epoch: 0,
            completed: 0,
            history: Ghost(Seq::empty()),
        }
    }

    /// Whether any device is currently registered.
    pub fn is_registered(&self) -> (r: bool)
        ensures
            r == self.spec_registered(),
    {
        self.registered
    }

    /// Stores `device` in the slot, overwriting any previous registration,
    /// and issues the token that later transfers must present.
    ///
    /// Re-registration does not touch the history of already completed
    /// exchanges; it only decides which device serves the next one.
    pub fn register(&mut self, device: u32) -> (t: RegistrationToken)
        requires
            old(self).spec_epoch() < u64::MAX,
        ensures
            final(self).spec_registered(),
            final(self).spec_device() == device,
            final(self).spec_epoch() == old(self).spec_epoch() + 1,
            final(self).spec_completed() == old(self).spec_completed(),
            final(self).spec_history() == old(self).spec_history(),
            t == (RegistrationToken { device, epoch: (old(self).spec_epoch() + 1) as u64 }),
            final(self).token_current(t),
    {
        self.registered = true;
        self.device = device;
        self.epoch = self.epoch + 1;
        RegistrationToken { device, epoch: self.epoch }
    }

    /// Performs one in-place full-duplex exchange over the registered device:
    /// the caller's `buffer` is sent and is replaced by `response`, the bytes
    /// the device returned. `device_ok` is the device's own report of whether
    /// the exchange succeeded.
    ///
    /// A stale or missing registration, or a device-reported failure, leaves
    /// the buffer and the history untouched and is fatal to the in-progress
    /// engine operation.
    pub fn transfer(
        &mut self,
        token: &RegistrationToken,
        buffer: &mut Vec<u8>,
        response: &Vec<u8>,
        device_ok: bool,
    ) -> (r: Result<TransferRecord, SensorError>)
        requires
            response@.len() == old(buffer)@.len(),
            old(self).spec_completed() < u64::MAX,
        ensures
            !old(self).token_current(*token) ==> {
                &&& r == Err::<TransferRecord, SensorError>(SensorError::TransportError)
                &&& *final(self) == *old(self)
                &&& final(buffer)@ == old(buffer)@
            },
            old(self).token_current(*token) && !device_ok ==> {
                &&& r == Err::<TransferRecord, SensorError>(SensorError::TransportError)
                &&& *final(self) == *old(self)
                &&& final(buffer)@ == old(buffer)@
            },
            old(self).token_current(*token) && device_ok ==> {
                &&& r == Ok::<TransferRecord, SensorError>(
                    old(self).spec_next_record(old(buffer)@.len() as usize),
                )
                &&& final(buffer)@ == response@
                &&& final(self).spec_registered() == old(self).spec_registered()
                &&& final(self).spec_device() == old(self).spec_device()
                &&& final(self).spec_epoch() == old(self).spec_epoch()
                &&& final(self).spec_completed() == old(self).spec_completed() + 1
                &&& final(self).spec_history() == old(self).spec_history().push(
                    old(self).spec_next_record(old(buffer)@.len() as usize),
                )
            },
    {
        if !self.registered || token.epoch != self.epoch {
            return Err(SensorError::TransportError);
        }
        if !device_ok {
            return Err(SensorError::TransportError);
        }
        let record = TransferRecord { device: self.device, len: buffer.len(), seq: self.completed };
        let mut i: usize = 0;
        while i < buffer.len()
            invariant
                i <= buffer@.len(),
                buffer@.len() == response@.len(),
                forall|j: int| 0 <= j < i ==> buffer@[j] == response@[j],
                forall|j: int| i <= j < buffer@.len() ==> buffer@[j] == old(buffer)@[j],
            decreases buffer@.len() - i,
        {
            buffer[i] = response[i];
            i = i + 1;
        }
        assert(buffer@ =~= response@);
        self.completed = self.completed + 1;
        proof {
            self.history@ = self.history@.push(record);
        }
        Ok(record)
    }

    /// A completed exchange is never affected by a later re-registration —
    /// `register` keeps the history exactly as it was — and the very next
    /// successful exchange is served by the newly registered device: for any
    /// two bridge states related as `register(device)` relates them, the
    /// next record names `device` and continues at the same position in the
    /// unchanged history.
    pub proof fn lemma_reregistration(pre: TransportBridge, post: TransportBridge, device: u32, len: usize)
        requires
            post.spec_registered(),
            post.spec_device() == device,
            post.spec_completed() == pre.spec_completed(),
            post.spec_history() == pre.spec_history(),
        ensures
            post.spec_next_record(len).device == device,
            post.spec_next_record(len).seq == pre.spec_completed(),
    {
    }
}

} // verus!
