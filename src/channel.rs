//! The byte channels and the shared flag that connect the emulated serial
//! devices to the host. These are std's own types; what arrives on them, and
//! when, is up to the host threads on the other side, so the wrappers below
//! promise nothing about the bytes that move.
use vstd::prelude::*;

use std::cell::Cell;
use std::rc::Rc;
use std::sync::mpsc::{Receiver, Sender, SyncSender};

verus! {

#[verifier::external_type_specification]
#[verifier::external_body]
#[verifier::reject_recursive_types(T)]
pub struct ExReceiver<T>(Receiver<T>);

#[verifier::external_type_specification]
#[verifier::external_body]
#[verifier::reject_recursive_types(T)]
pub struct ExSender<T>(Sender<T>);

#[verifier::external_type_specification]
#[verifier::external_body]
#[verifier::reject_recursive_types(T)]
pub struct ExSyncSender<T>(SyncSender<T>);

#[verifier::external_type_specification]
#[verifier::external_body]
#[verifier::reject_recursive_types(T)]
pub struct ExCell<T: ?Sized>(Cell<T>);

/// Relies on std::sync::mpsc::sync_channel: a channel that holds at most
/// `bound` bytes.
#[verifier::external_body]
pub(crate) fn sync_channel(bound: usize) -> (SyncSender<u8>, Receiver<u8>) {
    std::sync::mpsc::sync_channel(bound)
}

/// Relies on Receiver::try_recv: a byte if one is waiting, without blocking.
#[verifier::external_body]
pub(crate) fn try_recv(rx: &Receiver<u8>) -> Option<u8> {
    rx.try_recv().ok()
}

/// Relies on Receiver::try_iter: every byte waiting now, in arrival order,
/// without blocking.
#[verifier::external_body]
pub(crate) fn drain(rx: &Receiver<u8>) -> Vec<u8> {
    rx.try_iter().collect()
}

/// Relies on SyncSender::try_send: queue a byte without blocking; a full or
/// closed channel drops it.
#[verifier::external_body]
pub(crate) fn try_send(tx: &SyncSender<u8>, byte: u8) {
    let _ = tx.try_send(byte);
}

/// Relies on Sender::send: queue a byte on an unbounded channel; a closed
/// channel drops it.
#[verifier::external_body]
pub(crate) fn send(tx: &Sender<u8>, byte: u8) {
    let _ = tx.send(byte);
}

/// Relies on Sender's Clone: another handle on the same channel.
#[verifier::external_body]
pub(crate) fn clone_sender(tx: &Sender<u8>) -> Sender<u8> {
    tx.clone()
}

/// Relies on Cell::new: a flag holding `value`.
#[verifier::external_body]
pub(crate) fn new_flag(value: bool) -> Cell<bool> {
    Cell::new(value)
}

/// Relies on Rc's Clone: another handle on the same flag.
#[verifier::external_body]
pub(crate) fn share_flag(flag: &Rc<Cell<bool>>) -> Rc<Cell<bool>> {
    Rc::clone(flag)
}

/// Relies on Cell::get: the flag's current value, which the host may change
/// at any time.
#[verifier::external_body]
pub(crate) fn flag_get(flag: &Rc<Cell<bool>>) -> bool {
    flag.get()
}

/// Relies on Cell::set.
#[verifier::external_body]
pub(crate) fn flag_set(flag: &Rc<Cell<bool>>, value: bool) {
    flag.set(value)
}

} // verus!
