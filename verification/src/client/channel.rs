//! The std channel and lock through which requests reach a worker.

use std::sync::mpsc::{Receiver, Sender};
use std::sync::{Arc, Mutex, MutexGuard};

use vstd::prelude::*;

use super::client2::Request;

verus! {

/// `std::sync::mpsc::Sender`, opaque here.
#[verifier::external_type_specification]
#[verifier::external_body]
#[verifier::reject_recursive_types(T)]
pub struct ExSender<T>(Sender<T>);

/// `std::sync::mpsc::Receiver`, opaque here.
#[verifier::external_type_specification]
#[verifier::external_body]
#[verifier::reject_recursive_types(T)]
pub struct ExReceiver<T>(Receiver<T>);

/// `std::sync::Mutex`, opaque here.
#[verifier::external_type_specification]
#[verifier::external_body]
#[verifier::reject_recursive_types(T)]
pub struct ExMutex<T: ?Sized>(Mutex<T>);

/// `std::sync::mpsc::channel`: a new channel of requests. Nothing is stated
/// of the pair: what is sent on one end is received on the other.
#[verifier::external_body]
pub(crate) fn request_channel() -> (Sender<Request>, Receiver<Request>) {
    std::sync::mpsc::channel()
}

/// `std::sync::Mutex::new`: a lock around `value`. Nothing is stated of the
/// lock's contents, which are out of sight here.
#[verifier::external_body]
pub(crate) fn mutex_new<T>(value: T) -> Mutex<T> {
    Mutex::new(value)
}

/// `std::sync::MutexGuard`, opaque here.
#[verifier::external_type_specification]
#[verifier::external_body]
#[verifier::reject_recursive_types(T)]
pub struct ExMutexGuard<'a, T: ?Sized + 'a>(MutexGuard<'a, T>);

/// `Mutex::lock` on the lock around a request sender: the guard, or `None`
/// where the lock is poisoned (a thread panicked while holding it). Which
/// of the two comes back depends on other threads, so nothing is stated.
#[verifier::external_body]
pub(crate) fn lock_sender(tx: &Arc<Mutex<Sender<Request>>>) -> Option<MutexGuard<'_, Sender<Request>>> {
    tx.lock().ok()
}

/// `Sender::send`: puts `request` on the channel. A failed send (no
/// receiver is left) is ignored. Nothing is stated of the channel, which
/// is out of sight here.
#[verifier::external_body]
pub(crate) fn send_on(guard: &MutexGuard<'_, Sender<Request>>, request: Request) {
    let _ = guard.send(request);
}

} // verus!
