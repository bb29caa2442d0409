//! Commands for the audio playback worker, and error-tolerant delivery of
//! those commands through a lock-protected channel handle.

use std::sync::mpsc::Sender;
use std::sync::{Mutex, MutexGuard};
use vstd::prelude::*;

verus! {

#[verifier::external_type_specification]
#[verifier::external_body]
#[verifier::reject_recursive_types(T)]
pub struct ExMutex<T: ?Sized>(Mutex<T>);

#[verifier::external_type_specification]
#[verifier::external_body]
#[verifier::reject_recursive_types(T)]
pub struct ExMutexGuard<'a, T: ?Sized + 'a>(MutexGuard<'a, T>);

#[verifier::external_type_specification]
#[verifier::external_body]
#[verifier::reject_recursive_types(T)]
pub struct ExSender<T>(Sender<T>);

/// A request to the playback worker.
#[derive(Debug, Clone, Copy, PartialEq, Eq, Structural)]
pub enum PlayerCommand {
    Pause,
    Resume,
    Stop,
}

/// What became of a best-effort request.
#[derive(Debug, Clone, Copy, PartialEq, Eq, Structural)]
pub enum Delivery {
    /// The command was handed to the channel.
    Sent,
    /// The worker's receiving end is gone; the command was dropped.
    Disconnected,
    /// The lock guarding the channel handle was poisoned; nothing was sent.
    LockFailed,
}

/// Relies on `Mutex::lock`: it blocks until the lock is held, and fails only
/// when another holder panicked (poisoning), which is reported as `None`.
#[verifier::external_body]
fn acquire<T>(res: &Mutex<T>) -> (r: Option<MutexGuard<'_, T>>) {
    res.lock().ok()
}

/// Relies on `Sender::send`: on failure the value comes back unchanged inside
/// `SendError`.
#[verifier::external_body]
fn channel_send(sender: &Sender<PlayerCommand>, cmd: PlayerCommand) -> (r: Result<(), PlayerCommand>)
    ensures
        r matches Err(c) ==> c == cmd,
{
    sender.send(cmd).map_err(|e| e.0)
}

/// Relies on `MutexGuard`'s `Deref`: a guard gives access to the value it
/// protects.
#[verifier::external_body]
fn guarded<'a, 'b>(g: &'b MutexGuard<'a, Sender<PlayerCommand>>) -> (r: &'b Sender<PlayerCommand>) {
    &**g
}

/// The outcome of a delivery attempt: `None` when the lock could not be
/// taken, otherwise what the channel answered.
pub open spec fn delivery_of(attempt: Option<Result<(), PlayerCommand>>) -> Delivery {
    match attempt {
        None => Delivery::LockFailed,
        Some(Ok(())) => Delivery::Sent,
        Some(Err(_)) => Delivery::Disconnected,
    }
}

/// Classifies a delivery attempt.
pub fn delivery(attempt: Option<Result<(), PlayerCommand>>) -> (r: Delivery)
    ensures
        r == delivery_of(attempt),
{
    match attempt {
        None => Delivery::LockFailed,
        Some(Ok(())) => Delivery::Sent,
        Some(Err(_)) => Delivery::Disconnected,
    }
}

/// Hands `cmd` to the channel. A closed channel is reported as
/// `Disconnected`, never as a failure of the caller.
pub fn send(sender: &Sender<PlayerCommand>, cmd: PlayerCommand) -> (r: Delivery)
    ensures
        r == Delivery::Sent || r == Delivery::Disconnected,
{
    delivery(Some(channel_send(sender, cmd)))
}

/// Runs `f` on the guarded value when the lock can be taken; returns whether
/// it ran. A poisoned lock is not an error for the caller.
pub fn lock<T, F>(res: &Mutex<T>, f: F) -> (ran: bool)
    where
        F: FnOnce(MutexGuard<'_, T>),
    requires
        forall|g: MutexGuard<'_, T>| f.requires((g,)),
    ensures
        ran ==> exists|g: MutexGuard<'_, T>| f.ensures((g,), ()),
{
    match acquire(res) {
        Some(g) => {
            f(g);
            true
        },
        None => false,
    }
}

/// Delivers `cmd` through the channel handle that `res` protects, whichever
/// handle it holds at the time of the call. Which outcome comes back depends
/// only on the lock and the channel, which are outside state: this function
/// promises nothing about it beyond the classification of `delivery`.
pub fn lock_send(res: &Mutex<Sender<PlayerCommand>>, cmd: PlayerCommand) -> (r: Delivery) {
    let attempt = match acquire(res) {
        Some(g) => Some(channel_send(guarded(&g), cmd)),
        None => None,
    };
    delivery(attempt)
}

/// What the playback worker does to its output after a poll.
#[derive(Debug, Clone, Copy, PartialEq, Eq, Structural)]
pub enum SinkControl {
    /// Leave the output as it is.
    Keep,
    /// Suspend output, keeping queued audio.
    Pause,
    /// Resume output.
    Play,
}

/// The output change that a received command asks for.
pub open spec fn control_for(cmd: Option<PlayerCommand>) -> SinkControl {
    match cmd {
        Some(PlayerCommand::Pause) => SinkControl::Pause,
        Some(PlayerCommand::Resume) => SinkControl::Play,
        _ => SinkControl::Keep,
    }
}

/// One poll of the playback worker: given the command received since the
/// last poll, if any, and whether the queued audio has run out, returns the
/// change to apply to the output and whether the worker leaves its loop.
/// A `Stop` ends the loop; so does natural completion.
pub fn worker_decision(cmd: Option<PlayerCommand>, drained: bool) -> (r: (SinkControl, bool))
    ensures
        r.0 == control_for(cmd),
        r.1 <==> (cmd == Some(PlayerCommand::Stop) || drained),
{
    match cmd {
        Some(PlayerCommand::Pause) => (SinkControl::Pause, drained),
        Some(PlayerCommand::Resume) => (SinkControl::Play, drained),
        Some(PlayerCommand::Stop) => (SinkControl::Keep, true),
        None => (SinkControl::Keep, drained),
    }
}

} // verus!
