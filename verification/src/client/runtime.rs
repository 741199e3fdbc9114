//! The decisions of the runtime: what the event loop does with a message,
//! where a message sent to the virtual machine goes, and on which thread
//! the interpreter runs.
use vstd::prelude::*;
use crate::bindings::configuration::InterpreterConfiguration;

verus! {

/// A message to the event loop of the main thread.
#[derive(Debug, Clone)]
pub enum EventLoopMessage<C> {
    /// Stop the event loop.
    Terminate,
    /// Make a call on the main thread.
    Call(C),
    /// Wake the event loop up.
    WakeUp,
}

/// What the event loop does with a message: whether it goes on, and the
/// call it makes first, if any.
pub fn process_message<C>(message: EventLoopMessage<C>) -> (result: (bool, Option<C>))
    ensures
        match message {
            EventLoopMessage::Terminate => !result.0 && result.1 is None,
            EventLoopMessage::WakeUp => result.0 && result.1 is None,
            EventLoopMessage::Call(c) => result.0 && result.1 == Some(c),
        },
{
    match message {
        EventLoopMessage::Terminate => (false, None),
        EventLoopMessage::WakeUp => (true, None),
        EventLoopMessage::Call(c) => (true, Some(c)),
    }
}

/// Where a message sent to the virtual machine goes.
#[derive(Debug)]
pub enum SendRoute<C> {
    /// Into the event loop's queue, waking the event loop up when it has a
    /// waker.
    Enqueue { message: EventLoopMessage<C>, wake: bool },
    /// Made at once, on the calling thread.
    Call(C),
    /// The process exits.
    Exit,
    /// Nothing happens.
    Ignore,
}

/// Where a message goes: into the queue when the interpreter runs in a
/// worker thread (there is a queue), otherwise it is handled at once: a
/// call is made, termination exits, and waking up does nothing.
pub fn route_message<C>(message: EventLoopMessage<C>, has_queue: bool, has_waker: bool) -> (result: SendRoute<C>)
    ensures
        has_queue ==> (result matches SendRoute::Enqueue { message: m, wake } && m == message && wake == has_waker),
        !has_queue ==> match message {
            EventLoopMessage::Call(c) => result matches SendRoute::Call(r) && r == c,
            EventLoopMessage::Terminate => result is Exit,
            EventLoopMessage::WakeUp => result is Ignore,
        },
{
    if has_queue {
        SendRoute::Enqueue { message, wake: has_waker }
    } else {
        match message {
            EventLoopMessage::Call(c) => SendRoute::Call(c),
            EventLoopMessage::Terminate => SendRoute::Exit,
            EventLoopMessage::WakeUp => SendRoute::Ignore,
        }
    }
}

/// The thread the interpreter runs on.
#[derive(Debug, Clone, Copy, PartialEq, Eq, Structural)]
pub enum RunMode {
    /// On the main thread, with no event loop.
    MainThread,
    /// On a worker thread, with the event loop on the main thread.
    WorkerThread,
}

/// Runs the virtual machine of a configuration.
pub struct Constellation;

impl Constellation {
    /// The thread the interpreter of a configuration runs on.
    pub fn run(configuration: &InterpreterConfiguration) -> (result: RunMode)
        ensures
            result == (if configuration@.worker_thread { RunMode::WorkerThread } else { RunMode::MainThread }),
    {
        if configuration.is_worker_thread() {
            RunMode::WorkerThread
        } else {
            RunMode::MainThread
        }
    }
}

} // verus!
