use flume::{Receiver, Sender};
use vstd::prelude::*;

use crate::error::RegisterError;
use crate::registry::StageRegistry;

verus! {

#[verifier::external_type_specification]
#[verifier::external_body]
#[verifier::reject_recursive_types(T)]
pub struct ExSender<T>(Sender<T>);

#[verifier::external_type_specification]
#[verifier::external_body]
#[verifier::reject_recursive_types(T)]
pub struct ExReceiver<T>(Receiver<T>);

/// Relies on `flume::unbounded`: a new channel, its sending and its receiving end.
#[verifier::external_body]
fn control_channel<C>() -> (r: (Sender<C>, Receiver<C>)) {
    flume::unbounded()
}

/// Relies on `Sender::send`: hands the command to the channel; `false` when
/// every receiver is gone.
#[verifier::external_body]
fn deliver<C>(sender: &Sender<C>, command: C) -> (r: bool) {
    sender.send(command).is_ok()
}

/// The control listeners of a pipeline's stages: one channel per uniquely
/// named stage, in registration order. The stage holds the receiving end.
#[verifier::reject_recursive_types(C)]
pub struct ControlBroadcast<C> {
    listeners: StageRegistry<Sender<C>>,
}

impl<C> ControlBroadcast<C> {
    /// The names of the stages that have a listener, in registration order.
    pub closed spec fn names(&self) -> Seq<Seq<char>> {
        self.listeners.names()
    }

    pub closed spec fn wf(&self) -> bool {
        self.listeners.wf()
    }

    /// A broadcast without listeners.
    pub fn new() -> (r: Self)
        ensures
            r.wf(),
            r.names() == Seq::<Seq<char>>::empty(),
    {
        ControlBroadcast { listeners: StageRegistry::new() }
    }

    /// The number of listeners.
    pub fn len(&self) -> (r: usize)
        requires
            self.wf(),
        ensures
            r == self.names().len(),
    {
        self.listeners.len()
    }

    /// Creates the listener of stage `name` and returns its receiving end. A
    /// name that already has a listener is refused and changes nothing.
    pub fn add_listener(&mut self, name: String) -> (r: Result<Receiver<C>, RegisterError>)
        requires
            old(self).wf(),
        ensures
            final(self).wf(),
            old(self).names().contains(name@) <==> r is Err,
            r matches Err(RegisterError::DuplicateName(n)) ==> n@ == name@,
            r is Err ==> final(self).names() == old(self).names(),
            r is Ok ==> final(self).names() == old(self).names().push(name@),
    {
        if self.listeners.contains(name.as_str()) {
            return Err(RegisterError::DuplicateName(name));
        }
        let (sender, receiver) = control_channel();
        match self.listeners.register(name, sender) {
            Ok(()) => Ok(receiver),
            Err(e) => Err(e),
        }
    }

    /// Sends a copy of `command` to every listener, in registration order, and
    /// returns how many were still listening.
    pub fn broadcast(&self, command: C) -> (r: usize) where C: Clone
        requires
            self.wf(),
        ensures
            r <= self.names().len(),
    {
        let n = self.listeners.len();
        let mut delivered: usize = 0;
        let mut i: usize = 0;
        while i < n
            invariant
                self.wf(),
                n == self.names().len(),
                i <= n,
                delivered <= i,
            decreases n - i,
        {
            if deliver(self.listeners.stage(i), command.clone()) {
                delivered = delivered + 1;
            }
            i = i + 1;
        }
        delivered
    }
}

} // verus!
