//! Forwarding of parameter events from the host side to the editor's event
//! loop over a channel.
use vstd::prelude::*;

verus! {

#[verifier::external_type_specification]
#[verifier::external_body]
#[verifier::reject_recursive_types(T)]
pub struct ExSender<T>(std::sync::mpsc::Sender<T>);

/// Calls `Sender::clone`: another handle on the same channel. The handle is
/// opaque to Verus, so nothing is stated of it.
#[verifier::external_body]
fn clone_sender<T: Send>(tx: &std::sync::mpsc::Sender<T>) -> (r: std::sync::mpsc::Sender<T>) {
    tx.clone()
}

/// Calls `Sender::send`; a message for a receiver that hung up is dropped.
/// Whether it arrives depends on the other side, so nothing is stated.
#[verifier::external_body]
fn send_message<T: Send>(tx: &std::sync::mpsc::Sender<T>, message: T) {
    let _ = tx.send(message);
}

/// Sends messages built on demand to the editor, once a sender is installed.
#[derive(Clone)]
#[verifier::reject_recursive_types(Message)]
pub struct ParamEventDispatcher<Message> where Message: Send + 'static {
    tx: Option<std::sync::mpsc::Sender<Message>>,
}

impl<Message> ParamEventDispatcher<Message> where Message: Send + 'static {
    /// Whether a sender is installed.
    pub closed spec fn has_sender(&self) -> bool {
        self.tx is Some
    }

    /// The installed sender.
    pub closed spec fn installed(&self) -> Option<std::sync::mpsc::Sender<Message>> {
        self.tx
    }

    /// Installs the sender that later messages go to (replacing any other).
    pub fn set_sender(&mut self, tx: std::sync::mpsc::Sender<Message>)
        ensures
            final(self).installed() == Some(tx),
            final(self).has_sender(),
    {
        self.tx = Some(tx);
    }

    /// A handle on the installed sender's channel; None when none is installed.
    pub fn sender(&self) -> (r: Option<std::sync::mpsc::Sender<Message>>)
        ensures
            r is Some <==> self.has_sender(),
    {
        match &self.tx {
            Some(tx) => Some(clone_sender(tx)),
            None => None,
        }
    }

    /// Builds a message with `map` and sends it when a sender is installed;
    /// without a sender `map` is not called and nothing happens.
    pub fn send_with<F>(&self, map: F)
        where F: FnOnce() -> Message,
        requires
            self.has_sender() ==> map.requires(()),
    {
        if let Some(tx) = &self.tx {
            let message = map();
            send_message(tx, message);
        }
    }
}

impl<Message> Default for ParamEventDispatcher<Message> where Message: Send + 'static {
    /// A dispatcher without a sender.
    fn default() -> (d: Self)
        ensures
            !d.has_sender(),
    {
        ParamEventDispatcher { tx: None }
    }
}

} // verus!
