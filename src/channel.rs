//! The egress of the gatekeeper.

use crate::messages::EgressMessage;
use vstd::prelude::*;

verus! {

/// Outgoing messages, kept in order until the host takes them. In dummy
/// mode, before the gatekeeper is registered on chain, a pushed message is
/// dropped.
#[derive(Clone, Debug)]
pub struct MessageChannel {
    pub dummy: bool,
    pub messages: Vec<EgressMessage>,
}

impl MessageChannel {
    /// An empty channel in dummy mode.
    pub fn new() -> (r: MessageChannel)
        ensures
            r.dummy,
            r.messages@ == Seq::<EgressMessage>::empty(),
    {
        MessageChannel { dummy: true, messages: Vec::new() }
    }

    pub open spec fn spec_push(self, message: EgressMessage) -> Seq<EgressMessage> {
        if self.dummy {
            self.messages@
        } else {
            self.messages@.push(message)
        }
    }

    pub fn push_message(&mut self, message: EgressMessage)
        ensures
            final(self).dummy == old(self).dummy,
            final(self).messages@ == old(self).spec_push(message),
    {
        if !self.dummy {
            self.messages.push(message);
        }
    }

    pub fn set_dummy(&mut self, dummy: bool)
        ensures
            *final(self) == (MessageChannel { dummy, ..*old(self) }),
    {
        self.dummy = dummy;
    }

    /// Takes every message sent so far, oldest first.
    pub fn drain(&mut self) -> (r: Vec<EgressMessage>)
        ensures
            r@ == old(self).messages@,
            final(self).messages@ == Seq::<EgressMessage>::empty(),
            final(self).dummy == old(self).dummy,
    {
        let mut taken: Vec<EgressMessage> = Vec::new();
        std::mem::swap(&mut taken, &mut self.messages);
        taken
    }

    pub fn clear(&mut self)
        ensures
            final(self).messages@ == Seq::<EgressMessage>::empty(),
            final(self).dummy == old(self).dummy,
    {
        self.messages.clear();
    }
}

} // verus!
