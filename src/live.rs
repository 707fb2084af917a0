use vstd::prelude::*;

verus! {

/// What a new-message event says: the conversation it belongs to, who wrote
/// it and what it says.
pub struct UpdateModel {
    pub chat: Seq<char>,
    pub author: Seq<char>,
    pub content: Seq<char>,
}

/// The event pushed to a live viewer when a message is appended.
pub struct NewMessage {
    pub chat: String,
    pub author: String,
    pub content: String,
}

impl View for NewMessage {
    type V = UpdateModel;

    open spec fn view(&self) -> UpdateModel {
        UpdateModel { chat: self.chat@, author: self.author@, content: self.content@ }
    }
}

/// A new-message event addressed to a live channel.
pub struct Push {
    pub channel: u32,
    pub update: NewMessage,
}

impl View for Push {
    type V = (u32, UpdateModel);

    open spec fn view(&self) -> (u32, UpdateModel) {
        (self.channel, self.update@)
    }
}

/// The single registration slot for a live viewer. Attaching a viewer
/// replaces whichever was attached before: the last one to attach wins.
pub struct LiveChannel {
    slot: Option<u32>,
}

impl View for LiveChannel {
    type V = Option<u32>;

    closed spec fn view(&self) -> Option<u32> {
        self.slot
    }
}

impl LiveChannel {
    /// A registry with no viewer attached.
    pub fn new() -> (r: LiveChannel)
        ensures
            r@ == None::<u32>,
    {
        LiveChannel { slot: None }
    }

    /// Registers `channel` as the live viewer, replacing any earlier one.
    pub fn attach(&mut self, channel: u32)
        ensures
            final(self)@ == Some(channel),
    {
        self.slot = Some(channel);
    }

    /// The channel currently registered, if any.
    pub fn current(&self) -> (r: Option<u32>)
        ensures
            r == self@,
    {
        self.slot
    }

    /// The push that delivers `update` to the registered viewer; none where no
    /// viewer is attached.
    pub fn notify(&self, update: NewMessage) -> (r: Option<Push>)
        ensures
            match self@ {
                Some(c) => r is Some && r->0@ == (c, update@),
                None => r is None,
            },
    {
        match self.slot {
            Some(channel) => Some(Push { channel, update }),
            None => None,
        }
    }
}

} // verus!
