use vstd::prelude::*;

verus! {

/// What a chat message is, as a pair of character sequences.
pub struct MessageModel {
    pub author: Seq<char>,
    pub content: Seq<char>,
}

/// One message of a conversation. Messages are appended and never edited.
pub struct ChatMessage {
    pub author: String,
    pub content: String,
}

impl View for ChatMessage {
    type V = MessageModel;

    open spec fn view(&self) -> MessageModel {
        MessageModel { author: self.author@, content: self.content@ }
    }
}

impl ChatMessage {
    pub fn new(author: String, content: String) -> (r: ChatMessage)
        ensures
            r@ == (MessageModel { author: author@, content: content@ }),
    {
        ChatMessage { author, content }
    }

    /// A copy of this message.
    pub fn duplicate(&self) -> (r: ChatMessage)
        ensures
            r@ == self@,
    {
        ChatMessage { author: self.author.clone(), content: self.content.clone() }
    }
}


/// The messages exchanged with one counterparty, in the order they were appended.
pub struct Conversation {
    counterparty: String,
    messages: Vec<ChatMessage>,
}

impl Conversation {
    pub closed spec fn key(&self) -> Seq<char> {
        self.counterparty@
    }

    pub closed spec fn history(&self) -> Seq<MessageModel> {
        self.messages@.map_values(|m: ChatMessage| m@)
    }

    pub fn counterparty(&self) -> (r: &String)
        ensures
            r@ == self.key(),
    {
        &self.counterparty
    }

    pub fn messages(&self) -> (r: &Vec<ChatMessage>)
        ensures
            r@.map_values(|m: ChatMessage| m@) == self.history(),
    {
        &self.messages
    }

    fn duplicate(&self) -> (r: Conversation)
        ensures
            r.key() == self.key(),
            r.history() == self.history(),
    {
        let mut messages: Vec<ChatMessage> = Vec::new();
        let mut i: usize = 0;
        while i < self.messages.len()
            invariant
                i <= self.messages@.len(),
                messages@.len() == i,
                forall|j: int| 0 <= j < i ==> #[trigger] messages@[j]@ == self.messages@[j]@,
            decreases self.messages@.len() - i,
        {
            messages.push(self.messages[i].duplicate());
            i = i + 1;
        }
        assert(messages@.map_values(|m: ChatMessage| m@) =~= self.history());
        Conversation { counterparty: self.counterparty.clone(), messages }
    }
}

/// The mapping that a list of conversations stands for: each counterparty to
/// its messages.
pub open spec fn conversation_map(
    entries: Seq<(Seq<char>, Seq<MessageModel>)>,
) -> Map<Seq<char>, Seq<MessageModel>>
    decreases entries.len(),
{
    if entries.len() == 0 {
        Map::empty()
    } else {
        conversation_map(entries.drop_last()).insert(entries.last().0, entries.last().1)
    }
}

/// The messages kept for `key`, empty where there are none.
pub open spec fn history_of(
    archive: Map<Seq<char>, Seq<MessageModel>>,
    key: Seq<char>,
) -> Seq<MessageModel> {
    if archive.contains_key(key) {
        archive[key]
    } else {
        Seq::empty()
    }
}

/// The archive after `message` is appended under `key`, the entry being
/// created where it is absent.
pub open spec fn appended(
    archive: Map<Seq<char>, Seq<MessageModel>>,
    key: Seq<char>,
    message: MessageModel,
) -> Map<Seq<char>, Seq<MessageModel>> {
    archive.insert(key, history_of(archive, key).push(message))
}

proof fn lemma_map_lookup(entries: Seq<(Seq<char>, Seq<MessageModel>)>, k: Seq<char>)
    requires
        forall|i: int, j: int|
            0 <= i < j < entries.len() ==> #[trigger] entries[i].0 != #[trigger] entries[j].0,
    ensures
        conversation_map(entries).contains_key(k) <==> exists|i: int|
            0 <= i < entries.len() && #[trigger] entries[i].0 == k,
        forall|i: int|
            0 <= i < entries.len() && #[trigger] entries[i].0 == k ==> conversation_map(
                entries,
            )[k] == entries[i].1,
    decreases entries.len(),
{
    if entries.len() > 0 {
        let rest = entries.drop_last();
        let last = entries.last();
        assert forall|i: int, j: int| 0 <= i < j < rest.len() implies #[trigger] rest[i].0
            != #[trigger] rest[j].0 by {
            assert(entries[i].0 != entries[j].0);
        }
        lemma_map_lookup(rest, k);
        if k == last.0 {
            assert(entries[entries.len() - 1].0 == k);
            assert forall|i: int| 0 <= i < entries.len() && #[trigger] entries[i].0 == k implies i
                == entries.len() - 1 by {
                if i < entries.len() - 1 {
                    assert(entries[i].0 != entries[entries.len() - 1].0);
                }
            }
        } else {
            assert forall|i: int| 0 <= i < entries.len() && #[trigger] entries[i].0 == k implies (
            0 <= i < rest.len() && rest[i].0 == k && rest[i] == entries[i]) by {}
            if conversation_map(rest).contains_key(k) {
                let i = choose|i: int| 0 <= i < rest.len() && #[trigger] rest[i].0 == k;
                assert(entries[i].0 == k);
            }
        }
    }
}

proof fn lemma_map_update(
    entries: Seq<(Seq<char>, Seq<MessageModel>)>,
    i: int,
    v: Seq<MessageModel>,
)
    requires
        0 <= i < entries.len(),
        forall|a: int, b: int|
            0 <= a < b < entries.len() ==> #[trigger] entries[a].0 != #[trigger] entries[b].0,
    ensures
        conversation_map(entries.update(i, (entries[i].0, v))) == conversation_map(entries).insert(
            entries[i].0,
            v,
        ),
    decreases entries.len(),
{
    let updated = entries.update(i, (entries[i].0, v));
    if i == entries.len() - 1 {
        assert(updated.drop_last() =~= entries.drop_last());
    } else {
        let rest = entries.drop_last();
        assert(updated.drop_last() =~= rest.update(i, (rest[i].0, v)));
        lemma_map_update(rest, i, v);
        assert(entries[i].0 != entries.last().0);
    }
    assert(conversation_map(updated) =~= conversation_map(entries).insert(entries[i].0, v));
}

/// Every conversation held, keyed by counterparty. A key is present exactly
/// when at least one message was exchanged with that counterparty.
pub struct Archive {
    conversations: Vec<Conversation>,
}

impl Archive {
    pub closed spec fn entries(&self) -> Seq<(Seq<char>, Seq<MessageModel>)> {
        self.conversations@.map_values(|c: Conversation| (c.key(), c.history()))
    }

    /// Counterparties are distinct and no conversation is empty.
    pub closed spec fn wf(&self) -> bool {
        &&& forall|i: int, j: int|
            0 <= i < j < self.entries().len() ==> #[trigger] self.entries()[i].0
                != #[trigger] self.entries()[j].0
        &&& forall|i: int|
            0 <= i < self.entries().len() ==> #[trigger] self.entries()[i].1.len() > 0
    }

    pub closed spec fn view(&self) -> Map<Seq<char>, Seq<MessageModel>> {
        conversation_map(self.entries())
    }

    /// Every conversation held has at least one message.
    pub proof fn lemma_histories_nonempty(&self, k: Seq<char>)
        requires
            self.wf(),
            self@.contains_key(k),
        ensures
            self@[k].len() > 0,
    {
        lemma_map_lookup(self.entries(), k);
    }

    /// An archive with no conversation.
    pub fn new() -> (r: Archive)
        ensures
            r.wf(),
            r@ == Map::<Seq<char>, Seq<MessageModel>>::empty(),
    {
        let r = Archive { conversations: Vec::new() };
        assert(r.entries() =~= Seq::empty());
        r
    }

    /// The number of conversations.
    pub fn len(&self) -> (r: usize)
        requires
            self.wf(),
        ensures
            r == self@.dom().len(),
    {
        proof { self.lemma_dom_len(); }
        self.conversations.len()
    }

    proof fn lemma_dom_len(&self)
        requires
            self.wf(),
        ensures
            self@.dom().len() == self.entries().len(),
            self@.dom().finite(),
    {
        let e = self.entries();
        let keys = e.map_values(|p: (Seq<char>, Seq<MessageModel>)| p.0);
        lemma_map_lookup(e, Seq::empty());
        assert forall|k: Seq<char>| #[trigger] self@.dom().contains(k) <==> keys.contains(k) by {
            lemma_map_lookup(e, k);
            if keys.contains(k) {
                let i = choose|i: int| 0 <= i < keys.len() && keys[i] == k;
                assert(e[i].0 == k);
            }
            if self@.dom().contains(k) {
                let i = choose|i: int| 0 <= i < e.len() && #[trigger] e[i].0 == k;
                assert(keys[i] == k);
            }
        }
        assert(self@.dom() =~= keys.to_set());
        assert(keys.no_duplicates()) by {
            assert forall|i: int, j: int| 0 <= i < keys.len() && 0 <= j < keys.len() && i != j
                implies keys[i] != keys[j] by {
                if i < j {
                    assert(e[i].0 != e[j].0);
                } else {
                    assert(e[j].0 != e[i].0);
                }
            }
        }
        keys.unique_seq_to_set();
    }

    /// Where the conversation with `key` stands, if there is one.
    fn position(&self, key: &String) -> (r: Option<usize>)
        ensures
            match r {
                Some(i) => i < self.entries().len() && self.entries()[i as int].0 == key@,
                None => forall|i: int|
                    0 <= i < self.entries().len() ==> #[trigger] self.entries()[i].0 != key@,
            },
    {
        let mut i: usize = 0;
        while i < self.conversations.len()
            invariant
                i <= self.entries().len(),
                forall|j: int| 0 <= j < i ==> #[trigger] self.entries()[j].0 != key@,
            decreases self.conversations@.len() - i,
        {
            if self.conversations[i].counterparty == *key {
                return Some(i);
            }
            i = i + 1;
        }
        None
    }

    /// The messages exchanged with `key`, in order, if there are any.
    pub fn messages_with(&self, key: &String) -> (r: Option<&Vec<ChatMessage>>)
        requires
            self.wf(),
        ensures
            match r {
                Some(v) => self@.contains_key(key@) && v@.map_values(|m: ChatMessage| m@)
                    == self@[key@],
                None => !self@.contains_key(key@),
            },
    {
        proof { lemma_map_lookup(self.entries(), key@); }
        match self.position(key) {
            Some(i) => {
                assert(self.entries()[i as int].0 == key@);
                Some(self.conversations[i].messages())
            },
            None => None,
        }
    }

    /// The conversations, one per counterparty.
    pub fn conversations(&self) -> (r: &Vec<Conversation>)
        ensures
            r@.map_values(|c: Conversation| (c.key(), c.history())) == self.entries(),
    {
        &self.conversations
    }

    /// Appends `message` to the conversation with `key`, opening it first if
    /// there is none.
    pub fn append(&mut self, key: &String, message: ChatMessage)
        requires
            old(self).wf(),
        ensures
            final(self).wf(),
            final(self)@ == appended(old(self)@, key@, message@),
    {
        let ghost before = self.entries();
        proof { lemma_map_lookup(before, key@); }
        match self.position(key) {
            Some(i) => {
                let ghost v = before[i as int].1.push(message@);
                let ghost old_conv = self.conversations@[i as int];
                self.conversations[i].messages.push(message);
                assert(self.conversations@[i as int].history() =~= old_conv.history().push(
                    message@,
                ));
                assert(self.entries() =~= before.update(i as int, (key@, v)));
                proof { lemma_map_update(before, i as int, v); }
                assert forall|a: int, b: int| 0 <= a < b < self.entries().len() implies
                    #[trigger] self.entries()[a].0 != #[trigger] self.entries()[b].0 by {
                    assert(before[a].0 != before[b].0);
                }
                assert forall|a: int| 0 <= a < self.entries().len() implies
                    #[trigger] self.entries()[a].1.len() > 0 by {
                    assert(before[a].1.len() > 0);
                }
                assert(self@ =~= appended(old(self)@, key@, message@));
            },
            None => {
                let mut messages: Vec<ChatMessage> = Vec::new();
                messages.push(message);
                let conversation = Conversation { counterparty: key.clone(), messages };
                assert(conversation.history() =~= seq![message@]);
                self.conversations.push(conversation);
                assert(self.entries() =~= before.push((key@, seq![message@])));
                assert forall|a: int, b: int| 0 <= a < b < self.entries().len() implies
                    #[trigger] self.entries()[a].0 != #[trigger] self.entries()[b].0 by {
                    if b < before.len() {
                        assert(before[a].0 != before[b].0);
                    } else {
                        assert(before[a].0 != key@);
                    }
                }
                assert forall|a: int| 0 <= a < self.entries().len() implies
                    #[trigger] self.entries()[a].1.len() > 0 by {
                    if a < before.len() {
                        assert(before[a].1.len() > 0);
                    }
                }
                assert(self.entries().drop_last() =~= before);
                assert(self@ =~= appended(old(self)@, key@, message@));
            },
        }
    }

    /// A full copy of the archive.
    pub fn snapshot(&self) -> (r: Archive)
        requires
            self.wf(),
        ensures
            r.wf(),
            r.entries() == self.entries(),
            r@ == self@,
    {
        let mut conversations: Vec<Conversation> = Vec::new();
        let mut i: usize = 0;
        while i < self.conversations.len()
            invariant
                i <= self.conversations@.len(),
                conversations@.len() == i,
                forall|j: int|
                    0 <= j < i ==> (#[trigger] conversations@[j]).key()
                        == self.conversations@[j].key() && conversations@[j].history()
                        == self.conversations@[j].history(),
            decreases self.conversations@.len() - i,
        {
            conversations.push(self.conversations[i].duplicate());
            i = i + 1;
        }
        let r = Archive { conversations };
        assert(r.entries() =~= self.entries());
        r
    }
}

} // verus!
