//! The conversation of an agent.
//!
//! Messages are committed in groups. A group can stay open while a task waits for
//! its first answer, so that the user's words and the answer are committed
//! together.

use vstd::prelude::*;

use crate::json::{dup_items, items_view, make_text_message, text_message, Json, JsonV};

verus! {

/// What a [`Transcript`] holds.
#[verifier::ext_equal]
pub struct TranscriptV {
    pub committed: Seq<JsonV>,
    pub open: Option<Seq<JsonV>>,
}

impl TranscriptV {
    /// All messages, those of the open group last.
    pub open spec fn messages(self) -> Seq<JsonV> {
        match self.open {
            Some(group) => self.committed + group,
            None => self.committed,
        }
    }

    /// With messages added to the open group; a group is opened where there is none.
    pub open spec fn put(self, items: Seq<JsonV>) -> TranscriptV {
        TranscriptV {
            open: Some(
                match self.open {
                    Some(group) => group + items,
                    None => items,
                },
            ),
            ..self
        }
    }

    /// With the open group committed.
    pub open spec fn close(self) -> TranscriptV {
        TranscriptV { committed: self.messages(), open: None }
    }
}

/// The conversation of an agent.
pub struct Transcript {
    committed: Vec<Json>,
    group: Option<Vec<Json>>,
}

impl View for Transcript {
    type V = TranscriptV;

    closed spec fn view(&self) -> TranscriptV {
        TranscriptV {
            committed: items_view(self.committed@),
            open: match self.group {
                Some(group) => Some(items_view(group@)),
                None => None,
            },
        }
    }
}

/// The messages of a patch: the elements of an array, and none else.
pub open spec fn patch_items(patch: JsonV) -> Seq<JsonV> {
    match patch {
        JsonV::Arr(items) => items,
        _ => Seq::empty(),
    }
}

impl Transcript {
    pub fn new() -> (r: Transcript)
        ensures
            r@.committed.len() == 0,
            r@.open is None,
    {
        Transcript { committed: Vec::new(), group: None }
    }

    /// Adds messages to the open group.
    fn put(&mut self, items: Vec<Json>)
        ensures
            final(self)@ == old(self)@.put(items_view(items@)),
    {
        let ghost added = items@;
        let mut taken: Option<Vec<Json>> = None;
        std::mem::swap(&mut taken, &mut self.group);
        match taken {
            Some(mut group) => {
                let ghost before = group@;
                let mut items = items;
                group.append(&mut items);
                assert(items_view(group@) =~= items_view(before) + items_view(added));
                self.group = Some(group);
            },
            None => {
                self.group = Some(items);
            },
        }
        assert(self@ =~= old(self)@.put(items_view(added)));
    }

    /// Adds a message of a role to the open group.
    pub fn put_text(&mut self, role: &str, content: &str)
        ensures
            final(self)@ == old(self)@.put(seq![text_message(role@, content@)]),
    {
        let mut items: Vec<Json> = Vec::new();
        items.push(make_text_message(role, content));
        assert(items_view(items@) =~= seq![text_message(role@, content@)]);
        self.put(items);
    }

    /// Adds a message to the open group.
    pub fn put_message(&mut self, message: Json)
        ensures
            final(self)@ == old(self)@.put(seq![message@]),
    {
        let mut items: Vec<Json> = Vec::new();
        items.push(message);
        assert(items_view(items@) =~= seq![message@]);
        self.put(items);
    }

    /// Adds the messages of a patch to the open group.
    pub fn put_patch(&mut self, patch: &Json)
        ensures
            final(self)@ == old(self)@.put(patch_items(patch@)),
    {
        match patch.as_array() {
            Some(items) => {
                let items = dup_items(items);
                self.put(items);
            },
            None => {
                let items: Vec<Json> = Vec::new();
                assert(items_view(items@) =~= Seq::<JsonV>::empty());
                self.put(items);
            },
        }
    }

    /// Commits the open group.
    pub fn close(&mut self)
        ensures
            final(self)@ == old(self)@.close(),
    {
        let mut taken: Option<Vec<Json>> = None;
        std::mem::swap(&mut taken, &mut self.group);
        if let Some(mut group) = taken {
            let ghost before = self.committed@;
            let ghost added = group@;
            self.committed.append(&mut group);
            assert(items_view(self.committed@) =~= items_view(before) + items_view(added));
        }
    }

    /// All messages, those of the open group last.
    pub fn messages(&self) -> (r: Vec<Json>)
        ensures
            items_view(r@) == self@.messages(),
    {
        let mut out = dup_items(&self.committed);
        if let Some(group) = &self.group {
            let ghost before = out@;
            let mut more = dup_items(group);
            let ghost added = more@;
            out.append(&mut more);
            assert(items_view(out@) =~= items_view(before) + items_view(added));
        }
        out
    }
}

/// Messages that are put into a conversation stand behind all others, in order, whether or
/// not a group was open; committing the group keeps all messages as they are.
pub proof fn law_messages_keep_their_order(t: TranscriptV, items: Seq<JsonV>)
    ensures
        t.put(items).messages() == t.messages() + items,
        t.put(items).committed == t.committed,
        t.put(items).open is Some,
        t.close().messages() == t.messages(),
        t.close().committed == t.messages(),
        t.close().open is None,
{
    assert(t.put(items).messages() =~= t.messages() + items);
}

} // verus!
