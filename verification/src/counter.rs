//! The counter and its update protocol.
//!
//! One writer folds chat messages over the counter in arrival order. Each
//! message is classified against the command grammar, gated by the sender's
//! badges, and applied; the new value is reported as a notification exactly
//! when it differs from the old one, so that unchanged values cause no
//! fan-out. The increment saturates at `u32::MAX` rather than overflow; the
//! decrement is floored at zero.

use vstd::prelude::*;
use crate::auth::{allow_edit, allow_reset, spec_allow_edit, spec_allow_reset};
use crate::command::{parse_command, spec_parse_command, Command};

verus! {

/// A chat message as the core reads it: the text and the sender's badge
/// names. The chat connection hands these two fields over and keeps the rest.
pub struct ChatMessage {
    pub text: String,
    pub badges: Vec<String>,
}

/// The mathematical content of a `ChatMessage`.
pub ghost struct MessageModel {
    pub text: Seq<char>,
    pub badges: Seq<Seq<char>>,
}

impl View for ChatMessage {
    type V = MessageModel;

    open spec fn view(&self) -> MessageModel {
        MessageModel { text: self.text@, badges: self.badges.deep_view() }
    }
}

impl DeepView for ChatMessage {
    type V = MessageModel;

    open spec fn deep_view(&self) -> MessageModel {
        self.view()
    }
}

/// The effect of one command, gated by the sender's badges, on the value.
pub open spec fn spec_apply(value: u32, cmd: Command, badges: Seq<Seq<char>>) -> u32 {
    match cmd {
        Command::Screm => if value < u32::MAX {
            (value + 1) as u32
        } else {
            value
        },
        Command::Noscrem => if spec_allow_edit(badges) && value > 0 {
            (value - 1) as u32
        } else {
            value
        },
        Command::Reset => if spec_allow_reset(badges) {
            0
        } else {
            value
        },
        Command::SetTo(v) => if spec_allow_reset(badges) {
            v
        } else {
            value
        },
        Command::Other => value,
    }
}

/// The effect of one chat message on the value.
pub open spec fn spec_step(value: u32, msg: MessageModel) -> u32 {
    spec_apply(value, spec_parse_command(msg.text), msg.badges)
}

/// The value after folding a sequence of messages over `value` in arrival
/// order.
pub open spec fn spec_run(value: u32, msgs: Seq<MessageModel>) -> u32
    decreases msgs.len(),
{
    if msgs.len() == 0 {
        value
    } else {
        spec_step(spec_run(value, msgs.drop_last()), msgs.last())
    }
}

/// The notification a single step emits: the new value exactly when it
/// changed.
pub open spec fn spec_note(prev: u32, next: u32) -> Option<u32> {
    if next != prev {
        Some(next)
    } else {
        None
    }
}

/// The notifications emitted while folding a sequence of messages over
/// `value`: the value after each step that changed it, in order.
pub open spec fn spec_notes(value: u32, msgs: Seq<MessageModel>) -> Seq<u32>
    decreases msgs.len(),
{
    if msgs.len() == 0 {
        Seq::empty()
    } else {
        let prev = spec_run(value, msgs.drop_last());
        let next = spec_step(prev, msgs.last());
        spec_notes(value, msgs.drop_last()) + (if next != prev {
            seq![next]
        } else {
            Seq::empty()
        })
    }
}

/// Apply one chat message to a value.
pub fn step_value(value: u32, msg: &ChatMessage) -> (r: u32)
    ensures
        r == spec_step(value, msg@),
{
    match parse_command(msg.text.as_str()) {
        Command::Screm => if value < u32::MAX {
            value + 1
        } else {
            value
        },
        Command::Noscrem => if allow_edit(&msg.badges) && value > 0 {
            value - 1
        } else {
            value
        },
        Command::Reset => if allow_reset(&msg.badges) {
            0
        } else {
            value
        },
        Command::SetTo(v) => if allow_reset(&msg.badges) {
            v
        } else {
            value
        },
        Command::Other => value,
    }
}

/// The shared counter: created at zero, mutated only through `process`, read
/// by any number of snapshot readers.
pub struct Counter {
    value: u32,
}

impl View for Counter {
    type V = u32;

    closed spec fn view(&self) -> u32 {
        self.value
    }
}

impl Counter {
    /// A fresh counter starts at zero.
    pub fn new() -> (c: Counter)
        ensures
            c@ == 0,
    {
        Counter { value: 0 }
    }

    /// Snapshot read: the current value.
    pub fn get(&self) -> (v: u32)
        ensures
            v == self@,
    {
        self.value
    }

    /// Process one chat message: apply its effect and report the new value
    /// exactly when it changed.
    pub fn process(&mut self, msg: &ChatMessage) -> (note: Option<u32>)
        ensures
            final(self)@ == spec_step(old(self)@, msg@),
            note == spec_note(old(self)@, final(self)@),
    {
        let prev = self.value;
        self.value = step_value(prev, msg);
        if self.value != prev {
            Some(self.value)
        } else {
            None
        }
    }

    /// Process a sequence of chat messages in arrival order, collecting the
    /// notifications the steps emit. The final value is the fold of every
    /// message's effect over the starting value.
    pub fn process_all(&mut self, msgs: &Vec<ChatMessage>) -> (notes: Vec<u32>)
        ensures
            final(self)@ == spec_run(old(self)@, msgs.deep_view()),
            notes@ == spec_notes(old(self)@, msgs.deep_view()),
    {
        let ghost v0: u32 = self@;
        let ghost models: Seq<MessageModel> = msgs.deep_view();
        let mut notes: Vec<u32> = Vec::new();
        let mut i: usize = 0;
        while i < msgs.len()
            invariant
                i <= msgs.len(),
                models == msgs.deep_view(),
                models.len() == msgs.len(),
                self@ == spec_run(v0, models.take(i as int)),
                notes@ == spec_notes(v0, models.take(i as int)),
            decreases msgs.len() - i,
        {
            proof {
                assert(models.take(i + 1).drop_last() =~= models.take(i as int));
                assert(models.take(i + 1).last() == msgs[i as int]@);
            }
            let note = self.process(&msgs[i]);
            if let Some(v) = note {
                notes.push(v);
            }
            proof {
                if note is None {
                    assert(notes@ =~= spec_notes(v0, models.take(i + 1)));
                }
            }
            i += 1;
        }
        proof {
            assert(models.take(i as int) =~= models);
        }
        notes
    }
}

/// Decrementing at zero is a no-op: `!noscrem` can never drive the counter
/// negative, whoever sends it.
pub proof fn lemma_noscrem_at_zero(msg: MessageModel)
    requires
        spec_parse_command(msg.text) == Command::Noscrem,
    ensures
        spec_step(0, msg) == 0,
{
}

/// A subscriber that only keeps the latest notification still learns the
/// exact final value: the last notification of a run equals the value after
/// the whole run, and a run that emitted none left the value unchanged.
pub proof fn lemma_last_note_is_final(value: u32, msgs: Seq<MessageModel>)
    ensures
        spec_notes(value, msgs).len() > 0 ==> spec_notes(value, msgs).last() == spec_run(
            value,
            msgs,
        ),
        spec_notes(value, msgs).len() == 0 ==> spec_run(value, msgs) == value,
    decreases msgs.len(),
{
    if msgs.len() > 0 {
        lemma_last_note_is_final(value, msgs.drop_last());
        let prev = spec_run(value, msgs.drop_last());
        let next = spec_step(prev, msgs.last());
        if next == prev {
            assert(spec_notes(value, msgs) =~= spec_notes(value, msgs.drop_last()));
        }
    }
}

} // verus!
