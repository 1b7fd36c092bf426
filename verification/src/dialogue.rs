//! The dialogue queue that gates most transitions: a FIFO of text entries.
//! The machine is "busy" exactly while the queue is non-empty, and most
//! sub-machines refuse input or transitions while it is.

use vstd::prelude::*;

verus! {

/// An RGBA colour with 8-bit channels, used to tint dialogue text.
#[derive(Copy, Clone, PartialEq, Eq, Structural, Debug)]
pub struct Rgba {
    pub r: u8,
    pub g: u8,
    pub b: u8,
    pub a: u8,
}

/// The rose tint the narrator speaks in.
pub fn narrator_color() -> (c: Rgba)
    ensures
        c == (Rgba { r: 255u8, g: 178u8, b: 178u8, a: 255u8 }),
{
    Rgba { r: 255, g: 178, b: 178, a: 255 }
}

pub fn white_color() -> (c: Rgba)
    ensures
        c == (Rgba { r: 255u8, g: 255u8, b: 255u8, a: 255u8 }),
{
    Rgba { r: 255, g: 255, b: 255, a: 255 }
}

/// One queued line of dialogue.
pub struct DialogueEntry {
    pub text: String,
    pub color: Rgba,
}

impl DialogueEntry {
    /// A line in the narrator's default colour.
    pub fn line(text: String) -> (r: DialogueEntry)
        ensures
            r.text == text,
            r.color == (Rgba { r: 255u8, g: 178u8, b: 178u8, a: 255u8 }),
    {
        DialogueEntry { text, color: narrator_color() }
    }
}

/// What a dialogue operation asks of the host.
pub struct DialogueCue {
    /// Play the "dialogue" sound once.
    pub play_audio: bool,
}

/// The FIFO dialogue queue. Busy exactly while entries remain.
pub struct Dialogue {
    pub entries: Vec<DialogueEntry>,
}

impl Dialogue {
    pub open spec fn spec_busy(&self) -> bool {
        self.entries@.len() > 0
    }

    pub fn new() -> (r: Dialogue)
        ensures
            r.entries@.len() == 0,
    {
        Dialogue { entries: Vec::new() }
    }

    /// Busy iff the queue holds at least one entry.
    #[verifier::when_used_as_spec(spec_busy)]
    pub fn busy(&self) -> (r: bool)
        ensures
            r == self.spec_busy(),
    {
        self.entries.len() > 0
    }

    /// Enqueues one entry. Moving from empty to non-empty plays the
    /// dialogue sound.
    pub fn add(&mut self, entry: DialogueEntry) -> (cue: DialogueCue)
        ensures
            final(self).entries@ == old(self).entries@.push(entry),
            cue.play_audio == !old(self).spec_busy(),
    {
        let was_busy = self.busy();
        self.entries.push(entry);
        DialogueCue { play_audio: !was_busy }
    }

    /// Enqueues several entries in order.
    pub fn add_all(&mut self, mut batch: Vec<DialogueEntry>) -> (cue: DialogueCue)
        ensures
            final(self).entries@ == old(self).entries@ + batch@,
            cue.play_audio == (!old(self).spec_busy() && batch@.len() > 0),
    {
        let was_busy = self.busy();
        let had_any = batch.len() > 0;
        let ghost start = self.entries@;
        let ghost all = batch@;
        while batch.len() > 0
            invariant
                batch@.len() <= all.len(),
                batch@ == all.subrange(all.len() - batch@.len(), all.len() as int),
                self.entries@ == start + all.subrange(0, all.len() - batch@.len()),
            decreases batch@.len(),
        {
            let ghost done = all.len() - batch@.len();
            let entry = batch.remove(0);
            proof {
                assert(entry == all[done]);
                assert(all.subrange(0, done + 1) == all.subrange(0, done).push(all[done]));
                assert(batch@ == all.subrange(done + 1, all.len() as int));
            }
            self.entries.push(entry);
        }
        proof {
            assert(all.subrange(0, all.len() as int) == all);
        }
        DialogueCue { play_audio: !was_busy && had_any }
    }

    /// Pops the head when the confirm key was just pressed; each advance
    /// plays the dialogue sound again.
    pub fn advance_if_confirm(&mut self, confirm_just_pressed: bool) -> (cue: DialogueCue)
        ensures
            final(self).entries@ == if old(self).spec_busy() && confirm_just_pressed {
                old(self).entries@.subrange(1, old(self).entries@.len() as int)
            } else {
                old(self).entries@
            },
            cue.play_audio == (old(self).spec_busy() && confirm_just_pressed),
    {
        if self.busy() && confirm_just_pressed {
            self.entries.remove(0);
            DialogueCue { play_audio: true }
        } else {
            DialogueCue { play_audio: false }
        }
    }

    /// Drops every queued entry; a game reset does this.
    pub fn clear(&mut self)
        ensures
            final(self).entries@.len() == 0,
    {
        self.entries.clear();
    }
}

} // verus!
