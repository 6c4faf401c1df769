//! The published state: seven independently written slots.
//!
//! Each slot holds either no value or a ready-to-read value. The engine is
//! the only writer; host queries read one slot each and substitute a fixed
//! default when the slot is empty. In the running plugin each slot sits
//! behind its own lock; this module gives the slot store's value-level
//! semantics, which that locking preserves per slot.

use vstd::prelude::*;
use crate::format::spec_dec;
use crate::format::u64_to_dec;
use vstd::string::StringExecFns;

verus! {

/// Names one slot of the published state.
#[derive(Clone, Copy, PartialEq, Eq, Structural, Debug)]
pub enum SlotId {
    Artist,
    Title,
    PositionDisplay,
    LengthDisplay,
    PositionSeconds,
    LengthSeconds,
    Status,
}

/// The published state: five text slots and two whole-second slots,
/// each independently either absent or holding a complete value.
pub struct Slots {
    pub artist: Option<String>,
    pub title: Option<String>,
    pub position_display: Option<String>,
    pub length_display: Option<String>,
    pub position_seconds: Option<u64>,
    pub length_seconds: Option<u64>,
    pub status: Option<String>,
}

/// The mathematical value of the published state.
pub ghost struct SlotsView {
    pub artist: Option<Seq<char>>,
    pub title: Option<Seq<char>>,
    pub position_display: Option<Seq<char>>,
    pub length_display: Option<Seq<char>>,
    pub position_seconds: Option<u64>,
    pub length_seconds: Option<u64>,
    pub status: Option<Seq<char>>,
}

/// The text a text slot holds, if any.
pub open spec fn opt_text(o: Option<String>) -> Option<Seq<char>> {
    match o {
        Some(s) => Some(s@),
        None => None,
    }
}

impl View for Slots {
    type V = SlotsView;

    open spec fn view(&self) -> SlotsView {
        SlotsView {
            artist: opt_text(self.artist),
            title: opt_text(self.title),
            position_display: opt_text(self.position_display),
            length_display: opt_text(self.length_display),
            position_seconds: self.position_seconds,
            length_seconds: self.length_seconds,
            status: opt_text(self.status),
        }
    }
}

/// What one slot holds: a text value or a whole-second count, or nothing.
pub ghost enum SlotContent {
    Text(Option<Seq<char>>),
    Secs(Option<u64>),
}

/// Whether a content value is of the kind the named slot stores.
pub open spec fn content_fits(id: SlotId, c: SlotContent) -> bool {
    match id {
        SlotId::PositionSeconds | SlotId::LengthSeconds => c is Secs,
        _ => c is Text,
    }
}

/// Reads one slot of the state, as a whole value.
pub open spec fn slot_of(v: SlotsView, id: SlotId) -> SlotContent {
    match id {
        SlotId::Artist => SlotContent::Text(v.artist),
        SlotId::Title => SlotContent::Text(v.title),
        SlotId::PositionDisplay => SlotContent::Text(v.position_display),
        SlotId::LengthDisplay => SlotContent::Text(v.length_display),
        SlotId::PositionSeconds => SlotContent::Secs(v.position_seconds),
        SlotId::LengthSeconds => SlotContent::Secs(v.length_seconds),
        SlotId::Status => SlotContent::Text(v.status),
    }
}

/// Replaces one slot of the state with a whole value, leaving the rest as
/// they are. A content of the wrong kind for the slot changes nothing.
pub open spec fn with_slot(v: SlotsView, id: SlotId, c: SlotContent) -> SlotsView {
    if !content_fits(id, c) {
        v
    } else {
        match id {
            SlotId::Artist => SlotsView { artist: c->Text_0, ..v },
            SlotId::Title => SlotsView { title: c->Text_0, ..v },
            SlotId::PositionDisplay => SlotsView { position_display: c->Text_0, ..v },
            SlotId::LengthDisplay => SlotsView { length_display: c->Text_0, ..v },
            SlotId::PositionSeconds => SlotsView { position_seconds: c->Secs_0, ..v },
            SlotId::LengthSeconds => SlotsView { length_seconds: c->Secs_0, ..v },
            SlotId::Status => SlotsView { status: c->Text_0, ..v },
        }
    }
}

/// No torn reads. A write to one slot replaces that slot's value as a whole
/// and leaves every other slot exactly as it was: a read of any slot around a
/// single write returns either the complete value from before the write or
/// the complete value written, never a mixture of the two and never part of
/// a value.
pub proof fn lemma_slot_write_atomic(pre: SlotsView, id: SlotId, c: SlotContent)
    requires
        content_fits(id, c),
    ensures
        slot_of(with_slot(pre, id, c), id) == c,
        forall|other: SlotId|
            other != id ==> slot_of(with_slot(pre, id, c), other) == slot_of(pre, other),
{
}

impl Slots {
    /// The initial state: every slot absent.
    pub fn new() -> (r: Slots)
        ensures
            r@.artist == None::<Seq<char>>,
            r@.title == None::<Seq<char>>,
            r@.position_display == None::<Seq<char>>,
            r@.length_display == None::<Seq<char>>,
            r@.position_seconds == None::<u64>,
            r@.length_seconds == None::<u64>,
            r@.status == None::<Seq<char>>,
    {
        Slots {
            artist: None,
            title: None,
            position_display: None,
            length_display: None,
            position_seconds: None,
            length_seconds: None,
            status: None,
        }
    }

    pub fn set_artist(&mut self, v: Option<String>)
        ensures
            final(self)@ == with_slot(old(self)@, SlotId::Artist, SlotContent::Text(opt_text(v))),
    {
        self.artist = v;
    }

    pub fn set_title(&mut self, v: Option<String>)
        ensures
            final(self)@ == with_slot(old(self)@, SlotId::Title, SlotContent::Text(opt_text(v))),
    {
        self.title = v;
    }

    pub fn set_position_display(&mut self, v: Option<String>)
        ensures
            final(self)@ == with_slot(
                old(self)@,
                SlotId::PositionDisplay,
                SlotContent::Text(opt_text(v)),
            ),
    {
        self.position_display = v;
    }

    pub fn set_length_display(&mut self, v: Option<String>)
        ensures
            final(self)@ == with_slot(
                old(self)@,
                SlotId::LengthDisplay,
                SlotContent::Text(opt_text(v)),
            ),
    {
        self.length_display = v;
    }

    pub fn set_position_seconds(&mut self, v: Option<u64>)
        ensures
            final(self)@ == with_slot(old(self)@, SlotId::PositionSeconds, SlotContent::Secs(v)),
    {
        self.position_seconds = v;
    }

    pub fn set_length_seconds(&mut self, v: Option<u64>)
        ensures
            final(self)@ == with_slot(old(self)@, SlotId::LengthSeconds, SlotContent::Secs(v)),
    {
        self.length_seconds = v;
    }

    pub fn set_status(&mut self, v: Option<String>)
        ensures
            final(self)@ == with_slot(old(self)@, SlotId::Status, SlotContent::Text(opt_text(v))),
    {
        self.status = v;
    }

    /// The artist query: the published value, or empty text.
    pub fn artist_text(&self) -> (r: String)
        ensures
            r@ == text_or_empty(self@.artist),
    {
        match &self.artist {
            Some(v) => v.clone(),
            None => String::new(),
        }
    }

    /// The title query: the published value, or empty text.
    pub fn title_text(&self) -> (r: String)
        ensures
            r@ == text_or_empty(self@.title),
    {
        match &self.title {
            Some(v) => v.clone(),
            None => String::new(),
        }
    }

    /// The position query: the published `M:SS` text, or empty text.
    pub fn position_display_text(&self) -> (r: String)
        ensures
            r@ == text_or_empty(self@.position_display),
    {
        match &self.position_display {
            Some(v) => v.clone(),
            None => String::new(),
        }
    }

    /// The length query: the published `M:SS` text, or empty text.
    pub fn length_display_text(&self) -> (r: String)
        ensures
            r@ == text_or_empty(self@.length_display),
    {
        match &self.length_display {
            Some(v) => v.clone(),
            None => String::new(),
        }
    }

    /// The position-seconds query: the published count in decimal, or `"0"`.
    pub fn position_seconds_text(&self) -> (r: String)
        ensures
            r@ == secs_or_zero(self@.position_seconds),
    {
        match self.position_seconds {
            Some(n) => u64_to_dec(n),
            None => zero_text(),
        }
    }

    /// The length-seconds query: the published count in decimal, or `"0"`.
    pub fn length_seconds_text(&self) -> (r: String)
        ensures
            r@ == secs_or_zero(self@.length_seconds),
    {
        match self.length_seconds {
            Some(n) => u64_to_dec(n),
            None => zero_text(),
        }
    }

    /// The status query: the published status text, or `"0"`.
    pub fn status_text(&self) -> (r: String)
        ensures
            r@ == match self@.status {
                Some(t) => t,
                None => seq!['0'],
            },
    {
        match &self.status {
            Some(v) => v.clone(),
            None => zero_text(),
        }
    }
}

/// A text slot's query result: its value, or empty text when absent.
pub open spec fn text_or_empty(o: Option<Seq<char>>) -> Seq<char> {
    match o {
        Some(t) => t,
        None => Seq::empty(),
    }
}

/// A seconds slot's query result: the count in decimal, or `"0"` when absent.
pub open spec fn secs_or_zero(o: Option<u64>) -> Seq<char> {
    match o {
        Some(n) => spec_dec(n as nat),
        None => seq!['0'],
    }
}

fn zero_text() -> (r: String)
    ensures
        r@ == seq!['0'],
{
    proof {
        reveal_strlit("0");
        assert("0"@ =~= seq!['0']);
    }
    String::from_str("0")
}

} // verus!
