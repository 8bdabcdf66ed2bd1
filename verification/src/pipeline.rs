//! Which reports move the cursor, and the names of the stages of the input
//! pipeline as the developer panel shows them.
use crate::report::{active_status, contact_status, hover_status, TabletData};
use crate::text::{chars_equal, chars_of};
use vstd::prelude::*;
use vstd::string::*;

verus! {

/// Reports with a position: pen contact, hover and active reports. Aux,
/// tool, rotation, mouse and out-of-range reports do not move the cursor.
pub open spec fn is_positional_status(status: Seq<char>) -> bool {
    status == contact_status() || status == hover_status() || status == active_status()
}

pub fn is_positional(data: &TabletData) -> (r: bool)
    ensures
        r == is_positional_status(data.status@),
{
    let status = chars_of(data.status.as_str());
    chars_equal(&status, &chars_of("Contact")) || chars_equal(&status, &chars_of("Hover"))
        || chars_equal(&status, &chars_of("Active"))
}

/// A change of the emulated left button.
#[derive(Debug, Clone, Copy, PartialEq, Eq, Structural)]
pub enum ButtonEvent {
    Press,
    Release,
}

/// The emulated left button: events are sent only when its state changes.
#[derive(Debug, Clone, Copy, PartialEq, Eq, Structural)]
pub struct TipButton {
    pub down: bool,
}

impl TipButton {
    pub fn new() -> (b: Self)
        ensures
            !b.down,
    {
        TipButton { down: false }
    }

    /// Sets the button to `is_down`; the event to send, if the state changed.
    pub fn set(&mut self, is_down: bool) -> (e: Option<ButtonEvent>)
        ensures
            final(self).down == is_down,
            e == (if is_down && !old(self).down {
                Some(ButtonEvent::Press)
            } else if !is_down && old(self).down {
                Some(ButtonEvent::Release)
            } else {
                None
            }),
    {
        let event = if is_down && !self.down {
            Some(ButtonEvent::Press)
        } else if !is_down && self.down {
            Some(ButtonEvent::Release)
        } else {
            None
        };
        self.down = is_down;
        event
    }
}

/// A stage of the pipeline a packet goes through.
#[derive(Debug, Clone, Copy, PartialEq, Eq, Structural)]
pub enum DebugStage {
    Normalize,
    Filter,
    Project,
    Inject,
}

pub open spec fn stage_name(stage: DebugStage) -> Seq<char> {
    match stage {
        DebugStage::Normalize => "Normalize"@,
        DebugStage::Filter => "Filter"@,
        DebugStage::Project => "Project"@,
        DebugStage::Inject => "Inject"@,
    }
}

impl DebugStage {
    /// The stage's name.
    pub fn as_str(&self) -> (s: &'static str)
        ensures
            s@ == stage_name(*self),
    {
        match self {
            DebugStage::Normalize => "Normalize",
            DebugStage::Filter => "Filter",
            DebugStage::Project => "Project",
            DebugStage::Inject => "Inject",
        }
    }
}

} // verus!
