//! A sign in the world whose text types itself out while the player reads.
use vstd::prelude::*;
use crate::naming::with_prefix;

verus! {

/// The markup put in front of a sign's text.
pub const WORLD_TEXT_MARKUP: &'static str = "[center][wave amp=20 freq=3.5]";

/// A sign's own state.
pub struct WorldText {
    text_to_display: String,
    display: bool,
}

impl WorldText {
    /// The sign's text.
    pub closed spec fn spec_text(&self) -> Seq<char> {
        self.text_to_display@
    }

    /// Whether the text types itself out.
    pub closed spec fn spec_display(&self) -> bool {
        self.display
    }

    /// A sign showing `text`, not yet typing.
    pub fn new(text_to_display: String) -> (w: WorldText)
        ensures
            w.spec_text() == text_to_display@,
            !w.spec_display(),
    {
        WorldText { text_to_display, display: false }
    }

    /// Starts or stops typing the text out.
    pub fn set_display(&mut self, value: bool)
        ensures
            final(self).spec_display() == value,
            final(self).spec_text() == old(self).spec_text(),
    {
        self.display = value;
    }

    /// Whether the text types itself out.
    pub fn is_displaying(&self) -> (r: bool)
        ensures
            r == self.spec_display(),
    {
        self.display
    }

    /// The sign's text with its markup, shown when the sign enters the scene.
    pub fn markup(&self) -> (r: String)
        ensures
            r@ == WORLD_TEXT_MARKUP@ + self.spec_text(),
    {
        with_prefix(WORLD_TEXT_MARKUP, &self.text_to_display)
    }

    /// How many characters show next frame, given how many show now.
    pub fn next_visible_characters(&self, shown: i64) -> (n: i64)
        requires
            shown < i64::MAX,
        ensures
            n == (if self.spec_display() { shown + 1 } else { shown as int }),
    {
        if self.display {
            shown + 1
        } else {
            shown
        }
    }
}

} // verus!
