//! Pure focus-cycling state for the interactive front end.

use vstd::prelude::*;

verus! {

/// The field of the card editor that currently has focus.
#[derive(Clone, Copy, PartialEq, Eq, Structural, Debug)]
pub enum FocusedField {
    /// The question text area.
    Question,
    /// The answer text area.
    Answer,
    /// The tag area.
    Tag,
}

impl FocusedField {
    /// The field after `self` in the forward cycle
    /// `Question -> Answer -> Tag -> Question`.
    pub open spec fn spec_next(self) -> FocusedField {
        match self {
            FocusedField::Question => FocusedField::Answer,
            FocusedField::Answer => FocusedField::Tag,
            FocusedField::Tag => FocusedField::Question,
        }
    }

    /// Advances the focus to the next field of the cycle.
    pub fn next(&mut self)
        ensures
            *final(self) == old(self).spec_next(),
    {
        *self = match *self {
            FocusedField::Question => FocusedField::Answer,
            FocusedField::Answer => FocusedField::Tag,
            FocusedField::Tag => FocusedField::Question,
        };
    }

    /// Moves the focus to the previous field of the cycle: the inverse of
    /// [`FocusedField::next`].
    pub fn previous(&mut self)
        ensures
            final(self).spec_next() == *old(self),
    {
        *self = match *self {
            FocusedField::Question => FocusedField::Tag,
            FocusedField::Answer => FocusedField::Question,
            FocusedField::Tag => FocusedField::Answer,
        };
    }
}

/// The pane of the tag area that currently has focus.
#[derive(Clone, Copy, PartialEq, Eq, Structural, Debug)]
pub enum ActiveField {
    /// The list of every known tag.
    AllTags,
    /// The list of tags on the current card.
    CardTags,
    /// The tag search bar.
    Search,
}

impl ActiveField {
    /// The pane below `self` in the cycle
    /// `AllTags -> CardTags -> Search -> AllTags`.
    pub open spec fn spec_down(self) -> ActiveField {
        match self {
            ActiveField::AllTags => ActiveField::CardTags,
            ActiveField::CardTags => ActiveField::Search,
            ActiveField::Search => ActiveField::AllTags,
        }
    }

    /// Moves the focus up one pane: the inverse of [`ActiveField::down`].
    pub fn up(&mut self)
        ensures
            final(self).spec_down() == *old(self),
    {
        *self = match *self {
            ActiveField::AllTags => ActiveField::Search,
            ActiveField::CardTags => ActiveField::AllTags,
            ActiveField::Search => ActiveField::CardTags,
        };
    }

    /// Moves the focus down one pane.
    pub fn down(&mut self)
        ensures
            *final(self) == old(self).spec_down(),
    {
        *self = match *self {
            ActiveField::AllTags => ActiveField::CardTags,
            ActiveField::CardTags => ActiveField::Search,
            ActiveField::Search => ActiveField::AllTags,
        };
    }
}

/// The view the front end is currently showing.
#[derive(Clone, Copy, PartialEq, Eq, Structural, Debug)]
pub enum ActiveView {
    /// The landing view.
    Home,
    /// The card-creation view.
    AddCard,
    /// The card-editing view.
    EditCard,
    /// The collection browser.
    Browser,
    /// The review view.
    Review,
}

} // verus!
