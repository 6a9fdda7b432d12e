//! The selected square and the destinations offered for it.
use vstd::prelude::*;
use crate::square::Square;
use crate::position::{contains_square, copy_squares};

verus! {

/// The square whose piece is selected, if any, and the squares it may move to.
#[derive(Debug)]
pub struct SelectionState {
    pub selected: Option<Square>,
    pub highlighted: Vec<Square>,
}

impl SelectionState {
    /// Nothing is selected.
    pub open spec fn is_idle(&self) -> bool {
        self.selected is None && self.highlighted@.len() == 0
    }

    /// Nothing selected, nothing highlighted.
    pub fn new() -> (r: SelectionState)
        ensures
            r.is_idle(),
    {
        SelectionState { selected: None, highlighted: Vec::new() }
    }

    /// Drops the selection and its highlights.
    pub fn clear(&mut self)
        ensures
            final(self).is_idle(),
    {
        self.selected = None;
        self.highlighted = Vec::new();
    }

    /// Selects `sq`, offering exactly `destinations`.
    pub fn select(&mut self, sq: Square, destinations: Vec<Square>)
        ensures
            final(self).selected == Some(sq),
            final(self).highlighted@ == destinations@,
    {
        self.selected = Some(sq);
        self.highlighted = destinations;
    }

    /// `t` is one of the highlighted squares.
    pub fn is_highlighted(&self, t: Square) -> (r: bool)
        ensures
            r == self.highlighted@.contains(t),
    {
        contains_square(&self.highlighted, t)
    }

    /// A copy of the highlighted squares.
    pub fn highlighted_squares(&self) -> (r: Vec<Square>)
        ensures
            r@ == self.highlighted@,
    {
        copy_squares(&self.highlighted)
    }
}

} // verus!
