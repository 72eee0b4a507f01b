//! The card catalog: the closed set of card kinds and the plain data a card
//! carries. A card's `index` is its current position in its lane and is
//! recomputed by the presentation layer on every render, never stored as a
//! durable identity.

use vstd::prelude::*;

verus! {

/// The kinds of card the board can show.
#[derive(PartialEq, Eq, Structural, Copy, Clone, Debug)]
pub enum CardType {
    StartNewTask,
    Daydots,
    CsCycle,
    Tasks,
}

/// One card: its kind, which lane it lives in, and its position there.
#[derive(PartialEq, Eq, Structural, Copy, Clone, Debug)]
pub struct CardData {
    pub card_type: CardType,
    pub is_priority: bool,
    pub index: usize,
}

impl CardData {
    /// The value `new` constructs, for use in contracts.
    pub open spec fn spec_new(card_type: CardType) -> CardData {
        CardData { card_type, is_priority: false, index: 0 }
    }

    /// The value `new_priority` constructs, for use in contracts.
    pub open spec fn spec_new_priority(card_type: CardType) -> CardData {
        CardData { card_type, is_priority: true, index: 0 }
    }

    pub fn new(card_type: CardType) -> (r: Self)
        ensures
            r == Self::spec_new(card_type),
    {
        CardData { card_type, is_priority: false, index: 0 }
    }

    pub fn new_priority(card_type: CardType) -> (r: Self)
        ensures
            r == Self::spec_new_priority(card_type),
    {
        let mut c = Self::new(card_type);
        c.is_priority = true;
        c
    }

    /// The heading shown above a card of this kind, for use in contracts.
    pub open spec fn spec_title(self) -> Seq<char> {
        match self.card_type {
            CardType::StartNewTask => "What can I help you with today?"@,
            CardType::CsCycle => Seq::<char>::empty(),
            CardType::Daydots => Seq::<char>::empty(),
            CardType::Tasks => "Tasks"@,
        }
    }

    pub fn get_title(&self) -> (r: String)
        ensures
            r@ == self.spec_title(),
    {
        match self.card_type {
            CardType::StartNewTask => String::from_str("What can I help you with today?"),
            CardType::CsCycle => String::new(),
            CardType::Daydots => String::new(),
            CardType::Tasks => String::from_str("Tasks"),
        }
    }
}

} // verus!
