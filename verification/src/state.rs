//! The application-level reducer: two ordered lanes of cards (priority and
//! normal) and the four intents that grow or shrink them. Adding is
//! duplicate-suppressed per lane, destroying is by current position and
//! tolerates stale out-of-range indices, and every transition produces a new
//! value; persistence of the result is the caller's concern.

use crate::cards::{CardData, CardType};
use std::collections::VecDeque;
use vstd::prelude::*;

verus! {

/// Intents the presentation layer can dispatch at the board.
#[derive(PartialEq, Eq, Structural, Copy, Clone, Debug)]
pub enum StarAction {
    /// Append a card of this kind to the normal lane, unless one is there.
    AddCard(CardType),
    /// Put a card of this kind at the front of the priority lane, unless one
    /// is there.
    AddPriorityCard(CardType),
    /// Remove the priority-lane card at this position, if there is one.
    DestroyPriorityCard(usize),
    /// Remove the normal-lane card at this position, if there is one.
    DestroyCard(usize),
}

/// The board: the priority lane (most recently added first) and the normal
/// lane (most recently added last).
#[derive(Clone, Debug)]
pub struct StarData {
    pub priority_cards: VecDeque<CardData>,
    pub cards: VecDeque<CardData>,
}

/// Whether the lane holds a card of the given kind.
pub open spec fn lane_has_type(lane: Seq<CardData>, t: CardType) -> bool {
    exists|i: int| 0 <= i < lane.len() && lane[i].card_type == t
}

/// Whether no kind appears twice in the lane.
pub open spec fn lane_unique(lane: Seq<CardData>) -> bool {
    forall|i: int, j: int|
        0 <= i < j < lane.len() ==> lane[i].card_type != lane[j].card_type
}

/// How many cards of the given kind the lane holds.
pub open spec fn count_type(lane: Seq<CardData>, t: CardType) -> int
    decreases lane.len(),
{
    if lane.len() == 0 {
        0
    } else {
        count_type(lane.drop_last(), t) + if lane.last().card_type == t {
            1int
        } else {
            0int
        }
    }
}

/// `AddCard`: append to the back of the normal lane, unless the kind is
/// already present.
pub open spec fn spec_add_card(lane: Seq<CardData>, t: CardType) -> Seq<CardData> {
    if lane_has_type(lane, t) {
        lane
    } else {
        lane.push(CardData::spec_new(t))
    }
}

/// `AddPriorityCard`: insert at the front of the priority lane, unless the
/// kind is already present.
pub open spec fn spec_add_priority_card(lane: Seq<CardData>, t: CardType) -> Seq<CardData> {
    if lane_has_type(lane, t) {
        lane
    } else {
        seq![CardData::spec_new_priority(t)] + lane
    }
}

/// `DestroyCard` / `DestroyPriorityCard`: remove the card at the given
/// position; an out-of-range position leaves the lane untouched.
pub open spec fn spec_destroy(lane: Seq<CardData>, i: int) -> Seq<CardData> {
    if 0 <= i < lane.len() {
        lane.remove(i)
    } else {
        lane
    }
}

/// The whole step relation: what each action does to the pair of lanes
/// (priority lane first).
pub open spec fn spec_reduce(p: Seq<CardData>, c: Seq<CardData>, action: StarAction) -> (Seq<
    CardData,
>, Seq<CardData>) {
    match action {
        StarAction::AddCard(t) => (p, spec_add_card(c, t)),
        StarAction::AddPriorityCard(t) => (spec_add_priority_card(p, t), c),
        StarAction::DestroyPriorityCard(i) => (spec_destroy(p, i as int), c),
        StarAction::DestroyCard(i) => (p, spec_destroy(c, i as int)),
    }
}

/// A copy of a lane with the very same cards.
fn clone_lane(lane: &VecDeque<CardData>) -> (r: VecDeque<CardData>)
    ensures
        r@ == lane@,
{
    let r = lane.clone();
    proof {
        assert(lane@ =~= r@);
    }
    r
}

/// Whether the lane holds a card of the given kind.
fn lane_contains(lane: &VecDeque<CardData>, t: CardType) -> (r: bool)
    ensures
        r == lane_has_type(lane@, t),
{
    let n: usize = lane.len();
    let mut i: usize = 0;
    while i < n
        invariant
            i <= n,
            n == lane@.len(),
            forall|k: int| 0 <= k < i ==> lane@[k].card_type != t,
        decreases n - i,
    {
        if lane[i].card_type == t {
            return true;
        }
        i += 1;
    }
    false
}

impl StarData {
    /// Within each lane, at most one card of a given kind exists; every
    /// transition preserves this (see `lemma_reduce_preserves_unique`).
    pub open spec fn wf(self) -> bool {
        lane_unique(self.priority_cards@) && lane_unique(self.cards@)
    }

    /// Applies one action, producing the new board. Adding a kind already in
    /// its lane and destroying an out-of-range position are silent no-ops,
    /// and a well-formed board stays well-formed.
    pub fn reduce(&self, action: StarAction) -> (r: StarData)
        ensures
            r.priority_cards@ == spec_reduce(self.priority_cards@, self.cards@, action).0,
            r.cards@ == spec_reduce(self.priority_cards@, self.cards@, action).1,
            self.wf() ==> r.wf(),
    {
        proof {
            if self.wf() {
                lemma_reduce_preserves_unique(self.priority_cards@, self.cards@, action);
            }
        }
        match action {
            StarAction::AddCard(card_type) => {
                let mut cards = clone_lane(&self.cards);
                if !lane_contains(&cards, card_type) {
                    cards.push_back(CardData::new(card_type));
                }
                StarData { priority_cards: clone_lane(&self.priority_cards), cards }
            },
            StarAction::AddPriorityCard(card_type) => {
                let mut priority_cards = clone_lane(&self.priority_cards);
                if !lane_contains(&priority_cards, card_type) {
                    priority_cards.push_front(CardData::new_priority(card_type));
                }
                StarData { priority_cards, cards: clone_lane(&self.cards) }
            },
            StarAction::DestroyPriorityCard(index) => {
                let mut priority_cards = clone_lane(&self.priority_cards);
                if index < priority_cards.len() {
                    priority_cards.remove(index);
                }
                StarData { priority_cards, cards: clone_lane(&self.cards) }
            },
            StarAction::DestroyCard(index) => {
                let mut cards = clone_lane(&self.cards);
                if index < cards.len() {
                    cards.remove(index);
                }
                StarData { priority_cards: clone_lane(&self.priority_cards), cards }
            },
        }
    }

    /// The board a stored snapshot yields: each lane as stored, an absent or
    /// unreadable normal lane falling back to the single default card, an
    /// absent or unreadable priority lane to empty.
    pub fn from_storage(
        priority_cards: Option<VecDeque<CardData>>,
        cards: Option<VecDeque<CardData>>,
    ) -> (r: StarData)
        ensures
            r.priority_cards@ == (match priority_cards {
                Some(p) => p@,
                None => Seq::<CardData>::empty(),
            }),
            r.cards@ == (match cards {
                Some(c) => c@,
                None => seq![CardData::spec_new(CardType::StartNewTask)],
            }),
    {
        let p = match priority_cards {
            Some(p) => p,
            None => VecDeque::new(),
        };
        let c = match cards {
            Some(c) => c,
            None => {
                let mut c = VecDeque::new();
                c.push_back(CardData::new(CardType::StartNewTask));
                c
            },
        };
        StarData { priority_cards: p, cards: c }
    }
}

impl Default for StarData {
    /// The built-in board: an empty priority lane and the one default card,
    /// which also seeds the board when nothing was stored.
    fn default() -> (r: StarData)
        ensures
            r.priority_cards@ == Seq::<CardData>::empty(),
            r.cards@ == seq![CardData::spec_new(CardType::StartNewTask)],
            r.wf(),
    {
        StarData::from_storage(None, None)
    }
}

proof fn lemma_count_nonneg(lane: Seq<CardData>, t: CardType)
    ensures
        count_type(lane, t) >= 0,
    decreases lane.len(),
{
    if lane.len() > 0 {
        lemma_count_nonneg(lane.drop_last(), t);
    }
}

/// A lane holds a card of a kind exactly when its count of that kind is
/// positive.
proof fn lemma_count_pos_iff_has(lane: Seq<CardData>, t: CardType)
    ensures
        count_type(lane, t) > 0 <==> lane_has_type(lane, t),
    decreases lane.len(),
{
    lemma_count_nonneg(lane, t);
    if lane.len() > 0 {
        lemma_count_pos_iff_has(lane.drop_last(), t);
        lemma_count_nonneg(lane.drop_last(), t);
        if lane.last().card_type == t {
            assert(lane[lane.len() - 1].card_type == t);
            assert(lane_has_type(lane, t));
        } else {
            if lane_has_type(lane, t) {
                let i = choose|i: int| 0 <= i < lane.len() && lane[i].card_type == t;
                assert(i < lane.len() - 1);
                assert(lane.drop_last()[i] == lane[i]);
                assert(lane_has_type(lane.drop_last(), t));
            }
            if lane_has_type(lane.drop_last(), t) {
                let i = choose|i: int|
                    0 <= i < lane.drop_last().len() && lane.drop_last()[i].card_type == t;
                assert(lane[i] == lane.drop_last()[i]);
                assert(lane_has_type(lane, t));
            }
        }
    }
}

proof fn lemma_count_push(lane: Seq<CardData>, cd: CardData, t: CardType)
    ensures
        count_type(lane.push(cd), t) == count_type(lane, t) + if cd.card_type == t {
            1int
        } else {
            0int
        },
{
    assert(lane.push(cd).drop_last() =~= lane);
}

/// In a lane without duplicate kinds, each kind is held at most once.
pub proof fn lemma_unique_count_le_one(lane: Seq<CardData>, t: CardType)
    requires
        lane_unique(lane),
    ensures
        count_type(lane, t) <= 1,
    decreases lane.len(),
{
    if lane.len() > 0 {
        let prefix = lane.drop_last();
        assert(lane_unique(prefix)) by {
            assert forall|i: int, j: int| 0 <= i < j < prefix.len() implies prefix[i].card_type
                != prefix[j].card_type by {
                assert(prefix[i] == lane[i] && prefix[j] == lane[j]);
            }
        }
        lemma_unique_count_le_one(prefix, t);
        lemma_count_nonneg(prefix, t);
        if lane.last().card_type == t && count_type(prefix, t) > 0 {
            lemma_count_pos_iff_has(prefix, t);
            let i = choose|i: int| 0 <= i < prefix.len() && prefix[i].card_type == t;
            assert(lane[i] == prefix[i]);
            assert(lane[i].card_type == lane[lane.len() - 1].card_type);
        }
    }
}

/// After `AddCard(t)` the normal lane holds exactly one card of kind `t`,
/// provided it held at most one before — so any number of `AddCard(t)` calls
/// leave exactly one, however often they are repeated.
pub proof fn lemma_add_card_exactly_one(c: Seq<CardData>, t: CardType)
    requires
        count_type(c, t) <= 1,
    ensures
        count_type(spec_add_card(c, t), t) == 1,
{
    lemma_count_pos_iff_has(c, t);
    lemma_count_nonneg(c, t);
    if !lane_has_type(c, t) {
        lemma_count_push(c, CardData::spec_new(t), t);
    }
}

/// A second `AddCard` of the same kind changes nothing.
pub proof fn lemma_add_card_idempotent(c: Seq<CardData>, t: CardType)
    ensures
        spec_add_card(spec_add_card(c, t), t) == spec_add_card(c, t),
{
    if !lane_has_type(c, t) {
        let c1 = spec_add_card(c, t);
        assert(c1[c.len() as int].card_type == t);
        assert(lane_has_type(c1, t));
    }
}

/// `AddPriorityCard(t)` on a lane without `t` puts the new card at position
/// zero and keeps every other card one position later; with `t` already
/// present it is a no-op, so a second add of the same kind leaves the lane's
/// length unchanged.
pub proof fn lemma_add_priority_card_front(p: Seq<CardData>, t: CardType)
    ensures
        !lane_has_type(p, t) ==> {
            let r = spec_add_priority_card(p, t);
            &&& r.len() == p.len() + 1
            &&& r[0] == CardData::spec_new_priority(t)
            &&& forall|i: int| 0 <= i < p.len() ==> r[i + 1] == p[i]
        },
        spec_add_priority_card(spec_add_priority_card(p, t), t) == spec_add_priority_card(p, t),
{
    if !lane_has_type(p, t) {
        let r = spec_add_priority_card(p, t);
        assert(r[0].card_type == t);
        assert(lane_has_type(r, t));
    }
}

proof fn lemma_add_card_preserves_unique(lane: Seq<CardData>, t: CardType)
    requires
        lane_unique(lane),
    ensures
        lane_unique(spec_add_card(lane, t)),
{
    if !lane_has_type(lane, t) {
        let r = lane.push(CardData::spec_new(t));
        assert forall|i: int, j: int| 0 <= i < j < r.len() implies r[i].card_type
            != r[j].card_type by {
            if j == lane.len() {
                assert(r[i] == lane[i]);
            }
        }
    }
}

proof fn lemma_add_priority_preserves_unique(lane: Seq<CardData>, t: CardType)
    requires
        lane_unique(lane),
    ensures
        lane_unique(spec_add_priority_card(lane, t)),
{
    if !lane_has_type(lane, t) {
        let r = seq![CardData::spec_new_priority(t)] + lane;
        assert forall|i: int, j: int| 0 <= i < j < r.len() implies r[i].card_type
            != r[j].card_type by {
            if i == 0 {
                assert(r[j] == lane[j - 1]);
            } else {
                assert(r[i] == lane[i - 1] && r[j] == lane[j - 1]);
            }
        }
    }
}

proof fn lemma_destroy_preserves_unique(lane: Seq<CardData>, i: int)
    requires
        lane_unique(lane),
    ensures
        lane_unique(spec_destroy(lane, i)),
{
    if 0 <= i < lane.len() {
        let r = lane.remove(i);
        assert forall|a: int, b: int| 0 <= a < b < r.len() implies r[a].card_type
            != r[b].card_type by {
            let oa = if a < i {
                a
            } else {
                a + 1
            };
            let ob = if b < i {
                b
            } else {
                b + 1
            };
            assert(r[a] == lane[oa] && r[b] == lane[ob]);
        }
    }
}

/// Every action preserves the per-lane invariant that no kind appears twice.
pub proof fn lemma_reduce_preserves_unique(p: Seq<CardData>, c: Seq<CardData>, action: StarAction)
    requires
        lane_unique(p),
        lane_unique(c),
    ensures
        lane_unique(spec_reduce(p, c, action).0),
        lane_unique(spec_reduce(p, c, action).1),
{
    match action {
        StarAction::AddCard(t) => lemma_add_card_preserves_unique(c, t),
        StarAction::AddPriorityCard(t) => lemma_add_priority_preserves_unique(p, t),
        StarAction::DestroyPriorityCard(i) => lemma_destroy_preserves_unique(p, i as int),
        StarAction::DestroyCard(i) => lemma_destroy_preserves_unique(c, i as int),
    }
}

} // verus!
