use star::cards::CardType;
use star::state::{StarAction, StarData};

#[test]
fn default_board_has_one_start_card() {
    let board = StarData::default();
    assert!(board.priority_cards.is_empty());
    assert_eq!(board.cards.len(), 1);
    assert_eq!(board.cards[0].card_type, CardType::StartNewTask);
    assert!(!board.cards[0].is_priority);
}

#[test]
fn add_card_appends_to_back() {
    let board = StarData::default();
    let board = board.reduce(StarAction::AddCard(CardType::Daydots));
    assert_eq!(board.cards.len(), 2);
    assert_eq!(board.cards[0].card_type, CardType::StartNewTask);
    assert_eq!(board.cards[1].card_type, CardType::Daydots);
    assert!(board.priority_cards.is_empty());
}

#[test]
fn add_card_suppresses_duplicates() {
    let mut board = StarData::default();
    for _ in 0..4 {
        board = board.reduce(StarAction::AddCard(CardType::Daydots));
        let daydots = board
            .cards
            .iter()
            .filter(|c| c.card_type == CardType::Daydots)
            .count();
        assert_eq!(daydots, 1);
        assert_eq!(board.cards.len(), 2);
    }
}

#[test]
fn destroy_card_out_of_range_is_noop() {
    let board = StarData::default();
    let board = board.reduce(StarAction::AddCard(CardType::Tasks));
    let after = board.reduce(StarAction::DestroyCard(2));
    assert_eq!(after.cards.len(), 2);
    assert_eq!(after.cards[0].card_type, CardType::StartNewTask);
    assert_eq!(after.cards[1].card_type, CardType::Tasks);
}

#[test]
fn destroy_card_removes_at_index() {
    let board = StarData::default();
    let board = board.reduce(StarAction::AddCard(CardType::Tasks));
    let after = board.reduce(StarAction::DestroyCard(1));
    assert_eq!(after.cards.len(), 1);
    assert_eq!(after.cards[0].card_type, CardType::StartNewTask);
}

#[test]
fn add_priority_card_inserts_at_front() {
    let board = StarData::default();
    let board = board.reduce(StarAction::AddPriorityCard(CardType::CsCycle));
    let board = board.reduce(StarAction::AddPriorityCard(CardType::Daydots));
    assert_eq!(board.priority_cards.len(), 2);
    assert_eq!(board.priority_cards[0].card_type, CardType::Daydots);
    assert_eq!(board.priority_cards[1].card_type, CardType::CsCycle);
    assert!(board.priority_cards[0].is_priority);
}

#[test]
fn add_priority_card_suppresses_duplicates() {
    let board = StarData::default();
    let board = board.reduce(StarAction::AddPriorityCard(CardType::Daydots));
    let again = board.reduce(StarAction::AddPriorityCard(CardType::Daydots));
    assert_eq!(again.priority_cards.len(), 1);
    assert_eq!(again.priority_cards[0].card_type, CardType::Daydots);
}

#[test]
fn same_kind_may_sit_in_both_lanes() {
    let board = StarData::default();
    let board = board.reduce(StarAction::AddCard(CardType::Daydots));
    let board = board.reduce(StarAction::AddPriorityCard(CardType::Daydots));
    assert_eq!(board.cards.len(), 2);
    assert_eq!(board.priority_cards.len(), 1);
}

#[test]
fn destroy_priority_card_by_index() {
    let board = StarData::default();
    let board = board.reduce(StarAction::AddPriorityCard(CardType::CsCycle));
    let board = board.reduce(StarAction::AddPriorityCard(CardType::Daydots));
    let board = board.reduce(StarAction::DestroyPriorityCard(0));
    assert_eq!(board.priority_cards.len(), 1);
    assert_eq!(board.priority_cards[0].card_type, CardType::CsCycle);
    let noop = board.reduce(StarAction::DestroyPriorityCard(5));
    assert_eq!(noop.priority_cards.len(), 1);
}

#[test]
fn scenario_add_then_destroy_front() {
    let board = StarData::default();
    let board = board.reduce(StarAction::AddCard(CardType::Daydots));
    assert_eq!(board.cards.len(), 2);
    assert_eq!(board.cards[0].card_type, CardType::StartNewTask);
    assert_eq!(board.cards[1].card_type, CardType::Daydots);
    let board = board.reduce(StarAction::DestroyCard(0));
    assert_eq!(board.cards.len(), 1);
    assert_eq!(board.cards[0].card_type, CardType::Daydots);
}

#[test]
fn from_storage_uses_stored_lanes() {
    let stored = StarData::default()
        .reduce(StarAction::AddCard(CardType::Tasks))
        .reduce(StarAction::AddPriorityCard(CardType::CsCycle));
    let loaded = StarData::from_storage(
        Some(stored.priority_cards.clone()),
        Some(stored.cards.clone()),
    );
    assert_eq!(loaded.cards.len(), 2);
    assert_eq!(loaded.priority_cards.len(), 1);
}

#[test]
fn from_storage_falls_back_to_default() {
    let loaded = StarData::from_storage(None, None);
    assert!(loaded.priority_cards.is_empty());
    assert_eq!(loaded.cards.len(), 1);
    assert_eq!(loaded.cards[0].card_type, CardType::StartNewTask);
}
