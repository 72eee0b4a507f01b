use star::cards::{CardData, CardType};
use star::coffee::{CoffeeRoast, CoffeesToBrew};
use star::cycle::{CsData, CsState};
use star::tasks::{Daypart, Task, Tasks};

#[test]
fn roast_names() {
    assert_eq!(CoffeeRoast::Pike.to_string(), "Pike");
    assert_eq!(CoffeeRoast::Blonde.to_string(), "Blonde");
    assert_eq!(CoffeeRoast::Dark.to_string(), "Dark");
}

#[test]
fn brew_pair_display() {
    assert_eq!(CoffeesToBrew(CoffeeRoast::Pike, None).to_string(), "Pike, ");
    assert_eq!(
        CoffeesToBrew(CoffeeRoast::Pike, Some(CoffeeRoast::Blonde)).to_string(),
        "Pike, Blonde"
    );
}

#[test]
fn morning_rotation_alternates_roasts() {
    let after_blonde = CoffeesToBrew(CoffeeRoast::Pike, Some(CoffeeRoast::Blonde)).next_for_hour(10);
    assert_eq!(after_blonde.0, CoffeeRoast::Pike);
    assert_eq!(after_blonde.1, Some(CoffeeRoast::Dark));
    let after_dark = CoffeesToBrew(CoffeeRoast::Pike, Some(CoffeeRoast::Dark)).next_for_hour(9);
    assert_eq!(after_dark.1, Some(CoffeeRoast::Blonde));
    let after_pike = CoffeesToBrew(CoffeeRoast::Pike, Some(CoffeeRoast::Pike)).next_for_hour(0);
    assert_eq!(after_pike.1, Some(CoffeeRoast::Blonde));
}

#[test]
fn morning_rotation_queues_nothing_after_nothing() {
    let next = CoffeesToBrew(CoffeeRoast::Pike, None).next_for_hour(8);
    assert_eq!(next.0, CoffeeRoast::Pike);
    assert_eq!(next.1, None);
}

#[test]
fn afternoon_rotation_queues_nothing() {
    let next = CoffeesToBrew(CoffeeRoast::Pike, Some(CoffeeRoast::Blonde)).next_for_hour(11);
    assert_eq!(next.0, CoffeeRoast::Pike);
    assert_eq!(next.1, None);
    let later = CoffeesToBrew(CoffeeRoast::Pike, Some(CoffeeRoast::Dark)).next_for_hour(23);
    assert_eq!(later.1, None);
}

#[test]
fn get_next_always_brews_pike() {
    let next = CoffeesToBrew(CoffeeRoast::Pike, Some(CoffeeRoast::Blonde)).get_next();
    assert_eq!(next.0, CoffeeRoast::Pike);
}

#[test]
fn cycle_default_values() {
    let d = CsData::default();
    assert_eq!(d.cycle_state, CsState::NotStarted);
    assert_eq!(d.current_cycle_time, 1800);
    assert_eq!(d.start_time_value, 1800);
    assert_eq!(d.last_brewed.0, CoffeeRoast::Pike);
    assert_eq!(d.last_brewed.1, None);
}

#[test]
fn cycle_snapshot_marks_moved_countdown_started() {
    let moved = CsData::snapshot(1795, 1800, CoffeesToBrew(CoffeeRoast::Pike, None));
    assert_eq!(moved.cycle_state, CsState::Started);
    assert_eq!(moved.current_cycle_time, 1795);
    assert_eq!(moved.start_time_value, 1800);
    let idle = CsData::snapshot(1800, 1800, CoffeesToBrew(CoffeeRoast::Pike, None));
    assert_eq!(idle.cycle_state, CsState::NotStarted);
}

#[test]
fn card_constructors() {
    let c = CardData::new(CardType::Daydots);
    assert_eq!(c.card_type, CardType::Daydots);
    assert!(!c.is_priority);
    assert_eq!(c.index, 0);
    let p = CardData::new_priority(CardType::CsCycle);
    assert!(p.is_priority);
    assert_eq!(p.card_type, CardType::CsCycle);
}

#[test]
fn card_titles() {
    assert_eq!(
        CardData::new(CardType::StartNewTask).get_title(),
        "What can I help you with today?"
    );
    assert_eq!(CardData::new(CardType::Tasks).get_title(), "Tasks");
    assert_eq!(CardData::new(CardType::CsCycle).get_title(), "");
    assert_eq!(CardData::new(CardType::Daydots).get_title(), "");
}

#[test]
fn daypart_names_and_periods() {
    assert_eq!(Daypart::Opening.to_string(), "Opening");
    assert_eq!(Daypart::Mid.to_string(), "Mid-day");
    assert_eq!(Daypart::Closing.to_string(), "Closing");
    assert_eq!(Daypart::Opening.get_time_period(), "Open-12pm");
    assert_eq!(Daypart::Mid.get_time_period(), "12-4pm");
    assert_eq!(Daypart::Closing.get_time_period(), "4pm-Close");
}

#[test]
fn task_new_and_complete() {
    let mut t = Task::new("Floors");
    assert_eq!(t.task, "Floors");
    assert!(!t.completed);
    t.complete();
    assert!(t.completed);
    assert_eq!(t.task, "Floors");
}

#[test]
fn fresh_tasks_hold_default_content() {
    let tasks = Tasks::fresh(738_000);
    assert_eq!(tasks.date_of_use, 738_000);
    assert_eq!(tasks.tasks.len(), 3);
    assert_eq!(tasks.tasks[0].daypart, Daypart::Opening);
    assert!(tasks.tasks[0].daypart_tasks.is_empty());
    assert_eq!(tasks.tasks[1].daypart, Daypart::Mid);
    let mid: Vec<&str> = tasks.tasks[1].daypart_tasks.iter().map(|t| t.task.as_str()).collect();
    assert_eq!(mid, vec!["Floors", "Ovens", "18 Hour Pull", "Safe Count", "Mid Temps"]);
    assert_eq!(tasks.tasks[2].daypart, Daypart::Closing);
    let closing: Vec<&str> = tasks.tasks[2].daypart_tasks.iter().map(|t| t.task.as_str()).collect();
    assert_eq!(
        closing,
        vec![
            "Bar Syrups",
            "Bar Breakdowns",
            "Closing Dishes",
            "Backups",
            "Throw out expiring backups",
            "Bag & donate expiring food",
            "Temps",
            "Tills",
        ]
    );
    assert!(tasks.tasks.iter().all(|dp| dp.daypart_tasks.iter().all(|t| !t.completed)));
}

#[test]
fn tasks_kept_while_same_day() {
    let mut tasks = Tasks::fresh(738_000);
    tasks.tasks[1].daypart_tasks[0].complete();
    let kept = tasks.refreshed(738_000);
    assert!(kept.tasks[1].daypart_tasks[0].completed);
    assert_eq!(kept.date_of_use, 738_000);
}

#[test]
fn tasks_reset_on_a_new_day() {
    let mut tasks = Tasks::fresh(738_000);
    tasks.tasks[1].daypart_tasks[0].complete();
    let reset = tasks.refreshed(738_001);
    assert_eq!(reset.date_of_use, 738_001);
    assert!(!reset.tasks[1].daypart_tasks[0].completed);
    assert_eq!(reset.tasks[1].daypart_tasks.len(), 5);
}

#[test]
fn default_tasks_hold_default_content() {
    let tasks = Tasks::default();
    assert_eq!(tasks.tasks.len(), 3);
    assert_eq!(tasks.tasks[1].daypart_tasks.len(), 5);
    assert_eq!(tasks.tasks[2].daypart_tasks.len(), 8);
}
