//! The daily checklist: three dayparts with their default task lists, keyed
//! by the day they were last used. A stored checklist is kept only while that
//! day is still today; otherwise it is reset to the defaults. Days are
//! counted as chrono counts them, in days from the common era.

use chrono::Datelike;
use vstd::prelude::*;

verus! {

/// One checklist entry.
#[derive(Clone, Debug)]
pub struct Task {
    pub task: String,
    pub completed: bool,
}

impl Task {
    pub fn new(task: &'static str) -> (r: Task)
        ensures
            r.task@ == task@,
            !r.completed,
    {
        Task { task: task.to_owned(), completed: false }
    }

    pub fn complete(&mut self)
        ensures
            final(self).task == old(self).task,
            final(self).completed,
    {
        self.completed = true;
    }
}

/// The three parts of the working day.
#[derive(PartialEq, Eq, Structural, Copy, Clone, Debug)]
pub enum Daypart {
    Opening,
    Mid,
    Closing,
}

/// The daypart's display name, for use in contracts.
pub open spec fn spec_daypart_str(d: Daypart) -> Seq<char> {
    match d {
        Daypart::Opening => "Opening"@,
        Daypart::Mid => "Mid-day"@,
        Daypart::Closing => "Closing"@,
    }
}

/// The daypart's time range, for use in contracts.
pub open spec fn spec_time_period_str(d: Daypart) -> Seq<char> {
    match d {
        Daypart::Opening => "Open-12pm"@,
        Daypart::Mid => "12-4pm"@,
        Daypart::Closing => "4pm-Close"@,
    }
}

impl Daypart {
    pub fn to_string(self) -> (r: &'static str)
        ensures
            r@ == spec_daypart_str(self),
    {
        match self {
            Daypart::Opening => "Opening",
            Daypart::Mid => "Mid-day",
            Daypart::Closing => "Closing",
        }
    }

    pub fn get_time_period(&self) -> (r: &'static str)
        ensures
            r@ == spec_time_period_str(*self),
    {
        match self {
            Daypart::Opening => "Open-12pm",
            Daypart::Mid => "12-4pm",
            Daypart::Closing => "4pm-Close",
        }
    }
}

/// One daypart's tasks.
#[derive(Clone, Debug)]
pub struct DaypartTasks {
    pub daypart: Daypart,
    pub daypart_tasks: Vec<Task>,
}

/// The whole checklist, with the day it was last used.
#[derive(Clone, Debug)]
pub struct Tasks {
    pub tasks: [DaypartTasks; 3],
    pub date_of_use: i32,
}

/// The built-in mid-day task names.
pub open spec fn spec_mid_titles() -> Seq<Seq<char>> {
    seq!["Floors"@, "Ovens"@, "18 Hour Pull"@, "Safe Count"@, "Mid Temps"@]
}

/// The built-in closing task names.
pub open spec fn spec_closing_titles() -> Seq<Seq<char>> {
    seq![
        "Bar Syrups"@,
        "Bar Breakdowns"@,
        "Closing Dishes"@,
        "Backups"@,
        "Throw out expiring backups"@,
        "Bag & donate expiring food"@,
        "Temps"@,
        "Tills"@,
    ]
}

/// The tasks carry exactly these names, in order, none of them completed.
pub open spec fn tasks_titled(ts: Seq<Task>, titles: Seq<Seq<char>>) -> bool {
    &&& ts.len() == titles.len()
    &&& forall|i: int| 0 <= i < ts.len() ==> (#[trigger] ts[i]).task@ == titles[i] && !ts[i].completed
}

impl Tasks {
    /// The checklist holds the built-in content: an empty opening list, the
    /// mid-day list, and the closing list, in that order, nothing completed.
    pub open spec fn is_default_content(self) -> bool {
        &&& self.tasks@.len() == 3
        &&& self.tasks@[0].daypart == Daypart::Opening
        &&& tasks_titled(self.tasks@[0].daypart_tasks@, Seq::empty())
        &&& self.tasks@[1].daypart == Daypart::Mid
        &&& tasks_titled(self.tasks@[1].daypart_tasks@, spec_mid_titles())
        &&& self.tasks@[2].daypart == Daypart::Closing
        &&& tasks_titled(self.tasks@[2].daypart_tasks@, spec_closing_titles())
    }

    /// The built-in checklist, stamped with the given day.
    pub fn fresh(date_of_use: i32) -> (r: Tasks)
        ensures
            r.is_default_content(),
            r.date_of_use == date_of_use,
    {
        let opening = DaypartTasks { daypart: Daypart::Opening, daypart_tasks: vec![] };
        let mid = DaypartTasks {
            daypart: Daypart::Mid,
            daypart_tasks: vec![
                Task::new("Floors"),
                Task::new("Ovens"),
                Task::new("18 Hour Pull"),
                Task::new("Safe Count"),
                Task::new("Mid Temps"),
            ],
        };
        let closing = DaypartTasks {
            daypart: Daypart::Closing,
            daypart_tasks: vec![
                Task::new("Bar Syrups"),
                Task::new("Bar Breakdowns"),
                Task::new("Closing Dishes"),
                Task::new("Backups"),
                Task::new("Throw out expiring backups"),
                Task::new("Bag & donate expiring food"),
                Task::new("Temps"),
                Task::new("Tills"),
            ],
        };
        let r = Tasks { tasks: [opening, mid, closing], date_of_use };
        proof {
            assert(tasks_titled(r.tasks@[0].daypart_tasks@, Seq::empty()));
            assert(tasks_titled(r.tasks@[1].daypart_tasks@, spec_mid_titles()));
            assert(tasks_titled(r.tasks@[2].daypart_tasks@, spec_closing_titles()));
        }
        r
    }

    /// A loaded checklist is kept while its stored day is still today and
    /// reset to the built-in content otherwise.
    pub fn refreshed(self, today: i32) -> (r: Tasks)
        ensures
            self.date_of_use == today ==> r == self,
            self.date_of_use != today ==> r.is_default_content() && r.date_of_use == today,
    {
        if self.date_of_use == today {
            self
        } else {
            Tasks::fresh(today)
        }
    }
}

/// Relies on chrono's `Utc::now` and `Datelike::num_days_from_ce` for the
/// current day's number.
#[verifier::external_body]
fn current_utc_day() -> (d: i32) {
    chrono::Utc::now().date_naive().num_days_from_ce()
}

impl Default for Tasks {
    /// The built-in checklist, stamped with today.
    fn default() -> (r: Tasks)
        ensures
            r.is_default_content(),
    {
        Tasks::fresh(current_utc_day())
    }
}

} // verus!
