//! The form: raw text as the user typed it, checked and turned into a task.

use vstd::prelude::*;
use vstd::string::*;
use crate::configuration::Settings;
use crate::repeat::{policy_of, Repeat};
use crate::task::Task;
use crate::utils::{get_today, parse_date, DateError, Timestamp};

verus! {

/// The fields of a task as text. An `id` means that an existing task is
/// edited; without one a new task is made.
#[derive(Default)]
pub struct TaskForm {
    pub id: Option<usize>,
    pub name: String,
    pub date: String,
    pub repeats: String,
    pub group: String,
    pub description: String,
    pub url: String,
}

/// Why a form gave no task.
#[derive(Clone, Copy, Debug, PartialEq, Eq, Structural)]
pub enum SubmitError {
    /// The name is empty.
    EmptyName,
    /// The repeat text is not empty and is no repeat code.
    InvalidRepeat,
    /// The date fell back to today, and the local clock does not show
    /// 23:59:59 exactly once today.
    NoLocalTime,
}

impl SubmitError {
    /// The message shown to the user.
    pub fn message(&self) -> (s: String)
        ensures
            s@ == match *self {
                SubmitError::EmptyName => "Task name cannot be empty"@,
                SubmitError::InvalidRepeat => "Invalid repeat format"@,
                SubmitError::NoLocalTime => "Unable to determine today's date"@,
            },
    {
        match self {
            SubmitError::EmptyName => String::from_str("Task name cannot be empty"),
            SubmitError::InvalidRepeat => String::from_str("Invalid repeat format"),
            SubmitError::NoLocalTime => String::from_str("Unable to determine today's date"),
        }
    }
}

/// An optional field of the form: an empty text leaves the field unset.
pub open spec fn optional_field(text: String) -> Option<String> {
    if text@.len() == 0 {
        None
    } else {
        Some(text)
    }
}

/// The optional field that a text of the form stands for.
pub fn optional_text(text: &String) -> (r: Option<String>)
    ensures
        r == optional_field(*text),
{
    if text.as_str().is_empty() {
        None
    } else {
        Some(text.clone())
    }
}

impl TaskForm {
    /// The form can be submitted: it has a name, and its repeat text is
    /// empty or a repeat code.
    pub open spec fn is_acceptable(self) -> bool {
        self.name@.len() > 0 && policy_of(self.repeats@) is Some
    }

    /// The date of the task, given what reading the date text gave and what
    /// today's end of day is: an empty or unreadable text falls back to
    /// today.
    pub open spec fn due_date(self, parsed: Result<Timestamp, DateError>, today: Option<Timestamp>) -> Option<
        Timestamp,
    > {
        if self.date@.len() > 0 && parsed is Ok {
            Some(parsed->Ok_0)
        } else {
            today
        }
    }

    /// `t` is the task that the form describes, due at `date`: the given id
    /// and name, the repeat policy that the text stands for, the optional
    /// fields unset where their text is empty, and not complete.
    pub open spec fn describes(self, t: Task, date: Timestamp) -> bool {
        &&& t.id == self.id
        &&& t.name == self.name
        &&& t.date == date
        &&& policy_of(self.repeats@) == Some(t.repeats@)
        &&& t.group == optional_field(self.group)
        &&& t.description == optional_field(self.description)
        &&& t.url == optional_field(self.url)
        &&& !t.complete
    }

    /// Checks the form and builds its task, given the reading of the date
    /// text and today's end of day.
    ///
    /// An empty name is refused first, then a repeat text that is no code.
    /// The date never fails on account of its text: it falls back to today.
    pub fn assemble(&self, parsed: Result<Timestamp, DateError>, today: Option<Timestamp>) -> (r: Result<
        Task,
        SubmitError,
    >)
        ensures
            self.name@.len() == 0 ==> r == Err::<Task, SubmitError>(SubmitError::EmptyName),
            self.name@.len() > 0 && policy_of(self.repeats@) is None ==> r == Err::<Task, SubmitError>(
                SubmitError::InvalidRepeat,
            ),
            self.is_acceptable() ==> match self.due_date(parsed, today) {
                Some(date) => r is Ok && self.describes(r->Ok_0, date),
                None => r == Err::<Task, SubmitError>(SubmitError::NoLocalTime),
            },
    {
        if self.name.as_str().is_empty() {
            return Err(SubmitError::EmptyName);
        }
        let repeat = match Repeat::parse_from_str(self.repeats.as_str()) {
            Ok(repeat) => repeat,
            Err(_) => {
                return Err(SubmitError::InvalidRepeat);
            },
        };
        let date = if !self.date.as_str().is_empty() && parsed.is_ok() {
            parsed.unwrap()
        } else {
            match today {
                Some(today) => today,
                None => {
                    return Err(SubmitError::NoLocalTime);
                },
            }
        };
        Ok(
            Task {
                id: self.id,
                name: self.name.clone(),
                date: date,
                repeats: repeat,
                group: optional_text(&self.group),
                description: optional_text(&self.description),
                url: optional_text(&self.url),
                complete: false,
            },
        )
    }

    /// Checks the form and builds its task. The date text is read by the
    /// configured input patterns; the form is left as it was.
    ///
    /// The clock and the local time zone decide the date, so of the date the
    /// contract says what holds of every outcome: it is valid, and it is an
    /// end of day where the date text is empty.
    pub fn submit(&mut self, settings: &Settings) -> (r: Result<Task, SubmitError>)
        ensures
            *final(self) == *old(self),
            old(self).name@.len() == 0 ==> r == Err::<Task, SubmitError>(SubmitError::EmptyName),
            old(self).name@.len() > 0 && policy_of(old(self).repeats@) is None ==> r == Err::<
                Task,
                SubmitError,
            >(SubmitError::InvalidRepeat),
            old(self).is_acceptable() ==> match r {
                Ok(t) => old(self).describes(t, t.date) && t.date.is_valid() && (old(self).date@.len() == 0
                    ==> t.date.is_end_of_day()),
                Err(e) => e == SubmitError::NoLocalTime,
            },
    {
        let parsed = parse_date(self.date.as_str(), settings);
        let today = get_today();
        self.assemble(parsed, today)
    }
}

} // verus!
