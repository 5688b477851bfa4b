//! The task: one item of the list.

use vstd::prelude::*;
use vstd::string::*;
use crate::repeat::{code_of, lemma_code_round_trip, policy_of, Repeat};
use crate::utils::{format_timestamp, local_datetime_from_str, local_now, shown_by, text_of, Timestamp};

verus! {

/// One to-do item. `id` is absent only until the store has numbered the task.
#[derive(Clone, Debug, PartialEq, Eq)]
pub struct Task {
    pub id: Option<usize>,
    pub name: String,
    pub date: Timestamp,
    pub repeats: Repeat,
    pub group: Option<String>,
    pub description: Option<String>,
    pub url: Option<String>,
    pub complete: bool,
}

impl Task {
    pub fn set_id(&mut self, id: Option<usize>)
        ensures
            *final(self) == (Task { id: id, ..*old(self) }),
    {
        self.id = id;
    }

    pub fn set_name(&mut self, name: String)
        ensures
            *final(self) == (Task { name: name, ..*old(self) }),
    {
        self.name = name;
    }

    pub fn set_date(&mut self, date: Timestamp)
        ensures
            *final(self) == (Task { date: date, ..*old(self) }),
    {
        self.date = date;
    }

    pub fn set_repeats(&mut self, repeats: Repeat)
        ensures
            *final(self) == (Task { repeats: repeats, ..*old(self) }),
    {
        self.repeats = repeats;
    }

    pub fn set_group(&mut self, group: String)
        ensures
            *final(self) == (Task { group: Some(group), ..*old(self) }),
    {
        self.group = Some(group);
    }

    pub fn set_description(&mut self, description: String)
        ensures
            *final(self) == (Task { description: Some(description), ..*old(self) }),
    {
        self.description = Some(description);
    }

    pub fn set_url(&mut self, url: String)
        ensures
            *final(self) == (Task { url: Some(url), ..*old(self) }),
    {
        self.url = Some(url);
    }

    /// Marks the task complete or incomplete.
    pub fn set_complete(&mut self, complete: bool)
        ensures
            *final(self) == (Task { complete: complete, ..*old(self) }),
    {
        self.complete = complete;
    }

    /// A task without a number, name, group, description or link, which
    /// never repeats and is not complete.
    pub open spec fn is_blank(self) -> bool {
        &&& self.id is None
        &&& self.name@.len() == 0
        &&& self.repeats == Repeat::Never
        &&& self.group is None
        &&& self.description is None
        &&& self.url is None
        &&& !self.complete
    }
}

impl Default for Task {
    /// A blank task, dated now.
    fn default() -> (r: Task)
        ensures
            r.is_blank(),
            r.date.is_valid(),
    {
        Task {
            id: None,
            name: String::new(),
            date: local_now(),
            repeats: Repeat::Never,
            group: None,
            description: None,
            url: None,
            complete: false,
        }
    }
}

/// Writes a timestamp as it is stored: ISO 8601 with the offset.
pub fn serialize_dt(date: &Timestamp) -> (r: Option<String>)
    ensures
        text_of(r) == shown_by(*date, "%+"@),
{
    format_timestamp(date, "%+")
}

/// Reads a timestamp as it is stored; `None` where the text is not in that
/// form or does not agree with the local time zone.
pub fn deserialize_dt(s: &str) -> (r: Option<Timestamp>)
    ensures
        r matches Some(t) ==> t.is_valid(),
{
    local_datetime_from_str(s, "%+")
}

/// A task as it is stored: the date as text, the repeat policy as its code.
#[derive(Clone, Debug, PartialEq, Eq)]
pub struct TaskRecord {
    pub id: Option<usize>,
    pub name: String,
    pub date: String,
    pub repeats: String,
    pub group: Option<String>,
    pub description: Option<String>,
    pub url: Option<String>,
    pub complete: bool,
}

/// Why a record is no task.
#[derive(Clone, Copy, Debug, PartialEq, Eq, Structural)]
pub enum RecordError {
    /// The date text cannot be read.
    BadDate,
    /// The repeat text is no repeat code.
    BadRepeat,
}

impl RecordError {
    /// The message shown to the user.
    pub fn message(&self) -> (s: String)
        ensures
            s@ == "Unable to parse database file"@,
    {
        String::from_str("Unable to parse database file")
    }
}

impl TaskRecord {
    /// The record stores the task, with `date` as the text of its date.
    pub open spec fn stores(self, t: Task, date: Seq<char>) -> bool {
        &&& self.id == t.id
        &&& self.name == t.name
        &&& self.date@ == date
        &&& self.repeats@ == code_of(t.repeats@)
        &&& self.group == t.group
        &&& self.description == t.description
        &&& self.url == t.url
        &&& self.complete == t.complete
    }

    /// `t` is the task that the record holds, dated `date`.
    pub open spec fn holds(self, t: Task, date: Timestamp) -> bool {
        &&& t.id == self.id
        &&& t.name == self.name
        &&& t.date == date
        &&& policy_of(self.repeats@) == Some(t.repeats@)
        &&& t.group == self.group
        &&& t.description == self.description
        &&& t.url == self.url
        &&& t.complete == self.complete
    }

    /// The task that the record holds, given what reading its date text
    /// gave. A date that could not be read is refused first, then a repeat
    /// text that is no code.
    pub fn into_task_dated(self, date: Option<Timestamp>) -> (r: Result<Task, RecordError>)
        ensures
            date is None ==> r == Err::<Task, RecordError>(RecordError::BadDate),
            date is Some && policy_of(self.repeats@) is None ==> r == Err::<Task, RecordError>(
                RecordError::BadRepeat,
            ),
            date is Some && policy_of(self.repeats@) is Some ==> r is Ok && self.holds(r->Ok_0, date->Some_0),
    {
        let date = match date {
            Some(date) => date,
            None => {
                return Err(RecordError::BadDate);
            },
        };
        let repeats = match Repeat::parse_from_str(self.repeats.as_str()) {
            Ok(repeats) => repeats,
            Err(_) => {
                return Err(RecordError::BadRepeat);
            },
        };
        Ok(
            Task {
                id: self.id,
                name: self.name,
                date: date,
                repeats: repeats,
                group: self.group,
                description: self.description,
                url: self.url,
                complete: self.complete,
            },
        )
    }

    /// The task that the record holds. The local time zone has a say in
    /// reading the date, so of the date only its validity is stated.
    pub fn into_task(self) -> (r: Result<Task, RecordError>)
        ensures
            r matches Ok(t) ==> self.holds(t, t.date) && t.date.is_valid(),
            r == Err::<Task, RecordError>(RecordError::BadRepeat) ==> policy_of(self.repeats@) is None,
            policy_of(self.repeats@) is None ==> r is Err,
    {
        let date = deserialize_dt(self.date.as_str());
        self.into_task_dated(date)
    }
}

impl Task {
    /// Two tasks are the same in every field, the repeat policies by their
    /// value.
    pub open spec fn same_as(self, other: Task) -> bool {
        &&& self.id == other.id
        &&& self.name == other.name
        &&& self.date == other.date
        &&& self.repeats@ == other.repeats@
        &&& self.group == other.group
        &&& self.description == other.description
        &&& self.url == other.url
        &&& self.complete == other.complete
    }

    /// The record that stores the task; `None` where its date names no time.
    pub fn to_record(&self) -> (r: Option<TaskRecord>)
        ensures
            match shown_by(self.date, "%+"@) {
                Some(date) => r is Some && r->Some_0.stores(*self, date),
                None => r is None,
            },
    {
        let date = match serialize_dt(&self.date) {
            Some(date) => date,
            None => {
                return None;
            },
        };
        Some(
            TaskRecord {
                id: self.id,
                name: self.name.clone(),
                date: date,
                repeats: self.repeats.to_string(),
                group: self.group.clone(),
                description: self.description.clone(),
                url: self.url.clone(),
                complete: self.complete,
            },
        )
    }
}

/// A task that is stored and read back is the same task, provided that its
/// date text reads back as its date: every other field is kept, absent
/// fields stay absent, and the repeat code reads back as the policy.
pub proof fn lemma_record_round_trip(t: Task, date: Seq<char>, record: TaskRecord, back: Task)
    requires
        record.stores(t, date),
        record.holds(back, t.date),
    ensures
        back.same_as(t),
        policy_of(record.repeats@) is Some,
{
    lemma_code_round_trip(t.repeats@);
}

} // verus!
