//! Adding a task from the command line.

use vstd::prelude::*;
use vstd::string::*;
use crate::app::{App, Id};
use crate::cli::formats::Format;
use crate::task_form::{SubmitError, TaskForm};

verus! {

/// What the user gave for a new task.
#[derive(Clone, Debug)]
pub struct Args {
    /// The name of the new task.
    pub name: String,
    /// The date the task is due.
    pub date: Option<String>,
    /// How often the task repeats.
    pub repeats: Option<String>,
    /// The group the task belongs to.
    pub group: Option<String>,
    /// A description of the task.
    pub description: Option<String>,
    /// A link for the task.
    pub url: Option<String>,
    /// The form to show the new task in.
    pub format: Option<Format>,
}

/// The text of an argument, empty where it was not given.
pub open spec fn given(arg: Option<String>) -> Seq<char> {
    match arg {
        Some(text) => text@,
        None => Seq::empty(),
    }
}

/// An optional field of a task holds what an argument gave: the same text,
/// and nothing where the argument was not given or was empty.
pub open spec fn holds_arg(field: Option<String>, arg: Option<String>) -> bool {
    given(field) =~= given(arg) && (field is Some <==> given(arg).len() > 0)
}

/// The text of an argument.
pub fn text_of_arg(arg: Option<String>) -> (r: String)
    ensures
        r@ == given(arg),
{
    match arg {
        Some(text) => text,
        None => String::new(),
    }
}

/// The form that the arguments fill in: a new task, so without a number, and
/// with each argument that was not given left empty.
pub fn form_of(args: Args) -> (form: TaskForm)
    ensures
        form.id is None,
        form.name == args.name,
        form.date@ == given(args.date),
        form.repeats@ == given(args.repeats),
        form.group@ == given(args.group),
        form.description@ == given(args.description),
        form.url@ == given(args.url),
{
    TaskForm {
        id: None,
        name: args.name,
        date: text_of_arg(args.date),
        repeats: text_of_arg(args.repeats),
        group: text_of_arg(args.group),
        description: text_of_arg(args.description),
        url: text_of_arg(args.url),
    }
}

/// Adds the task that the arguments describe and returns its number, which
/// is the one after the store's watermark. Where the arguments are refused,
/// the store stays as it was.
pub fn run(app: &mut App, args: Args) -> (r: Result<Id, SubmitError>)
    requires
        old(app).current_id < usize::MAX,
    ensures
        final(app).settings == old(app).settings,
        args.name@.len() == 0 ==> r == Err::<Id, SubmitError>(SubmitError::EmptyName),
        args.name@.len() > 0 && crate::repeat::policy_of(given(args.repeats)) is None ==> r == Err::<
            Id,
            SubmitError,
        >(SubmitError::InvalidRepeat),
        r is Err ==> final(app)@ == old(app)@,
        r matches Ok(id) ==> {
            &&& id == old(app).current_id + 1
            &&& final(app).current_id == id
            &&& final(app)@.tasks.dom() == old(app)@.tasks.dom().insert(id)
            &&& forall|other: Id| other != id && old(app)@.tasks.contains_key(other) ==> final(app)@.tasks[other]
                == old(app)@.tasks[other]
            &&& final(app)@.tasks[id].id == Some(id)
            &&& final(app)@.tasks[id].name == args.name
            &&& !final(app)@.tasks[id].complete
            &&& final(app)@.tasks[id].date.is_valid()
            &&& given(args.date).len() == 0 ==> final(app)@.tasks[id].date.is_end_of_day()
            &&& holds_arg(final(app)@.tasks[id].group, args.group)
            &&& holds_arg(final(app)@.tasks[id].description, args.description)
            &&& holds_arg(final(app)@.tasks[id].url, args.url)
            &&& crate::repeat::policy_of(given(args.repeats)) == Some(final(app)@.tasks[id].repeats@)
        },
        args.name@.len() > 0 && crate::repeat::policy_of(given(args.repeats)) is Some ==> r is Ok || r == Err::<
            Id,
            SubmitError,
        >(SubmitError::NoLocalTime),
{
    let mut form = form_of(args);
    let settings = &app.settings;
    match form.submit(settings) {
        Ok(task) => {
            let id = app.add_task(task);
            Ok(id)
        },
        Err(e) => Err(e),
    }
}

} // verus!
