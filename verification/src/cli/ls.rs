//! Listing: which tasks are shown, and in what order.
//!
//! Tasks are listed by their due time, earliest first, and tasks due at the
//! same time by name, in the order of the bytes of their names.

use vstd::prelude::*;
use vstd::string::*;
use vstd::utf8::encode_utf8;
use crate::cli::cli_utils::{render_tasks, rows_of, table, RenderError};
use crate::cli::formats::Format;
use crate::configuration::Settings;
use crate::task::Task;
use crate::utils::{epoch_seconds, instant_of};

verus! {

/// A choice of tasks by when they are due, relative to now.
#[derive(Copy, Clone, PartialEq, Eq, PartialOrd, Ord, Debug)]
pub enum DateFilter {
    All,
    Today,
    Past,
    TodayAndPast,
    Next24,
}

/// What the user asked of a listing.
#[derive(Clone, Debug)]
pub struct Args {
    /// The form to write the tasks in.
    pub format: Option<Format>,
    /// Whether complete tasks are shown too.
    pub show_complete: bool,
    /// Whether descriptions are shown.
    pub show_descriptions: bool,
    /// Whether links are shown.
    pub show_urls: bool,
    /// A choice by relative date.
    pub date_filter: Option<DateFilter>,
    /// A choice by date.
    pub date: Option<String>,
    /// A choice by group.
    pub group: Option<String>,
}

/// Whether one text comes before another, or is the same, in the order of
/// their bytes: at the first place where they differ the smaller byte
/// decides, and a text comes before those that it begins.
pub open spec fn bytes_le(a: Seq<u8>, b: Seq<u8>) -> bool
    decreases a.len(),
{
    if a.len() == 0 {
        true
    } else if b.len() == 0 {
        false
    } else if a[0] != b[0] {
        a[0] < b[0]
    } else {
        bytes_le(a.drop_first(), b.drop_first())
    }
}

/// Whether one point in time is strictly earlier than another; a timestamp
/// that names no point in time counts as earlier than all that name one.
pub open spec fn instant_lt(a: Option<i64>, b: Option<i64>) -> bool {
    match (a, b) {
        (None, Some(_)) => true,
        (Some(x), Some(y)) => x < y,
        _ => false,
    }
}

/// Whether task `a` may stand before task `b` in a listing: it is due
/// earlier, or at the same time and its name does not come later.
pub open spec fn may_precede(a: Task, b: Task) -> bool {
    let x = instant_of(a.date);
    let y = instant_of(b.date);
    instant_lt(x, y) || (x == y && bytes_le(encode_utf8(a.name@), encode_utf8(b.name@)))
}

/// Whether a task is shown: complete tasks only on request.
pub open spec fn is_shown(t: Task, show_complete: bool) -> bool {
    show_complete || !t.complete
}

/// `order` lists the tasks, by their positions in `tasks`: exactly the
/// positions of the tasks that are shown, each once, and sorted by due time
/// and then name.
pub open spec fn is_listing(tasks: Seq<Task>, show_complete: bool, order: Seq<usize>) -> bool {
    &&& forall|k: int| 0 <= k < order.len() ==> (#[trigger] order[k]) < tasks.len() && is_shown(tasks[order[k] as int], show_complete)
    &&& forall|j: int| 0 <= j < tasks.len() && is_shown(#[trigger] tasks[j], show_complete) ==> exists|k: int| 0 <= k < order.len() && order[k] == j
    &&& forall|k: int, l: int| 0 <= k < l < order.len() ==> order[k] != order[l]
    &&& forall|k: int, l: int| 0 <= k < l < order.len() ==> may_precede(tasks[order[k] as int], tasks[order[l] as int])
}

/// Of two texts, one comes before the other or they are the same.
pub proof fn lemma_bytes_le_total(a: Seq<u8>, b: Seq<u8>)
    ensures
        bytes_le(a, b) || bytes_le(b, a),
    decreases a.len(),
{
    if a.len() > 0 && b.len() > 0 && a[0] == b[0] {
        lemma_bytes_le_total(a.drop_first(), b.drop_first());
    }
}

/// The order of texts by bytes is transitive.
pub proof fn lemma_bytes_le_transitive(a: Seq<u8>, b: Seq<u8>, c: Seq<u8>)
    requires
        bytes_le(a, b),
        bytes_le(b, c),
    ensures
        bytes_le(a, c),
    decreases a.len(),
{
    if a.len() > 0 && b.len() > 0 && c.len() > 0 && a[0] == b[0] && b[0] == c[0] {
        lemma_bytes_le_transitive(a.drop_first(), b.drop_first(), c.drop_first());
    }
}

/// Of two tasks, one may stand before the other.
pub proof fn lemma_may_precede_total(a: Task, b: Task)
    ensures
        may_precede(a, b) || may_precede(b, a),
{
    lemma_bytes_le_total(encode_utf8(a.name@), encode_utf8(b.name@));
}

/// The order of a listing is transitive.
pub proof fn lemma_may_precede_transitive(a: Task, b: Task, c: Task)
    requires
        may_precede(a, b),
        may_precede(b, c),
    ensures
        may_precede(a, c),
{
    if instant_of(a.date) == instant_of(b.date) && instant_of(b.date) == instant_of(c.date) {
        lemma_bytes_le_transitive(encode_utf8(a.name@), encode_utf8(b.name@), encode_utf8(c.name@));
    }
}

/// Compares two texts in the order of their bytes.
pub fn bytes_precede(a: &[u8], b: &[u8]) -> (r: bool)
    ensures
        r == bytes_le(a@, b@),
{
    let mut i: usize = 0;
    proof {
        assert(a@.skip(0) =~= a@);
        assert(b@.skip(0) =~= b@);
    }
    loop
        invariant
            i <= a@.len(),
            i <= b@.len(),
            bytes_le(a@, b@) == bytes_le(a@.skip(i as int), b@.skip(i as int)),
        decreases a@.len() - i,
    {
        proof {
            if i < a@.len() && i < b@.len() {
                assert(a@.skip(i as int).drop_first() =~= a@.skip(i + 1));
                assert(b@.skip(i as int).drop_first() =~= b@.skip(i + 1));
                assert(a@.skip(i as int)[0] == a@[i as int]);
                assert(b@.skip(i as int)[0] == b@[i as int]);
            }
        }
        if i >= a.len() {
            return true;
        }
        if i >= b.len() {
            return false;
        }
        if a[i] != b[i] {
            return a[i] < b[i];
        }
        i += 1;
    }
}

/// Whether the first point in time is strictly earlier.
pub fn earlier(a: Option<i64>, b: Option<i64>) -> (r: bool)
    ensures
        r == instant_lt(a, b),
{
    match (a, b) {
        (None, Some(_)) => true,
        (Some(x), Some(y)) => x < y,
        _ => false,
    }
}

/// Whether the first point in time is the same as the second.
pub fn same_instant(a: Option<i64>, b: Option<i64>) -> (r: bool)
    ensures
        r == (a == b),
{
    match (a, b) {
        (None, None) => true,
        (Some(x), Some(y)) => x == y,
        _ => false,
    }
}

/// Whether task `a` may stand before task `b`, given when each is due.
pub fn precedes(a: &Task, due_a: Option<i64>, b: &Task, due_b: Option<i64>) -> (r: bool)
    requires
        due_a == instant_of(a.date),
        due_b == instant_of(b.date),
    ensures
        r == may_precede(*a, *b),
{
    if earlier(due_a, due_b) {
        true
    } else if same_instant(due_a, due_b) {
        bytes_precede(a.name.as_str().as_bytes(), b.name.as_str().as_bytes())
    } else {
        false
    }
}

/// The points in time at which the tasks are due.
pub fn due_instants(tasks: &Vec<Task>) -> (r: Vec<Option<i64>>)
    ensures
        r@.len() == tasks@.len(),
        forall|k: int| 0 <= k < tasks@.len() ==> #[trigger] r@[k] == instant_of(tasks@[k].date),
{
    let mut r: Vec<Option<i64>> = Vec::new();
    let mut i: usize = 0;
    while i < tasks.len()
        invariant
            i <= tasks@.len(),
            r@.len() == i,
            forall|k: int| 0 <= k < i ==> #[trigger] r@[k] == instant_of(tasks@[k].date),
        decreases tasks@.len() - i,
    {
        r.push(epoch_seconds(&tasks[i].date));
        i += 1;
    }
    r
}

/// The positions of the tasks to list, in the order of the listing.
pub fn listed(tasks: &Vec<Task>, show_complete: bool) -> (order: Vec<usize>)
    ensures
        is_listing(tasks@, show_complete, order@),
{
    let due = due_instants(tasks);
    let mut order: Vec<usize> = Vec::new();
    let mut i: usize = 0;
    while i < tasks.len()
        invariant
            i <= tasks@.len(),
            due@.len() == tasks@.len(),
            forall|k: int| 0 <= k < tasks@.len() ==> #[trigger] due@[k] == instant_of(tasks@[k].date),
            is_listing(tasks@.take(i as int), show_complete, order@),
        decreases tasks@.len() - i,
    {
        let ghost before = order@;
        if show_complete || !tasks[i].complete {
            let mut p: usize = 0;
            while p < order.len() && precedes(&tasks[order[p]], due[order[p]], &tasks[i], due[i])
                invariant
                    p <= order@.len(),
                    i < tasks@.len(),
                    order@ == before,
                    due@.len() == tasks@.len(),
                    forall|k: int| 0 <= k < tasks@.len() ==> #[trigger] due@[k] == instant_of(tasks@[k].date),
                    is_listing(tasks@.take(i as int), show_complete, order@),
                    forall|k: int| 0 <= k < p ==> may_precede(tasks@[(#[trigger] order@[k]) as int], tasks@[i as int]),
                decreases order@.len() - p,
            {
                p += 1;
            }
            order.insert(p, i);
            proof {
                let now = order@;
                let t = tasks@[i as int];
                assert forall|k: int| p < k < now.len() implies may_precede(t, tasks@[(#[trigger] now[k]) as int]) by {
                    let first = tasks@[before[p as int] as int];
                    lemma_may_precede_total(first, t);
                    if k - 1 > p {
                        lemma_may_precede_transitive(t, first, tasks@[before[k - 1] as int]);
                    }
                }
                assert forall|k: int, l: int| 0 <= k < l < now.len() implies may_precede(
                    tasks@[now[k] as int],
                    tasks@[now[l] as int],
                ) && now[k] != now[l] by {
                    if k < p && l > p {
                        assert(now[k] == before[k]);
                        assert(now[l] == before[l - 1]);
                    }
                }
                assert forall|j: int| 0 <= j < i + 1 && is_shown(#[trigger] tasks@.take(i + 1)[j], show_complete) implies exists|
                    k: int,
                | 0 <= k < now.len() && now[k] == j by {
                    if j == i {
                        assert(now[p as int] == j);
                    } else {
                        assert(tasks@.take(i as int)[j] == tasks@.take(i + 1)[j]);
                        let k0 = choose|k: int| 0 <= k < before.len() && before[k] == j;
                        if k0 < p {
                            assert(now[k0] == j);
                        } else {
                            assert(now[k0 + 1] == j);
                        }
                    }
                }
                assert(is_listing(tasks@.take(i + 1), show_complete, now));
            }
        } else {
            proof {
                assert forall|j: int| 0 <= j < i + 1 && is_shown(#[trigger] tasks@.take(i + 1)[j], show_complete) implies exists|
                    k: int,
                | 0 <= k < order@.len() && order@[k] == j by {
                    assert(tasks@.take(i as int)[j] == tasks@.take(i + 1)[j]);
                }
                assert(is_listing(tasks@.take(i + 1), show_complete, order@));
            }
        }
        i += 1;
    }
    proof {
        assert(tasks@.take(tasks@.len() as int) =~= tasks@);
    }
    order
}

/// The tasks at the given positions.
pub open spec fn picked(tasks: Seq<Task>, order: Seq<usize>) -> Seq<Task> {
    Seq::new(order.len(), |k: int| tasks[order[k] as int])
}

/// The tasks to list, in the order of the listing.
pub fn pick<'a>(tasks: &'a Vec<Task>, order: &Vec<usize>) -> (r: Vec<&'a Task>)
    requires
        forall|k: int| 0 <= k < order@.len() ==> (#[trigger] order@[k]) < tasks@.len(),
    ensures
        r@.len() == order@.len(),
        forall|k: int| 0 <= k < order@.len() ==> *(#[trigger] r@[k]) == tasks@[order@[k] as int],
{
    let mut r: Vec<&'a Task> = Vec::new();
    let mut k: usize = 0;
    while k < order.len()
        invariant
            k <= order@.len(),
            r@.len() == k,
            forall|j: int| 0 <= j < order@.len() ==> (#[trigger] order@[j]) < tasks@.len(),
            forall|j: int| 0 <= j < k ==> *(#[trigger] r@[j]) == tasks@[order@[j] as int],
        decreases order@.len() - k,
    {
        r.push(&tasks[order[k]]);
        k += 1;
    }
    r
}

/// `shown` are the tasks of a listing of `tasks`, in its order.
pub open spec fn is_listing_of(tasks: Seq<Task>, show_complete: bool, shown: Seq<&Task>) -> bool {
    exists|order: Seq<usize>|
        {
            &&& is_listing(tasks, show_complete, order)
            &&& shown.len() == order.len()
            &&& forall|k: int| 0 <= k < order.len() ==> *(#[trigger] shown[k]) == tasks[order[k] as int]
        }
}

/// Lists the tasks as a table: those that are shown, by due time and then
/// name, with descriptions and links where they are asked for.
pub fn run(tasks: &Vec<Task>, args: &Args, settings: &Settings) -> (r: Result<String, RenderError>)
    ensures
        exists|shown: Seq<&Task>|
            {
                &&& is_listing_of(tasks@, args.show_complete, shown)
                &&& match rows_of(shown, *settings, shown.len()) {
                    Ok(rows) => r is Ok && r->Ok_0@ == table(rows, args.show_descriptions, args.show_urls),
                    Err(e) => r == Err::<String, RenderError>(e),
                }
            },
{
    let order = listed(tasks, args.show_complete);
    let shown = pick(tasks, &order);
    proof {
        assert(is_listing_of(tasks@, args.show_complete, shown@));
    }
    render_tasks(shown, args.show_descriptions, args.show_urls, settings)
}

} // verus!
