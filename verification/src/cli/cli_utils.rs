//! The layout of tasks in columns of fixed width.
//!
//! Each column is as wide as its longest value, measured in bytes; a value
//! is filled up with spaces to that width, counted in characters, and never
//! cut. The first column holds the completion icon, the name and the number
//! of the task, and is ten wider than the longest name.

use vstd::prelude::*;
use vstd::string::*;
use vstd::utf8::encode_utf8;
use crate::configuration::Settings;
use crate::repeat::code_of;
use crate::task::Task;
use crate::utils::{date_to_display_str, display_pattern, shown_by};

verus! {

/// Why a list of tasks could not be laid out.
#[derive(Clone, Copy, Debug, PartialEq, Eq, Structural)]
pub enum RenderError {
    /// A task has no number yet.
    MissingId,
    /// A task's date cannot be written by the configured display pattern.
    BadDate,
}

impl RenderError {
    /// The message shown to the user.
    pub fn message(&self) -> (s: String)
        ensures
            s@ == match *self {
                RenderError::MissingId => "Task has no id"@,
                RenderError::BadDate => "Unable to format date"@,
            },
    {
        match self {
            RenderError::MissingId => String::from_str("Task has no id"),
            RenderError::BadDate => String::from_str("Unable to format date"),
        }
    }
}

/// The texts of one task, one for each column, and its bare name.
pub struct Row {
    pub name: String,
    pub label: String,
    pub date: String,
    pub repeats: String,
    pub group: String,
    pub description: String,
    pub url: String,
}

/// The mathematical value of a `Row`.
pub struct Cells {
    pub name: Seq<char>,
    pub label: Seq<char>,
    pub date: Seq<char>,
    pub repeats: Seq<char>,
    pub group: Seq<char>,
    pub description: Seq<char>,
    pub url: Seq<char>,
}

impl View for Row {
    type V = Cells;

    open spec fn view(&self) -> Cells {
        Cells {
            name: self.name@,
            label: self.label@,
            date: self.date@,
            repeats: self.repeats@,
            group: self.group@,
            description: self.description@,
            url: self.url@,
        }
    }
}

/// A column whose width follows its values.
#[derive(Clone, Copy, Debug, PartialEq, Eq, Structural)]
pub enum Column {
    Name,
    Date,
    Repeats,
    Group,
}

impl Cells {
    /// The text by which a row counts towards the width of a column.
    pub open spec fn cell(self, column: Column) -> Seq<char> {
        match column {
            Column::Name => self.name,
            Column::Date => self.date,
            Column::Repeats => self.repeats,
            Column::Group => self.group,
        }
    }
}

/// The digit for a number below ten.
pub open spec fn digit_char(d: nat) -> char {
    if d == 0 {
        '0'
    } else if d == 1 {
        '1'
    } else if d == 2 {
        '2'
    } else if d == 3 {
        '3'
    } else if d == 4 {
        '4'
    } else if d == 5 {
        '5'
    } else if d == 6 {
        '6'
    } else if d == 7 {
        '7'
    } else if d == 8 {
        '8'
    } else {
        '9'
    }
}

/// A number in decimal, without leading zeros.
pub open spec fn decimal_of(n: nat) -> Seq<char>
    decreases n,
{
    if n < 10 {
        seq![digit_char(n)]
    } else {
        decimal_of(n / 10).push(digit_char(n % 10))
    }
}

/// The digit for a number below ten, as a text.
pub fn digit_str(d: usize) -> (r: &'static str)
    requires
        d < 10,
    ensures
        r@ == seq![digit_char(d as nat)],
{
    proof {
        reveal_strlit("0");
        reveal_strlit("1");
        reveal_strlit("2");
        reveal_strlit("3");
        reveal_strlit("4");
        reveal_strlit("5");
        reveal_strlit("6");
        reveal_strlit("7");
        reveal_strlit("8");
        reveal_strlit("9");
    }
    let r = if d == 0 {
        "0"
    } else if d == 1 {
        "1"
    } else if d == 2 {
        "2"
    } else if d == 3 {
        "3"
    } else if d == 4 {
        "4"
    } else if d == 5 {
        "5"
    } else if d == 6 {
        "6"
    } else if d == 7 {
        "7"
    } else if d == 8 {
        "8"
    } else {
        "9"
    };
    assert(r@ =~= seq![digit_char(d as nat)]);
    r
}

/// Writes a number in decimal.
pub fn decimal_string(n: usize) -> (r: String)
    ensures
        r@ == decimal_of(n as nat),
    decreases n,
{
    if n < 10 {
        String::from_str(digit_str(n))
    } else {
        let mut r = decimal_string(n / 10);
        r.append(digit_str(n % 10));
        assert(r@ =~= decimal_of(n as nat));
        r
    }
}

/// The text of an optional field: nothing where it is unset.
pub open spec fn text_or_empty(s: Option<String>) -> Seq<char> {
    match s {
        Some(t) => t@,
        None => Seq::empty(),
    }
}

/// The text of an optional field.
pub fn owned_or_empty(s: &Option<String>) -> (r: String)
    ensures
        r@ == text_or_empty(*s),
{
    match s {
        Some(t) => t.clone(),
        None => String::new(),
    }
}

/// The first column of a task: icon, name, and the number in brackets.
pub open spec fn label_of(icon: Seq<char>, name: Seq<char>, id: nat) -> Seq<char> {
    " "@ + icon + " "@ + name + " ("@ + decimal_of(id) + ")"@
}

/// The icon that marks a task as complete or not.
pub open spec fn icon_of(t: Task, settings: Settings) -> Seq<char> {
    if t.complete {
        settings.icons.complete@
    } else {
        settings.icons.incomplete@
    }
}

/// The texts that a task is shown as. A task without a number has none, nor
/// one whose date the display pattern cannot write.
pub open spec fn cells_of(t: Task, settings: Settings) -> Result<Cells, RenderError> {
    if t.id is None {
        Err(RenderError::MissingId)
    } else {
        match shown_by(t.date, display_pattern(t.date, settings)) {
            None => Err(RenderError::BadDate),
            Some(date) => Ok(
                Cells {
                    name: t.name@,
                    label: label_of(icon_of(t, settings), t.name@, t.id->Some_0 as nat),
                    date: date,
                    repeats: code_of(t.repeats@),
                    group: text_or_empty(t.group),
                    description: text_or_empty(t.description),
                    url: text_or_empty(t.url),
                },
            ),
        }
    }
}

/// The texts of the first `n` tasks; the first task that has none decides
/// the error.
pub open spec fn rows_of(tasks: Seq<&Task>, settings: Settings, n: nat) -> Result<Seq<Cells>, RenderError>
    decreases n,
{
    if n == 0 {
        Ok(Seq::empty())
    } else {
        match rows_of(tasks, settings, (n - 1) as nat) {
            Err(e) => Err(e),
            Ok(rows) => match cells_of(*tasks[n - 1], settings) {
                Err(e) => Err(e),
                Ok(cells) => Ok(rows.push(cells)),
            },
        }
    }
}

/// The length of a text in bytes of UTF-8.
pub open spec fn byte_len(s: Seq<char>) -> usize {
    encode_utf8(s).len() as usize
}

/// The greatest byte length of a column's texts among the first `n` rows, 0
/// where there is none.
pub open spec fn widest(rows: Seq<Cells>, column: Column, n: nat) -> usize
    decreases n,
{
    if n == 0 {
        0
    } else {
        let before = widest(rows, column, (n - 1) as nat);
        let here = byte_len(rows[n - 1].cell(column));
        if here > before {
            here
        } else {
            before
        }
    }
}

/// So many spaces.
pub open spec fn spaces(n: nat) -> Seq<char> {
    Seq::new(n, |i: int| ' ')
}

/// A text filled up with spaces to a width in characters; a longer text is
/// left as it is.
pub open spec fn padded(s: Seq<char>, width: nat) -> Seq<char> {
    if s.len() >= width {
        s
    } else {
        s + spaces((width - s.len()) as nat)
    }
}

/// The width of the first column: ten more than the longest name.
pub open spec fn label_width(rows: Seq<Cells>) -> nat {
    let longest = widest(rows, Column::Name, rows.len());
    if longest > usize::MAX - 10 {
        usize::MAX as nat
    } else {
        (longest + 10) as nat
    }
}

/// The headings of the optional columns that are shown.
pub open spec fn optional_headings(show_descriptions: bool, show_urls: bool) -> Seq<char> {
    (if show_descriptions { "Description  "@ } else { Seq::empty() }) + (if show_urls { "Url  "@ } else { Seq::empty() })
}

/// One line of the table: four texts, each filled up to the width of its
/// column, then what the optional columns hold.
pub open spec fn line(
    rows: Seq<Cells>,
    first: Seq<char>,
    date: Seq<char>,
    repeats: Seq<char>,
    group: Seq<char>,
    rest: Seq<char>,
) -> Seq<char> {
    padded(first, label_width(rows)) + "  "@ + padded(date, widest(rows, Column::Date, rows.len()) as nat) + "  "@
        + padded(repeats, widest(rows, Column::Repeats, rows.len()) as nat) + "\t"@ + padded(
        group,
        widest(rows, Column::Group, rows.len()) as nat,
    ) + "\t"@ + rest + "\n"@
}

/// The line of headings.
pub open spec fn header_line(rows: Seq<Cells>, show_descriptions: bool, show_urls: bool) -> Seq<char> {
    line(rows, "Name"@, "Date"@, "Repeats"@, "Group"@, optional_headings(show_descriptions, show_urls))
}

/// The optional columns of a row that are shown.
pub open spec fn optional_cells(c: Cells, show_descriptions: bool, show_urls: bool) -> Seq<char> {
    (if show_descriptions { c.description + "  "@ } else { Seq::empty() }) + (if show_urls { c.url + "  "@ } else { Seq::empty() })
}

/// The line of one task, in the widths that all the rows ask for.
pub open spec fn row_line(rows: Seq<Cells>, c: Cells, show_descriptions: bool, show_urls: bool) -> Seq<char> {
    line(rows, c.label, c.date, c.repeats, c.group, optional_cells(c, show_descriptions, show_urls))
}

/// The lines of the first `n` rows, one after the other.
pub open spec fn row_lines(rows: Seq<Cells>, show_descriptions: bool, show_urls: bool, n: nat) -> Seq<char>
    decreases n,
{
    if n == 0 {
        Seq::empty()
    } else {
        row_lines(rows, show_descriptions, show_urls, (n - 1) as nat) + row_line(
            rows,
            rows[n - 1],
            show_descriptions,
            show_urls,
        )
    }
}

/// The whole table: the headings, then one line for each row.
pub open spec fn table(rows: Seq<Cells>, show_descriptions: bool, show_urls: bool) -> Seq<char> {
    header_line(rows, show_descriptions, show_urls) + row_lines(rows, show_descriptions, show_urls, rows.len())
}

/// The views of the rows.
pub open spec fn cells_seq(rows: Seq<Row>) -> Seq<Cells> {
    Seq::new(rows.len(), |i: int| rows[i]@)
}

impl Row {
    /// The text by which the row counts towards the width of a column.
    pub fn cell(&self, column: Column) -> (r: &String)
        ensures
            r@ == self@.cell(column),
    {
        match column {
            Column::Name => &self.name,
            Column::Date => &self.date,
            Column::Repeats => &self.repeats,
            Column::Group => &self.group,
        }
    }
}

/// Works out the texts that a task is shown as.
pub fn row_of(task: &Task, settings: &Settings) -> (r: Result<Row, RenderError>)
    ensures
        match cells_of(*task, *settings) {
            Ok(cells) => r is Ok && r->Ok_0@ == cells,
            Err(e) => r == Err::<Row, RenderError>(e),
        },
{
    let id = match task.id {
        Some(id) => id,
        None => {
            return Err(RenderError::MissingId);
        },
    };
    let date = match date_to_display_str(&task.date, settings) {
        Some(date) => date,
        None => {
            return Err(RenderError::BadDate);
        },
    };
    let mut label = settings.icons.get_complete_icon(task.complete);
    label.append(" ");
    label.append(task.name.as_str());
    label.append(" (");
    label.append(decimal_string(id).as_str());
    label.append(")");
    Ok(
        Row {
            name: task.name.clone(),
            label: label,
            date: date,
            repeats: task.repeats.to_string(),
            group: owned_or_empty(&task.group),
            description: owned_or_empty(&task.description),
            url: owned_or_empty(&task.url),
        },
    )
}

/// The greatest byte length of a column's texts.
pub fn widest_in(rows: &Vec<Row>, column: Column) -> (w: usize)
    ensures
        w == widest(cells_seq(rows@), column, rows@.len()),
{
    let mut w: usize = 0;
    let mut i: usize = 0;
    while i < rows.len()
        invariant
            i <= rows@.len(),
            w == widest(cells_seq(rows@), column, i as nat),
        decreases rows@.len() - i,
    {
        let here: usize = rows[i].cell(column).as_str().len();
        if here > w {
            w = here;
        }
        i += 1;
    }
    w
}

/// Appends a text, filled up with spaces to a width.
pub fn push_padded(out: &mut String, s: &str, width: usize)
    ensures
        final(out)@ == old(out)@ + padded(s@, width as nat),
{
    let len: usize = s.unicode_len();
    out.append(s);
    let mut n: usize = len;
    proof {
        reveal_strlit(" ");
        assert(spaces(0) =~= Seq::empty());
        assert(old(out)@ + s@ =~= old(out)@ + s@ + spaces(0));
    }
    while n < width
        invariant
            len == s@.len(),
            len <= n,
            n <= width || n == len,
            out@ == old(out)@ + s@ + spaces((n - len) as nat),
        decreases width - n,
    {
        out.append(" ");
        proof {
            reveal_strlit(" ");
            assert(spaces((n - len) as nat) + " "@ =~= spaces((n + 1 - len) as nat));
            assert(old(out)@ + s@ + spaces((n - len) as nat) + " "@ =~= old(out)@ + s@ + (spaces((n - len) as nat)
                + " "@));
        }
        n += 1;
    }
    proof {
        if len >= width {
            assert(old(out)@ + s@ + spaces(0) =~= old(out)@ + padded(s@, width as nat));
        } else {
            assert(old(out)@ + s@ + spaces((n - len) as nat) =~= old(out)@ + padded(s@, width as nat));
        }
    }
}

/// The widths of the four columns that follow their values.
#[derive(Clone, Copy, Debug, PartialEq, Eq, Structural)]
pub struct Widths {
    pub label: usize,
    pub date: usize,
    pub repeats: usize,
    pub group: usize,
}

impl Widths {
    /// These are the widths that the rows ask for.
    pub open spec fn fits(self, rows: Seq<Cells>) -> bool {
        &&& self.label == label_width(rows)
        &&& self.date == widest(rows, Column::Date, rows.len())
        &&& self.repeats == widest(rows, Column::Repeats, rows.len())
        &&& self.group == widest(rows, Column::Group, rows.len())
    }
}

/// Measures the columns.
pub fn widths_of(rows: &Vec<Row>) -> (w: Widths)
    ensures
        w.fits(cells_seq(rows@)),
{
    let longest_name: usize = widest_in(rows, Column::Name);
    Widths {
        label: longest_name.saturating_add(10),
        date: widest_in(rows, Column::Date),
        repeats: widest_in(rows, Column::Repeats),
        group: widest_in(rows, Column::Group),
    }
}

/// Appends one line of the table.
fn push_line(
    out: &mut String,
    widths: Widths,
    first: &str,
    date: &str,
    repeats: &str,
    group: &str,
    rest: &str,
    Ghost(rows): Ghost<Seq<Cells>>,
)
    requires
        widths.fits(rows),
    ensures
        final(out)@ == old(out)@ + line(rows, first@, date@, repeats@, group@, rest@),
{
    push_padded(out, first, widths.label);
    out.append("  ");
    push_padded(out, date, widths.date);
    out.append("  ");
    push_padded(out, repeats, widths.repeats);
    out.append("\t");
    push_padded(out, group, widths.group);
    out.append("\t");
    out.append(rest);
    out.append("\n");
    assert(out@ =~= old(out)@ + line(rows, first@, date@, repeats@, group@, rest@));
}

/// The headings of the optional columns that are shown.
pub fn headings_text(show_descriptions: bool, show_urls: bool) -> (r: String)
    ensures
        r@ == optional_headings(show_descriptions, show_urls),
{
    let mut r = String::new();
    if show_descriptions {
        r.append("Description  ");
    }
    if show_urls {
        r.append("Url  ");
    }
    assert(r@ =~= optional_headings(show_descriptions, show_urls));
    r
}

/// The optional columns of a row that are shown.
pub fn optional_text_of(row: &Row, show_descriptions: bool, show_urls: bool) -> (r: String)
    ensures
        r@ == optional_cells(row@, show_descriptions, show_urls),
{
    let mut r = String::new();
    if show_descriptions {
        r.append(row.description.as_str());
        r.append("  ");
    }
    if show_urls {
        r.append(row.url.as_str());
        r.append("  ");
    }
    assert(r@ =~= optional_cells(row@, show_descriptions, show_urls));
    r
}

/// Once a task has no texts, no longer list has any, and the error stays.
pub proof fn lemma_first_error_stays(tasks: Seq<&Task>, settings: Settings, n: nat, m: nat)
    requires
        n <= m,
        rows_of(tasks, settings, n) is Err,
    ensures
        rows_of(tasks, settings, m) == rows_of(tasks, settings, n),
    decreases m,
{
    if n < m {
        lemma_first_error_stays(tasks, settings, n, (m - 1) as nat);
    }
}

/// Lays the tasks out as a table: a line of headings, then one line for
/// each task in the order given. Descriptions and links are shown on
/// request. Fails on the first task that has no number or whose date cannot
/// be written.
pub fn render_tasks(tasks: Vec<&Task>, show_descriptions: bool, show_urls: bool, settings: &Settings) -> (r:
    Result<String, RenderError>)
    ensures
        match rows_of(tasks@, *settings, tasks@.len()) {
            Ok(rows) => r is Ok && r->Ok_0@ == table(rows, show_descriptions, show_urls),
            Err(e) => r == Err::<String, RenderError>(e),
        },
{
    let mut rows: Vec<Row> = Vec::new();
    let mut i: usize = 0;
    proof {
        assert(cells_seq(rows@) =~= Seq::empty());
    }
    while i < tasks.len()
        invariant
            i <= tasks@.len(),
            rows@.len() == i,
            rows_of(tasks@, *settings, i as nat) == Ok::<Seq<Cells>, RenderError>(cells_seq(rows@)),
        decreases tasks@.len() - i,
    {
        match row_of(tasks[i], settings) {
            Ok(row) => {
                proof {
                    assert(cells_seq(rows@.push(row)) =~= cells_seq(rows@).push(row@));
                }
                rows.push(row);
            },
            Err(e) => {
                proof {
                    lemma_first_error_stays(tasks@, *settings, (i + 1) as nat, tasks@.len());
                }
                return Err(e);
            },
        }
        i += 1;
    }
    let ghost cells = cells_seq(rows@);
    let widths = widths_of(&rows);
    let mut out = String::new();
    let headings = headings_text(show_descriptions, show_urls);
    push_line(&mut out, widths, "Name", "Date", "Repeats", "Group", headings.as_str(), Ghost(cells));
    let mut k: usize = 0;
    while k < rows.len()
        invariant
            k <= rows@.len(),
            cells == cells_seq(rows@),
            widths.fits(cells),
            out@ == header_line(cells, show_descriptions, show_urls) + row_lines(
                cells,
                show_descriptions,
                show_urls,
                k as nat,
            ),
        decreases rows@.len() - k,
    {
        let row = &rows[k];
        let rest = optional_text_of(row, show_descriptions, show_urls);
        push_line(
            &mut out,
            widths,
            row.label.as_str(),
            row.date.as_str(),
            row.repeats.as_str(),
            row.group.as_str(),
            rest.as_str(),
            Ghost(cells),
        );
        proof {
            assert(cells[k as int] == rows@[k as int]@);
            assert(out@ =~= header_line(cells, show_descriptions, show_urls) + row_lines(
                cells,
                show_descriptions,
                show_urls,
                (k + 1) as nat,
            ));
        }
        k += 1;
    }
    Ok(out)
}

/// Lays out one task, with its description and link.
pub fn render_task(task: &Task, settings: &Settings) -> (r: Result<String, RenderError>)
    ensures
        match cells_of(*task, *settings) {
            Ok(cells) => r is Ok && r->Ok_0@ == table(seq![cells], true, true),
            Err(e) => r == Err::<String, RenderError>(e),
        },
{
    let mut tasks: Vec<&Task> = Vec::new();
    tasks.push(task);
    proof {
        assert(rows_of(tasks@, *settings, 0) == Ok::<Seq<Cells>, RenderError>(Seq::empty()));
        assert(Seq::<Cells>::empty().push(cells_of(*task, *settings)->Ok_0) =~= seq![cells_of(*task, *settings)->Ok_0]);
    }
    render_tasks(tasks, true, true, settings)
}

} // verus!
