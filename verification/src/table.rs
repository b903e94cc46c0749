//! The table in which a category of a response is shown.

use vstd::prelude::*;
use vstd::string::*;

use crate::calendar::{header_date_text, MonthDay};
use crate::history::{
    events_of, holidays_of, texts_of, Category, Event, EventView, Holiday, OnThisDayResponse,
    ResponseView,
};
use crate::text::{push_signed_decimal, signed_decimal};

verus! {

/// The narrowest terminal that the layout reckons with: a narrower one is
/// treated as this wide.
pub const MIN_TERMINAL_WIDTH: usize = 50;

/// The width to which the text cells of a category are wrapped on a
/// terminal of `terminal_width` columns.
pub open spec fn content_width_of(terminal_width: int, category: Category) -> int {
    if terminal_width < MIN_TERMINAL_WIDTH {
        MIN_TERMINAL_WIDTH - category.margin()
    } else {
        terminal_width - category.margin()
    }
}

/// The width to which the text cells of a category are wrapped: the width
/// of the terminal, at least `MIN_TERMINAL_WIDTH`, less the margin of the
/// category.
pub fn content_width(terminal_width: usize, category: Category) -> (r: usize)
    ensures
        r == content_width_of(terminal_width as int, category),
        r >= 35,
{
    let width = if terminal_width < MIN_TERMINAL_WIDTH {
        MIN_TERMINAL_WIDTH
    } else {
        terminal_width
    };
    match category {
        Category::Holidays => width - 5,
        _ => width - 15,
    }
}

/// The text that `textwrap::fill` makes of `text` for lines of `width`
/// columns.
pub uninterp spec fn filled_text(text: Seq<char>, width: int) -> Seq<char>;

/// `textwrap::fill` with a plain width, which wraps `text` with the default
/// options. What it returns depends on the text and the width alone and is
/// not stated further.
#[verifier::external_body]
fn fill_text(text: &str, width: usize) -> (r: String)
    ensures
        r@ == filled_text(text@, width as int),
{
    textwrap::fill(text, width)
}

/// `events` with each text wrapped to `width` columns.
pub open spec fn wrapped_events(events: Seq<EventView>, width: int) -> Seq<EventView> {
    Seq::new(
        events.len(),
        |i: int| EventView { year: events[i].year, text: filled_text(events[i].text, width) },
    )
}

/// `holidays` with each text wrapped to `width` columns.
pub open spec fn wrapped_holidays(holidays: Seq<Seq<char>>, width: int) -> Seq<Seq<char>> {
    Seq::new(holidays.len(), |i: int| filled_text(holidays[i], width))
}

/// The events of a list with their texts wrapped to `width` columns, in the
/// order of the list.
pub fn wrap_events(events: &Vec<Event>, width: usize) -> (r: Vec<Event>)
    ensures
        events_of(r@) == wrapped_events(events_of(events@), width as int),
{
    let mut r: Vec<Event> = Vec::new();
    let mut i: usize = 0;
    while i < events.len()
        invariant
            i <= events.len(),
            r.len() == i,
            forall|j: int|
                0 <= j < i ==> (#[trigger] r[j])@ == (EventView {
                    year: events[j].year as int,
                    text: filled_text(events[j].text@, width as int),
                }),
        decreases events.len() - i,
    {
        let wrapped = Event {
            year: events[i].year,
            text: fill_text(events[i].text.as_str(), width),
        };
        r.push(wrapped);
        i += 1;
    }
    assert(events_of(r@) =~= wrapped_events(events_of(events@), width as int));
    r
}

/// The holidays of a list with their texts wrapped to `width` columns, in
/// the order of the list.
pub fn wrap_holidays(holidays: &Vec<Holiday>, width: usize) -> (r: Vec<Holiday>)
    ensures
        holidays_of(r@) == wrapped_holidays(holidays_of(holidays@), width as int),
{
    let mut r: Vec<Holiday> = Vec::new();
    let mut i: usize = 0;
    while i < holidays.len()
        invariant
            i <= holidays.len(),
            r.len() == i,
            forall|j: int|
                0 <= j < i ==> (#[trigger] r[j])@ == filled_text(holidays[j]@, width as int),
        decreases holidays.len() - i,
    {
        let wrapped = Holiday { text: fill_text(holidays[i].text.as_str(), width) };
        r.push(wrapped);
        i += 1;
    }
    assert(holidays_of(r@) =~= wrapped_holidays(holidays_of(holidays@), width as int));
    r
}

/// A table as it is handed to the terminal: the headings and the rows, each
/// row with one cell under each heading.
#[derive(Clone, Debug, PartialEq, Eq)]
pub struct Table {
    pub header: Vec<String>,
    pub rows: Vec<Vec<String>>,
    /// Whether the list was empty, so that the one row only says so and
    /// shows no entry.
    pub placeholder: bool,
}

/// A `Table` as sequences of texts.
pub struct TableView {
    pub header: Seq<Seq<char>>,
    pub rows: Seq<Seq<Seq<char>>>,
    pub placeholder: bool,
}

/// The rows that a sequence of rows of strings holds.
pub open spec fn rows_of(rows: Seq<Vec<String>>) -> Seq<Seq<Seq<char>>> {
    Seq::new(rows.len(), |i: int| texts_of(rows[i]@))
}

impl View for Table {
    type V = TableView;

    open spec fn view(&self) -> TableView {
        TableView {
            header: texts_of(self.header@),
            rows: rows_of(self.rows@),
            placeholder: self.placeholder,
        }
    }
}

/// The row of one event: its year as a numeral, and its text.
pub open spec fn event_row(event: EventView) -> Seq<Seq<char>> {
    seq![signed_decimal(event.year), event.text]
}

/// The rows of a list of events: the events in the reverse of the order of
/// the list, so that the latest year comes first where the list ascends.
/// An empty list gives the one row that says so.
pub open spec fn event_rows(events: Seq<EventView>) -> Seq<Seq<Seq<char>>> {
    if events.len() == 0 {
        seq![seq!["N/A"@, "No entries of this type found for this day."@]]
    } else {
        Seq::new(events.len(), |i: int| event_row(events[events.len() - 1 - i]))
    }
}

/// The rows of a list of holidays: one cell each, in the order of the list.
/// An empty list gives the one row that says so.
pub open spec fn holiday_rows(holidays: Seq<Seq<char>>) -> Seq<Seq<Seq<char>>> {
    if holidays.len() == 0 {
        seq![seq!["No holidays found for this day."@]]
    } else {
        Seq::new(holidays.len(), |i: int| seq![holidays[i]])
    }
}

/// The list of a response that a category of events names.
pub open spec fn events_in(response: ResponseView, category: Category) -> Seq<EventView> {
    match category {
        Category::Events => response.events,
        Category::Births => response.births,
        Category::Deaths => response.deaths,
        Category::Holidays => Seq::empty(),
    }
}

/// Whether the list of a response that a category names is empty.
pub open spec fn is_empty_in(response: ResponseView, category: Category) -> bool {
    match category {
        Category::Holidays => response.holidays.len() == 0,
        _ => events_in(response, category).len() == 0,
    }
}

/// The table of a category of a response whose texts are laid out as they
/// stand.
pub open spec fn layout_of(response: ResponseView, category: Category) -> TableView {
    TableView {
        header: category.header_texts(),
        rows: match category {
            Category::Holidays => holiday_rows(response.holidays),
            _ => event_rows(events_in(response, category)),
        },
        placeholder: is_empty_in(response, category),
    }
}

/// The table of a category of a response on a terminal of `terminal_width`
/// columns: the texts are wrapped to the content width, then laid out.
pub open spec fn table_of(response: ResponseView, category: Category, terminal_width: int)
    -> TableView {
    let width = content_width_of(terminal_width, category);
    TableView {
        header: category.header_texts(),
        rows: match category {
            Category::Holidays => holiday_rows(wrapped_holidays(response.holidays, width)),
            _ => event_rows(wrapped_events(events_in(response, category), width)),
        },
        placeholder: is_empty_in(response, category),
    }
}

fn is_empty_list(response: &OnThisDayResponse, category: Category) -> (r: bool)
    ensures
        r == is_empty_in(response@, category),
{
    match category {
        Category::Events => response.events.len() == 0,
        Category::Births => response.births.len() == 0,
        Category::Deaths => response.deaths.len() == 0,
        Category::Holidays => response.holidays.len() == 0,
    }
}

fn make_event_row(event: &Event) -> (r: Vec<String>)
    ensures
        texts_of(r@) == event_row(event@),
{
    let mut year = String::new();
    push_signed_decimal(&mut year, event.year as i64);
    assert(year@ =~= signed_decimal(event.year as int));
    let mut r: Vec<String> = Vec::new();
    r.push(year);
    r.push(event.text.clone());
    assert(texts_of(r@) =~= event_row(event@));
    r
}

/// The rows of a list of events, latest entry of the list first.
pub fn layout_events(events: &Vec<Event>) -> (r: Vec<Vec<String>>)
    ensures
        rows_of(r@) == event_rows(events_of(events@)),
{
    let mut r: Vec<Vec<String>> = Vec::new();
    let n = events.len();
    if n == 0 {
        let mut row: Vec<String> = Vec::new();
        row.push(String::from_str("N/A"));
        row.push(String::from_str("No entries of this type found for this day."));
        r.push(row);
        assert(rows_of(r@) =~= event_rows(events_of(events@))) by {
            assert(texts_of(r[0]@) =~= seq![
                "N/A"@,
                "No entries of this type found for this day."@,
            ]);
        }
        return r;
    }
    let mut i: usize = 0;
    while i < n
        invariant
            n == events.len(),
            i <= n,
            r.len() == i,
            forall|j: int|
                0 <= j < i ==> texts_of((#[trigger] r[j])@) == event_row(events[n - 1 - j]@),
        decreases n - i,
    {
        r.push(make_event_row(&events[n - 1 - i]));
        i += 1;
    }
    assert(rows_of(r@) =~= event_rows(events_of(events@)));
    r
}

/// The rows of a list of holidays, in the order of the list.
pub fn layout_holidays(holidays: &Vec<Holiday>) -> (r: Vec<Vec<String>>)
    ensures
        rows_of(r@) == holiday_rows(holidays_of(holidays@)),
{
    let mut r: Vec<Vec<String>> = Vec::new();
    let n = holidays.len();
    if n == 0 {
        let mut row: Vec<String> = Vec::new();
        row.push(String::from_str("No holidays found for this day."));
        r.push(row);
        assert(rows_of(r@) =~= holiday_rows(holidays_of(holidays@))) by {
            assert(texts_of(r[0]@) =~= seq!["No holidays found for this day."@]);
        }
        return r;
    }
    let mut i: usize = 0;
    while i < n
        invariant
            n == holidays.len(),
            i <= n,
            r.len() == i,
            forall|j: int| 0 <= j < i ==> texts_of((#[trigger] r[j])@) == seq![holidays[j]@],
        decreases n - i,
    {
        let mut row: Vec<String> = Vec::new();
        row.push(holidays[i].text.clone());
        assert(texts_of(row@) =~= seq![holidays[i as int]@]);
        r.push(row);
        i += 1;
    }
    assert(rows_of(r@) =~= holiday_rows(holidays_of(holidays@)));
    r
}

/// The table of a category of a response whose texts are laid out as they
/// stand, without wrapping.
pub fn layout_table(response: &OnThisDayResponse, category: Category) -> (r: Table)
    ensures
        r@ == layout_of(response@, category),
{
    let rows = match category {
        Category::Events => layout_events(&response.events),
        Category::Births => layout_events(&response.births),
        Category::Deaths => layout_events(&response.deaths),
        Category::Holidays => layout_holidays(&response.holidays),
    };
    Table { header: category.headers(), rows, placeholder: is_empty_list(response, category) }
}

/// The table of a category of a response on a terminal of `terminal_width`
/// columns. The texts are wrapped to the content width of the category;
/// events, births and deaths come in the reverse of the order of the
/// response, holidays in its order; an empty list gives one row that says
/// so, which is not wrapped.
pub fn render_table(response: &OnThisDayResponse, category: Category, terminal_width: usize) -> (r:
    Table)
    ensures
        r@ == table_of(response@, category, terminal_width as int),
{
    let width = content_width(terminal_width, category);
    let rows = match category {
        Category::Events => layout_events(&wrap_events(&response.events, width)),
        Category::Births => layout_events(&wrap_events(&response.births, width)),
        Category::Deaths => layout_events(&wrap_events(&response.deaths, width)),
        Category::Holidays => layout_holidays(&wrap_holidays(&response.holidays, width)),
    };
    Table { header: category.headers(), rows, placeholder: is_empty_list(response, category) }
}

/// What is shown for a day: the heading that names the day, and the table.
#[derive(Clone, Debug, PartialEq, Eq)]
pub struct HistoryPage {
    pub date_heading: String,
    pub table: Table,
}

/// What is shown for the category of a response on `date`, on a terminal of
/// `terminal_width` columns.
pub fn render_page(
    response: &OnThisDayResponse,
    category: Category,
    date: &MonthDay,
    terminal_width: usize,
) -> (r: HistoryPage)
    ensures
        r.date_heading@ == header_date_text(date@),
        r.table@ == table_of(response@, category, terminal_width as int),
{
    HistoryPage {
        date_heading: date.header_date(),
        table: render_table(response, category, terminal_width),
    }
}

} // verus!
