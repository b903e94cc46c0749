//! The "On This Day" data: the categories, and what the server knows of a
//! day.

use vstd::prelude::*;
use vstd::string::*;


verus! {

/// Which list of the response is shown.
#[derive(Clone, Copy, Debug, PartialEq, Eq, Hash, Structural)]
pub enum Category {
    Events,
    Births,
    Deaths,
    Holidays,
}

impl Category {
    /// The name of the category in a request: its lowercase English name.
    pub open spec fn name_text(self) -> Seq<char> {
        match self {
            Category::Events => "events"@,
            Category::Births => "births"@,
            Category::Deaths => "deaths"@,
            Category::Holidays => "holidays"@,
        }
    }

    /// The column headings of the table of this category.
    pub open spec fn header_texts(self) -> Seq<Seq<char>> {
        match self {
            Category::Events => seq!["Year"@, "Event"@],
            Category::Births => seq!["Born"@, "Person"@],
            Category::Deaths => seq!["Died"@, "Person"@],
            Category::Holidays => seq!["Holidays & Observances"@],
        }
    }

    /// The columns that the table keeps free beside a text cell.
    pub open spec fn margin(self) -> int {
        match self {
            Category::Holidays => 5,
            _ => 15,
        }
    }

    /// The name of the category in a request.
    pub fn name(&self) -> (r: &'static str)
        ensures
            r@ == self.name_text(),
    {
        match self {
            Category::Events => "events",
            Category::Births => "births",
            Category::Deaths => "deaths",
            Category::Holidays => "holidays",
        }
    }

    /// The column headings of the table of this category.
    pub fn headers(&self) -> (r: Vec<String>)
        ensures
            texts_of(r@) == self.header_texts(),
    {
        let mut r: Vec<String> = Vec::new();
        match self {
            Category::Events => {
                r.push(String::from_str("Year"));
                r.push(String::from_str("Event"));
            },
            Category::Births => {
                r.push(String::from_str("Born"));
                r.push(String::from_str("Person"));
            },
            Category::Deaths => {
                r.push(String::from_str("Died"));
                r.push(String::from_str("Person"));
            },
            Category::Holidays => {
                r.push(String::from_str("Holidays & Observances"));
            },
        }
        assert(texts_of(r@) =~= self.header_texts());
        r
    }
}

/// The texts that a sequence of strings holds.
pub open spec fn texts_of(strings: Seq<String>) -> Seq<Seq<char>> {
    Seq::new(strings.len(), |i: int| strings[i]@)
}

/// Something that happened in a year: an event, a birth or a death.
#[derive(Clone, Debug, PartialEq, Eq)]
pub struct Event {
    pub year: i32,
    pub text: String,
}

/// An `Event` as mathematical values.
pub struct EventView {
    pub year: int,
    pub text: Seq<char>,
}

impl View for Event {
    type V = EventView;

    open spec fn view(&self) -> EventView {
        EventView { year: self.year as int, text: self.text@ }
    }
}

/// A holiday or an observance of the day.
#[derive(Clone, Debug, PartialEq, Eq)]
pub struct Holiday {
    pub text: String,
}

impl View for Holiday {
    type V = Seq<char>;

    open spec fn view(&self) -> Seq<char> {
        self.text@
    }
}

/// The events that a sequence holds, in its order.
pub open spec fn events_of(events: Seq<Event>) -> Seq<EventView> {
    Seq::new(events.len(), |i: int| events[i]@)
}

/// The holidays that a sequence holds, in its order.
pub open spec fn holidays_of(holidays: Seq<Holiday>) -> Seq<Seq<char>> {
    Seq::new(holidays.len(), |i: int| holidays[i]@)
}

/// What the server knows of one day: four lists, each in the order in
/// which the server gave it.
#[derive(Clone, Debug, PartialEq, Eq)]
pub struct OnThisDayResponse {
    pub events: Vec<Event>,
    pub births: Vec<Event>,
    pub deaths: Vec<Event>,
    pub holidays: Vec<Holiday>,
}

/// An `OnThisDayResponse` as mathematical values.
pub struct ResponseView {
    pub events: Seq<EventView>,
    pub births: Seq<EventView>,
    pub deaths: Seq<EventView>,
    pub holidays: Seq<Seq<char>>,
}

impl View for OnThisDayResponse {
    type V = ResponseView;

    open spec fn view(&self) -> ResponseView {
        ResponseView {
            events: events_of(self.events@),
            births: events_of(self.births@),
            deaths: events_of(self.deaths@),
            holidays: holidays_of(self.holidays@),
        }
    }
}

/// The events of a list that may be absent: none where it is.
pub open spec fn events_or_none(list: Option<Vec<Event>>) -> Seq<EventView> {
    match list {
        Some(events) => events_of(events@),
        None => Seq::empty(),
    }
}

/// The holidays of a list that may be absent: none where it is.
pub open spec fn holidays_or_none(list: Option<Vec<Holiday>>) -> Seq<Seq<char>> {
    match list {
        Some(holidays) => holidays_of(holidays@),
        None => Seq::empty(),
    }
}

fn events_or_empty(list: Option<Vec<Event>>) -> (r: Vec<Event>)
    ensures
        events_of(r@) == events_or_none(list),
{
    match list {
        Some(events) => events,
        None => {
            let r: Vec<Event> = Vec::new();
            assert(events_of(r@) =~= Seq::empty());
            r
        },
    }
}

impl OnThisDayResponse {
    /// A response from the four lists of a decoded body, each of which may
    /// be absent. An absent list stands for an empty one: this never fails.
    pub fn from_optional_lists(
        events: Option<Vec<Event>>,
        births: Option<Vec<Event>>,
        deaths: Option<Vec<Event>>,
        holidays: Option<Vec<Holiday>>,
    ) -> (r: OnThisDayResponse)
        ensures
            r@.events == events_or_none(events),
            r@.births == events_or_none(births),
            r@.deaths == events_or_none(deaths),
            r@.holidays == holidays_or_none(holidays),
    {
        let holidays_list = match holidays {
            Some(list) => list,
            None => {
                let list: Vec<Holiday> = Vec::new();
                assert(holidays_of(list@) =~= Seq::empty());
                list
            },
        };
        OnThisDayResponse {
            events: events_or_empty(events),
            births: events_or_empty(births),
            deaths: events_or_empty(deaths),
            holidays: holidays_list,
        }
    }
}

} // verus!
