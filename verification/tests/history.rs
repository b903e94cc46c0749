use time_cli::calendar::MonthDay;
use time_cli::history::{Category, Event, Holiday, OnThisDayResponse};
use time_cli::table::{
    content_width, layout_events, layout_holidays, layout_table, render_page, render_table,
    wrap_events, wrap_holidays,
};

fn event(year: i32, text: &str) -> Event {
    Event { year, text: text.to_string() }
}

fn holiday(text: &str) -> Holiday {
    Holiday { text: text.to_string() }
}

fn response(events: Vec<Event>) -> OnThisDayResponse {
    OnThisDayResponse::from_optional_lists(Some(events), None, None, None)
}

fn row(cells: &[&str]) -> Vec<String> {
    cells.iter().map(|c| c.to_string()).collect()
}

#[test]
fn events_are_shown_latest_first() {
    let r = response(vec![event(1990, "A"), event(2005, "B")]);
    let table = render_table(&r, Category::Events, 80);
    assert_eq!(table.header, row(&["Year", "Event"]));
    assert_eq!(table.rows, vec![row(&["2005", "B"]), row(&["1990", "A"])]);
}

#[test]
fn absent_lists_are_empty() {
    let r = OnThisDayResponse::from_optional_lists(None, None, None, None);
    assert!(r.events.is_empty());
    assert!(r.births.is_empty());
    assert!(r.deaths.is_empty());
    assert!(r.holidays.is_empty());

    let r = OnThisDayResponse::from_optional_lists(
        Some(vec![event(1, "x")]),
        None,
        Some(vec![]),
        Some(vec![holiday("h")]),
    );
    assert_eq!(r.events, vec![event(1, "x")]);
    assert!(r.births.is_empty());
    assert!(r.deaths.is_empty());
    assert_eq!(r.holidays, vec![holiday("h")]);
}

#[test]
fn category_names_and_headers() {
    assert_eq!(Category::Events.name(), "events");
    assert_eq!(Category::Births.name(), "births");
    assert_eq!(Category::Deaths.name(), "deaths");
    assert_eq!(Category::Holidays.name(), "holidays");
    assert_eq!(Category::Events.headers(), row(&["Year", "Event"]));
    assert_eq!(Category::Births.headers(), row(&["Born", "Person"]));
    assert_eq!(Category::Deaths.headers(), row(&["Died", "Person"]));
    assert_eq!(Category::Holidays.headers(), row(&["Holidays & Observances"]));
}

#[test]
fn each_category_shows_its_own_list() {
    let r = OnThisDayResponse::from_optional_lists(
        Some(vec![event(1, "e")]),
        Some(vec![event(2, "b")]),
        Some(vec![event(3, "d")]),
        Some(vec![holiday("h")]),
    );
    assert_eq!(render_table(&r, Category::Events, 80).rows, vec![row(&["1", "e"])]);
    assert_eq!(render_table(&r, Category::Births, 80).rows, vec![row(&["2", "b"])]);
    assert_eq!(render_table(&r, Category::Deaths, 80).rows, vec![row(&["3", "d"])]);
    assert_eq!(render_table(&r, Category::Holidays, 80).rows, vec![row(&["h"])]);
    assert_eq!(render_table(&r, Category::Births, 80).header, row(&["Born", "Person"]));
    assert_eq!(render_table(&r, Category::Deaths, 80).header, row(&["Died", "Person"]));
}

#[test]
fn empty_lists_give_one_row_that_says_so() {
    let r = OnThisDayResponse::from_optional_lists(None, None, None, None);
    for category in [Category::Events, Category::Births, Category::Deaths] {
        assert_eq!(
            render_table(&r, category, 80).rows,
            vec![row(&["N/A", "No entries of this type found for this day."])]
        );
        // the placeholder is not wrapped, however narrow the terminal
        assert_eq!(
            render_table(&r, category, 0).rows,
            vec![row(&["N/A", "No entries of this type found for this day."])]
        );
    }
    let table = render_table(&r, Category::Holidays, 80);
    assert_eq!(table.header, row(&["Holidays & Observances"]));
    assert_eq!(table.rows, vec![row(&["No holidays found for this day."])]);
}

#[test]
fn a_table_says_whether_its_row_is_a_placeholder() {
    let empty = OnThisDayResponse::from_optional_lists(None, None, None, None);
    let full = OnThisDayResponse::from_optional_lists(
        Some(vec![event(1, "e")]),
        Some(vec![event(2, "b")]),
        Some(vec![event(3, "d")]),
        Some(vec![holiday("h")]),
    );
    let only_births =
        OnThisDayResponse::from_optional_lists(None, Some(vec![event(2, "b")]), None, None);
    for category in [Category::Events, Category::Births, Category::Deaths, Category::Holidays] {
        assert!(render_table(&empty, category, 80).placeholder);
        assert!(layout_table(&empty, category).placeholder);
        assert!(!render_table(&full, category, 80).placeholder);
        assert!(!layout_table(&full, category).placeholder);
        let table = render_table(&only_births, category, 80);
        assert_eq!(table.placeholder, category != Category::Births);
    }
}

#[test]
fn holidays_keep_their_order() {
    let r = OnThisDayResponse::from_optional_lists(
        None,
        None,
        None,
        Some(vec![holiday("first"), holiday("second"), holiday("third")]),
    );
    assert_eq!(
        render_table(&r, Category::Holidays, 80).rows,
        vec![row(&["first"]), row(&["second"]), row(&["third"])]
    );
}

#[test]
fn years_are_written_with_their_sign() {
    let r = response(vec![
        event(-44, "Caesar"),
        event(0, "zero"),
        event(i32::MIN, "min"),
        event(i32::MAX, "max"),
    ]);
    assert_eq!(
        layout_table(&r, Category::Events).rows,
        vec![
            row(&["2147483647", "max"]),
            row(&["-2147483648", "min"]),
            row(&["0", "zero"]),
            row(&["-44", "Caesar"]),
        ]
    );
}

#[test]
fn content_width_has_a_floor_and_a_margin() {
    assert_eq!(content_width(80, Category::Events), 65);
    assert_eq!(content_width(80, Category::Births), 65);
    assert_eq!(content_width(80, Category::Deaths), 65);
    assert_eq!(content_width(80, Category::Holidays), 75);
    assert_eq!(content_width(50, Category::Events), 35);
    assert_eq!(content_width(49, Category::Events), 35);
    assert_eq!(content_width(0, Category::Events), 35);
    assert_eq!(content_width(0, Category::Holidays), 45);
    assert_eq!(content_width(51, Category::Holidays), 46);
    assert_eq!(content_width(usize::MAX, Category::Events), usize::MAX - 15);
}

#[test]
fn texts_are_wrapped_to_the_content_width() {
    let text = "The quick brown fox jumps over the lazy dog and keeps running far away";
    let r = OnThisDayResponse::from_optional_lists(
        Some(vec![event(2000, text)]),
        None,
        None,
        Some(vec![holiday(text)]),
    );
    // narrow terminal: 35 columns for events, 45 for holidays
    let events = render_table(&r, Category::Events, 40);
    assert_eq!(events.rows.len(), 1);
    assert_eq!(events.rows[0][0], "2000");
    assert_eq!(events.rows[0][1], textwrap::fill(text, 35));
    assert_ne!(events.rows[0][1], text);
    assert!(events.rows[0][1].lines().all(|line| line.len() <= 35));
    assert_eq!(events.rows[0][1].replace('\n', " "), text);

    let holidays = render_table(&r, Category::Holidays, 40);
    assert_eq!(holidays.rows[0][0], textwrap::fill(text, 45));
    assert_ne!(holidays.rows[0][0], text);
    assert!(holidays.rows[0][0].lines().all(|line| line.len() <= 45));

    // wide terminal: nothing to wrap
    let wide = render_table(&r, Category::Events, 200);
    assert_eq!(wide.rows[0][1], text);
}

#[test]
fn wrapping_keeps_years_and_order() {
    let events = vec![event(1, "one two three"), event(2, "four five six")];
    let wrapped = wrap_events(&events, 5);
    assert_eq!(wrapped, vec![event(1, "one\ntwo\nthree"), event(2, "four\nfive\nsix")]);
    let holidays = vec![holiday("one two three"), holiday("x")];
    assert_eq!(wrap_holidays(&holidays, 5), vec![holiday("one\ntwo\nthree"), holiday("x")]);
    assert_eq!(wrap_events(&Vec::new(), 5), Vec::new());
    assert_eq!(wrap_holidays(&Vec::new(), 5), Vec::new());
}

#[test]
fn wrapping_to_no_width_puts_each_character_on_a_line() {
    assert_eq!(wrap_events(&vec![event(1, "ab c")], 0), vec![event(1, "a\nb\nc")]);
}

#[test]
fn layout_leaves_texts_as_they_stand() {
    let events = vec![event(1, "one two three"), event(2, "four five six")];
    assert_eq!(
        layout_events(&events),
        vec![row(&["2", "four five six"]), row(&["1", "one two three"])]
    );
    assert_eq!(layout_holidays(&[holiday("a b")].to_vec()), vec![row(&["a b"])]);
}

#[test]
fn page_has_the_heading_of_the_day() {
    let r = response(vec![event(1990, "A"), event(2005, "B")]);
    let date = MonthDay::new(3, 15).unwrap();
    let page = render_page(&r, Category::Events, &date, 80);
    assert_eq!(page.date_heading, "March 15");
    assert_eq!(page.table, render_table(&r, Category::Events, 80));
}

#[test]
fn heading_of_each_month() {
    let names = [
        "January", "February", "March", "April", "May", "June", "July", "August", "September",
        "October", "November", "December",
    ];
    for (i, name) in names.iter().enumerate() {
        let date = MonthDay::new(i as u32 + 1, 28).unwrap();
        assert_eq!(date.month_name(), *name);
        assert_eq!(date.header_date(), format!("{name} 28"));
        assert_eq!(date.month(), i as u32 + 1);
        assert_eq!(date.day(), 28);
    }
    // a single digit is not padded
    assert_eq!(MonthDay::new(3, 1).unwrap().header_date(), "March 1");
    assert_eq!(MonthDay::new(7, 4).unwrap().header_date(), "July 4");
    assert_eq!(MonthDay::new(2, 29).unwrap().header_date(), "February 29");
}

#[test]
fn heading_agrees_with_chrono() {
    for month in 1..=12u32 {
        for day in 1..=31u32 {
            match (MonthDay::new(month, day), chrono::NaiveDate::from_ymd_opt(2024, month, day)) {
                (Some(md), Some(date)) => {
                    assert_eq!(md.header_date(), date.format("%B %-d").to_string());
                }
                (None, None) => {}
                _ => panic!("{month}-{day}"),
            }
        }
    }
}
