use ferris_bot::clock::Weekday;
use ferris_bot::forecast::{
    forecast_entry, gather_days, get_day_heading, get_day_name, get_kinds_line, join_texts,
    shorten_date, split_text, DayForecast, ForecastEntry,
};

fn entry(date: &str, weekday: Weekday, description: Option<&str>) -> ForecastEntry {
    ForecastEntry { date: date.to_string(), weekday, description: description.map(|d| d.to_string()) }
}

fn day(date: &str, weekday: Weekday, entries: Vec<usize>, descriptions: Vec<&str>) -> DayForecast {
    DayForecast {
        date: date.to_string(),
        weekday,
        entries,
        descriptions: descriptions.into_iter().map(|d| d.to_string()).collect(),
    }
}

#[test]
fn day_and_date_of_a_moment_are_read_in_utc() {
    assert_eq!(forecast_entry(0, "", None), Some(entry("1970-01-01", Weekday::Thu, None)));
    assert_eq!(forecast_entry(-1, "", None), Some(entry("1969-12-31", Weekday::Wed, None)));
    assert_eq!(forecast_entry(86399, "", None), Some(entry("1970-01-01", Weekday::Thu, None)));
    assert_eq!(forecast_entry(86400, "", None), Some(entry("1970-01-02", Weekday::Fri, None)));
    assert_eq!(forecast_entry(1709164800, "", None), Some(entry("2024-02-29", Weekday::Thu, None)));
    assert_eq!(forecast_entry(i64::MIN, "", None), None);
}

#[test]
fn entry_takes_the_date_from_the_text_of_the_service() {
    let e = forecast_entry(1700571600, "2023-11-21 15:00:00", Some("ясно".to_string()));
    assert_eq!(e, Some(entry("2023-11-21", Weekday::Tue, Some("ясно"))));
    let e = forecast_entry(1700571600, "2099-01-02 00:00:00", None);
    assert_eq!(e, Some(entry("2099-01-02", Weekday::Tue, None)));
    let e = forecast_entry(1700571600, "0123456789", None);
    assert_eq!(e, Some(entry("0123456789", Weekday::Tue, None)));
}

#[test]
fn entry_falls_back_to_the_date_of_the_moment() {
    let e = forecast_entry(1700571600, "today", Some("дождь".to_string()));
    assert_eq!(e, Some(entry("2023-11-21", Weekday::Tue, Some("дождь"))));
    let e = forecast_entry(1700571600, "", None);
    assert_eq!(e, Some(entry("2023-11-21", Weekday::Tue, None)));
    let e = forecast_entry(1700571600, "пять букв", None);
    assert_eq!(e, Some(entry("2023-11-21", Weekday::Tue, None)));
}

#[test]
fn entry_needs_a_moment_that_chrono_can_hold() {
    assert_eq!(forecast_entry(i64::MAX, "2023-11-21 15:00:00", None), None);
}

#[test]
fn days_come_out_by_date_with_their_forecasts_in_order() {
    let entries = vec![
        entry("2023-11-22", Weekday::Wed, Some("дождь")),
        entry("2023-11-21", Weekday::Tue, Some("ясно")),
        entry("2023-11-22", Weekday::Thu, Some("ясно")),
        entry("2023-11-21", Weekday::Tue, None),
        entry("2023-11-23", Weekday::Thu, None),
        entry("2023-11-22", Weekday::Wed, Some("дождь")),
    ];
    assert_eq!(
        gather_days(&entries),
        vec![
            day("2023-11-21", Weekday::Tue, vec![1, 3], vec!["Ясно"]),
            day("2023-11-22", Weekday::Wed, vec![0, 2, 5], vec!["Дождь", "Ясно"]),
            day("2023-11-23", Weekday::Thu, vec![4], vec![]),
        ]
    );
}

#[test]
fn no_forecasts_make_no_days() {
    assert_eq!(gather_days(&vec![]), vec![]);
}

#[test]
fn kinds_of_weather_stand_once_and_in_order() {
    let entries = vec![
        entry("d", Weekday::Mon, Some("пасмурно")),
        entry("d", Weekday::Mon, Some("ясно")),
        entry("d", Weekday::Mon, Some("Пасмурно")),
        entry("d", Weekday::Mon, Some("дождь")),
        entry("d", Weekday::Mon, Some("clear")),
    ];
    assert_eq!(
        gather_days(&entries),
        vec![day("d", Weekday::Mon, vec![0, 1, 2, 3, 4], vec!["Clear", "Дождь", "Пасмурно", "Ясно"])]
    );
}

#[test]
fn kinds_of_weather_follow_the_order_of_code_points() {
    let entries: Vec<ForecastEntry> = ["b", "a", "c", "b", "", "ab", "a", "я", "z"]
        .iter()
        .map(|t| entry("d", Weekday::Mon, Some(t)))
        .collect();
    let days = gather_days(&entries);
    assert_eq!(days.len(), 1);
    assert_eq!(days[0].descriptions, vec!["", "A", "Ab", "B", "C", "Z", "Я"]);
    assert_eq!(days[0].entries, vec![0, 1, 2, 3, 4, 5, 6, 7, 8]);
}

#[test]
fn text_is_split_at_every_separator() {
    assert_eq!(split_text("2023-11-21", '-'), vec!["2023", "11", "21"]);
    assert_eq!(split_text("", '-'), vec![""]);
    assert_eq!(split_text("abc", '-'), vec!["abc"]);
    assert_eq!(split_text("-", '-'), vec!["", ""]);
    assert_eq!(split_text("a--b-", '-'), vec!["a", "", "b", ""]);
}

#[test]
fn date_is_shortened_to_day_and_month() {
    assert_eq!(shorten_date("2023-11-21"), "21.11");
    assert_eq!(shorten_date("2023-11-21-extra"), "21.11");
    assert_eq!(shorten_date("2023-11"), "2023-11");
    assert_eq!(shorten_date("today"), "today");
    assert_eq!(shorten_date(""), "");
    assert_eq!(shorten_date("--"), ".");
}

#[test]
fn texts_are_joined_with_the_separator_between() {
    let list = |v: Vec<&str>| v.into_iter().map(|s| s.to_string()).collect::<Vec<String>>();
    assert_eq!(join_texts(&list(vec![]), ", "), "");
    assert_eq!(join_texts(&list(vec!["Ясно"]), ", "), "Ясно");
    assert_eq!(join_texts(&list(vec!["Дождь", "Ясно", "Снег"]), ", "), "Дождь, Ясно, Снег");
}

#[test]
fn day_lines_read_as_written() {
    let d = day("2023-11-21", Weekday::Tue, vec![0], vec!["Дождь", "Ясно"]);
    assert_eq!(get_day_heading(&d), "*Вторник, 21.11*:\n");
    assert_eq!(get_kinds_line(&d), "🌤 Погода: Дождь, Ясно\n\n");
    let d = day("soon", Weekday::Sun, vec![0], vec![]);
    assert_eq!(get_day_heading(&d), "*Воскресенье, soon*:\n");
    assert_eq!(get_kinds_line(&d), "🌤 Погода: \n\n");
}

#[test]
fn days_have_their_names() {
    assert_eq!(get_day_name(Weekday::Mon), "Понедельник");
    assert_eq!(get_day_name(Weekday::Tue), "Вторник");
    assert_eq!(get_day_name(Weekday::Wed), "Среда");
    assert_eq!(get_day_name(Weekday::Thu), "Четверг");
    assert_eq!(get_day_name(Weekday::Fri), "Пятница");
    assert_eq!(get_day_name(Weekday::Sat), "Суббота");
    assert_eq!(get_day_name(Weekday::Sun), "Воскресенье");
}
