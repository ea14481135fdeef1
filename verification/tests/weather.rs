use ferris_bot::utils::escape_markdown_v2;
use ferris_bot::weather::{
    capitalize_first_letter, capitalize_with, extract_temperatures_by_time, first_in_part,
    forecast_hours, get_clothing_recommendation, get_weather_emoji, DayPart, WEAR_CHILLY,
    WEAR_CHILLY_RAIN, WEAR_CHILLY_SNOW, WEAR_COLD, WEAR_COOL, WEAR_COOL_RAIN, WEAR_EXTREME_COLD,
    WEAR_FAIR, WEAR_FAIR_RAIN, WEAR_HEAT, WEAR_HEAT_RAIN, WEAR_HOT, WEAR_HOT_RAIN, WEAR_MILD,
    WEAR_MILD_RAIN, WEAR_SEVERE_COLD, WEAR_WARM, WEAR_WARM_RAIN,
};

#[test]
fn escape_puts_a_backslash_before_each_special_character() {
    assert_eq!(escape_markdown_v2("Hello"), "Hello");
    assert_eq!(escape_markdown_v2(""), "");
    assert_eq!(escape_markdown_v2("a_b*c"), "a\\_b\\*c");
    assert_eq!(escape_markdown_v2("1.5 (max)!"), "1\\.5 \\(max\\)\\!");
    assert_eq!(
        escape_markdown_v2("_*[]()~`>#+-=|{}.!"),
        "\\_\\*\\[\\]\\(\\)\\~\\`\\>\\#\\+\\-\\=\\|\\{\\}\\.\\!"
    );
    assert_eq!(escape_markdown_v2("Погода: +5°C"), "Погода: \\+5°C");
    assert_eq!(escape_markdown_v2("\\"), "\\");
    assert_eq!(escape_markdown_v2("a\\.b"), "a\\\\.b");
}

#[test]
fn escape_doubles_at_most() {
    for s in ["", "abc", "...", "a.b.c", "🌦 *x*"] {
        let e = escape_markdown_v2(s);
        assert!(e.chars().count() >= s.chars().count());
        assert!(e.chars().count() <= 2 * s.chars().count());
    }
}

#[test]
fn icons_have_their_signs() {
    assert_eq!(get_weather_emoji("01d"), "☀️");
    assert_eq!(get_weather_emoji("01n"), "🌙");
    assert_eq!(get_weather_emoji("02d"), "🌤️");
    assert_eq!(get_weather_emoji("02n"), "🌙☁️");
    assert_eq!(get_weather_emoji("03d"), "☁️");
    assert_eq!(get_weather_emoji("03n"), "☁️");
    assert_eq!(get_weather_emoji("04d"), "☁️☁️");
    assert_eq!(get_weather_emoji("04n"), "☁️☁️");
    assert_eq!(get_weather_emoji("09d"), "🌧️");
    assert_eq!(get_weather_emoji("09n"), "🌧️");
    assert_eq!(get_weather_emoji("10d"), "🌦️");
    assert_eq!(get_weather_emoji("10n"), "🌧️🌙");
    assert_eq!(get_weather_emoji("11d"), "⛈️");
    assert_eq!(get_weather_emoji("11n"), "⛈️");
    assert_eq!(get_weather_emoji("13d"), "❄️");
    assert_eq!(get_weather_emoji("13n"), "❄️");
    assert_eq!(get_weather_emoji("50d"), "🌫️");
    assert_eq!(get_weather_emoji("50n"), "🌫️");
    assert_eq!(get_weather_emoji("99x"), "🌡️");
    assert_eq!(get_weather_emoji(""), "🌡️");
}

#[test]
fn first_letter_is_put_in_upper_case() {
    assert_eq!(capitalize_first_letter("ясно"), "Ясно");
    assert_eq!(capitalize_first_letter("небольшой дождь"), "Небольшой дождь");
    assert_eq!(capitalize_first_letter("clear sky"), "Clear sky");
    assert_eq!(capitalize_first_letter("Already"), "Already");
    assert_eq!(capitalize_first_letter(""), "");
    assert_eq!(capitalize_first_letter("ßa"), "SSa");
    assert_eq!(capitalize_first_letter("1a"), "1a");
}

#[test]
fn given_upper_case_form_takes_the_first_place() {
    assert_eq!(capitalize_with("X", "abc"), "Xbc");
    assert_eq!(capitalize_with("XY", "a"), "XY");
    assert_eq!(capitalize_with("X", ""), "");
}

#[test]
fn hours_are_those_of_the_utc_day() {
    let stamps = vec![0, 3600 * 7 + 59, 86400 + 3600 * 13, -1, 1431648000, 1700571600];
    assert_eq!(
        forecast_hours(&stamps),
        vec![Some(0), Some(7), Some(13), Some(23), Some(0), Some(13)]
    );
    assert_eq!(forecast_hours(&vec![i64::MAX]), vec![None]);
    assert_eq!(forecast_hours(&vec![]), vec![]);
}

#[test]
fn first_forecast_of_each_part_of_the_day_is_picked() {
    let hours = vec![Some(3), Some(6), Some(9), Some(12), None, Some(15), Some(18), Some(21), Some(0)];
    assert_eq!(first_in_part(&hours, DayPart::Morning), Some(1));
    assert_eq!(first_in_part(&hours, DayPart::Day), Some(3));
    assert_eq!(first_in_part(&hours, DayPart::Evening), Some(6));
    let night = vec![Some(0), Some(3), Some(5), None];
    assert_eq!(first_in_part(&night, DayPart::Morning), None);
    assert_eq!(first_in_part(&night, DayPart::Day), None);
    assert_eq!(first_in_part(&night, DayPart::Evening), None);
    assert_eq!(first_in_part(&vec![Some(11), Some(17), Some(23)], DayPart::Morning), Some(0));
    assert_eq!(first_in_part(&vec![Some(11), Some(17), Some(23)], DayPart::Day), Some(1));
    assert_eq!(first_in_part(&vec![Some(11), Some(17), Some(23)], DayPart::Evening), Some(2));
    assert_eq!(first_in_part(&vec![Some(24)], DayPart::Evening), None);
}

#[test]
fn day_parts_are_picked_from_timestamps() {
    let day = 1700524800;
    let stamps = vec![day + 3 * 3600, day + 15 * 3600, day + 21 * 3600, day + 24 * 3600 + 9 * 3600];
    assert_eq!(extract_temperatures_by_time(&stamps), (Some(3), Some(1), Some(2)));
    assert_eq!(extract_temperatures_by_time(&vec![]), (None, None, None));
}

#[test]
fn clothing_follows_the_temperature_bands() {
    let dry = [
        (i32::MIN, WEAR_EXTREME_COLD),
        (-26, WEAR_EXTREME_COLD),
        (-25, WEAR_SEVERE_COLD),
        (-16, WEAR_SEVERE_COLD),
        (-15, WEAR_COLD),
        (-6, WEAR_COLD),
        (-5, WEAR_CHILLY),
        (4, WEAR_CHILLY),
        (5, WEAR_COOL),
        (9, WEAR_COOL),
        (10, WEAR_MILD),
        (14, WEAR_MILD),
        (15, WEAR_WARM),
        (19, WEAR_WARM),
        (20, WEAR_FAIR),
        (24, WEAR_FAIR),
        (25, WEAR_HOT),
        (29, WEAR_HOT),
        (30, WEAR_HEAT),
        (i32::MAX, WEAR_HEAT),
    ];
    for (degrees, advice) in dry {
        assert_eq!(get_clothing_recommendation(degrees, "Clear"), advice);
        assert_eq!(get_clothing_recommendation(degrees, "rain"), advice);
    }
}

#[test]
fn clothing_follows_rain_and_snow() {
    let wet = [
        (-30, WEAR_EXTREME_COLD),
        (-20, WEAR_SEVERE_COLD),
        (-10, WEAR_COLD),
        (0, WEAR_CHILLY_RAIN),
        (7, WEAR_COOL_RAIN),
        (12, WEAR_MILD_RAIN),
        (17, WEAR_WARM_RAIN),
        (22, WEAR_FAIR_RAIN),
        (27, WEAR_HOT_RAIN),
        (35, WEAR_HEAT_RAIN),
    ];
    for (degrees, advice) in wet {
        assert_eq!(get_clothing_recommendation(degrees, "Rain"), advice);
        assert_eq!(get_clothing_recommendation(degrees, "Drizzle"), advice);
    }
    assert_eq!(get_clothing_recommendation(0, "Snow"), WEAR_CHILLY_SNOW);
    assert_eq!(get_clothing_recommendation(-5, "Snow"), WEAR_CHILLY_SNOW);
    assert_eq!(get_clothing_recommendation(5, "Snow"), WEAR_COOL);
    assert_eq!(get_clothing_recommendation(-6, "Snow"), WEAR_COLD);
    assert!(WEAR_CHILLY_SNOW.starts_with("🌨️ *Холодно и снежно.*"));
    assert!(WEAR_HEAT.starts_with("🔥 *Очень жарко!*"));
}
