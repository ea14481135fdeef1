//! What the library holds of the weather report: the parts that work on
//! whole numbers and text.

use crate::clock::Weekday;
use crate::text::same_text;
use vstd::prelude::*;
use vstd::string::*;

verus! {

/// The sign for the icons `01d`.
pub const SIGN_CLEAR_DAY: &'static str = "☀️";

/// The sign for the icons `01n`.
pub const SIGN_CLEAR_NIGHT: &'static str = "🌙";

/// The sign for the icons `02d`.
pub const SIGN_FEW_CLOUDS_DAY: &'static str = "🌤️";

/// The sign for the icons `02n`.
pub const SIGN_FEW_CLOUDS_NIGHT: &'static str = "🌙☁️";

/// The sign for the icons `03d`, `03n`.
pub const SIGN_CLOUDS: &'static str = "☁️";

/// The sign for the icons `04d`, `04n`.
pub const SIGN_OVERCAST: &'static str = "☁️☁️";

/// The sign for the icons `09d`, `09n`.
pub const SIGN_SHOWERS: &'static str = "🌧️";

/// The sign for the icons `10d`.
pub const SIGN_RAIN_DAY: &'static str = "🌦️";

/// The sign for the icons `10n`.
pub const SIGN_RAIN_NIGHT: &'static str = "🌧️🌙";

/// The sign for the icons `11d`, `11n`.
pub const SIGN_THUNDER: &'static str = "⛈️";

/// The sign for the icons `13d`, `13n`.
pub const SIGN_SNOW: &'static str = "❄️";

/// The sign for the icons `50d`, `50n`.
pub const SIGN_MIST: &'static str = "🌫️";

/// The sign for every other icon.
pub const SIGN_OTHER: &'static str = "🌡️";

/// The sign that stands for an icon code of the weather service.
pub open spec fn weather_emoji(icon: Seq<char>) -> Seq<char> {
    if icon == "01d"@ {
        SIGN_CLEAR_DAY@
    } else     if icon == "01n"@ {
        SIGN_CLEAR_NIGHT@
    } else     if icon == "02d"@ {
        SIGN_FEW_CLOUDS_DAY@
    } else     if icon == "02n"@ {
        SIGN_FEW_CLOUDS_NIGHT@
    } else     if icon == "03d"@ || icon == "03n"@ {
        SIGN_CLOUDS@
    } else     if icon == "04d"@ || icon == "04n"@ {
        SIGN_OVERCAST@
    } else     if icon == "09d"@ || icon == "09n"@ {
        SIGN_SHOWERS@
    } else     if icon == "10d"@ {
        SIGN_RAIN_DAY@
    } else     if icon == "10n"@ {
        SIGN_RAIN_NIGHT@
    } else     if icon == "11d"@ || icon == "11n"@ {
        SIGN_THUNDER@
    } else     if icon == "13d"@ || icon == "13n"@ {
        SIGN_SNOW@
    } else     if icon == "50d"@ || icon == "50n"@ {
        SIGN_MIST@
    } else {
        SIGN_OTHER@
    }
}

/// The sign that stands for an icon code of the weather service.
pub fn get_weather_emoji(icon: &str) -> (emoji: &'static str)
    ensures
        emoji@ == weather_emoji(icon@),
{
    if same_text(icon, "01d") {
        SIGN_CLEAR_DAY
    } else     if same_text(icon, "01n") {
        SIGN_CLEAR_NIGHT
    } else     if same_text(icon, "02d") {
        SIGN_FEW_CLOUDS_DAY
    } else     if same_text(icon, "02n") {
        SIGN_FEW_CLOUDS_NIGHT
    } else     if same_text(icon, "03d") || same_text(icon, "03n") {
        SIGN_CLOUDS
    } else     if same_text(icon, "04d") || same_text(icon, "04n") {
        SIGN_OVERCAST
    } else     if same_text(icon, "09d") || same_text(icon, "09n") {
        SIGN_SHOWERS
    } else     if same_text(icon, "10d") {
        SIGN_RAIN_DAY
    } else     if same_text(icon, "10n") {
        SIGN_RAIN_NIGHT
    } else     if same_text(icon, "11d") || same_text(icon, "11n") {
        SIGN_THUNDER
    } else     if same_text(icon, "13d") || same_text(icon, "13n") {
        SIGN_SNOW
    } else     if same_text(icon, "50d") || same_text(icon, "50n") {
        SIGN_MIST
    } else {
        SIGN_OTHER
    }
}

/// What `char::to_uppercase` yields for a character: its upper-case form,
/// which may be more than one character long.
pub uninterp spec fn uppercase(c: char) -> Seq<char>;

/// Collects what `char::to_uppercase` yields for the character. The result
/// is a function of the character alone, and is named [`uppercase`].
#[verifier::external_body]
fn to_upper(c: char) -> (upper: String)
    ensures
        upper@ == uppercase(c),
{
    c.to_uppercase().collect()
}

/// A text with its first character in upper case.
pub open spec fn capitalized(s: Seq<char>) -> Seq<char> {
    if s.len() == 0 {
        s
    } else {
        uppercase(s[0]) + s.skip(1)
    }
}

/// A text whose first character is already in upper case, given that
/// upper-case form.
pub open spec fn capitalized_with(first_upper: Seq<char>, s: Seq<char>) -> Seq<char> {
    if s.len() == 0 {
        s
    } else {
        first_upper + s.skip(1)
    }
}

/// Puts the given upper-case form in the place of the first character of
/// the text; an empty text stays empty.
pub fn capitalize_with(first_upper: &str, s: &str) -> (result: String)
    ensures
        result@ == capitalized_with(first_upper@, s@),
{
    let mut result = String::new();
    let mut at_start = true;
    for ch in it: s.chars()
        invariant
            it.seq() == s@,
            at_start == (it.index() == 0),
            result@ == capitalized_with(first_upper@, s@.take(it.index() as int)),
    {
        let ghost before = s@.take(it.index() as int);
        let ghost upto = s@.take(it.index() + 1);
        if at_start {
            at_start = false;
            assert(result@ =~= Seq::<char>::empty());
            result.append(first_upper);
            assert(upto.skip(1) =~= Seq::<char>::empty());
            assert(result@ =~= first_upper@ + upto.skip(1));
        } else {
            assert(upto.skip(1) =~= before.skip(1).push(ch));
            result.push(ch);
            assert(result@ =~= first_upper@ + upto.skip(1));
        }
    }
    assert(s@.take(s@.len() as int) =~= s@);
    result
}

/// Puts the first character of the text in upper case.
pub fn capitalize_first_letter(s: &str) -> (result: String)
    ensures
        result@ == capitalized(s@),
{
    if s.is_empty() {
        return String::new();
    }
    let first = s.get_char(0);
    let upper = to_upper(first);
    capitalize_with(upper.as_str(), s)
}

/// Whether chrono can hold the moment that lies the given number of
/// seconds after the start of 1970: whether `chrono::Utc.timestamp_opt`
/// gives a single moment for it.
pub uninterp spec fn utc_known(timestamp: int) -> bool;

/// The hour of the day, in UTC, of a moment given in seconds since the
/// start of 1970.
pub open spec fn utc_hour(timestamp: int) -> int {
    (timestamp % 86400) / 3600
}

/// The day of the week, in UTC, that chrono's `Datelike::weekday` gives
/// for a moment that it can hold.
pub uninterp spec fn utc_weekday(timestamp: int) -> Weekday;

/// The date, in UTC, as chrono writes it for a moment that it can hold in
/// the format `%Y-%m-%d`.
pub uninterp spec fn utc_date(timestamp: int) -> Seq<char>;

/// What chrono tells of a moment: the hour of the day, the day of the week
/// and the date, all in UTC.
#[derive(Debug, PartialEq, Eq)]
pub struct UtcMoment {
    pub hour: u32,
    pub weekday: Weekday,
    pub date: String,
}

/// Asks `chrono::Utc.timestamp_opt` for the moment that lies the given
/// number of seconds after the start of 1970, takes it where it is a
/// single one (`single`), and reads from it the hour
/// (`Timelike::hour`), the day of the week (`Datelike::weekday`) and the
/// date (`format("%Y-%m-%d")`). Chrono gives no moment outside the years
/// that it can hold. It splits the seconds into whole days and the seconds
/// of the day, both rounded down, and the hour is that of the seconds of
/// the day. The day of the week and the date are functions of the seconds
/// alone, and are named.
#[verifier::external_body]
pub(crate) fn utc_moment(timestamp: i64) -> (moment: Option<UtcMoment>)
    ensures
        moment is Some <==> utc_known(timestamp as int),
        moment matches Some(m) ==> m.hour == utc_hour(timestamp as int) && m.weekday
            == utc_weekday(timestamp as int) && m.date@ == utc_date(timestamp as int),
{
    let m = chrono::TimeZone::timestamp_opt(&chrono::Utc, timestamp, 0).single()?;
    let weekday = match chrono::Datelike::weekday(&m) {
        chrono::Weekday::Mon => Weekday::Mon,
        chrono::Weekday::Tue => Weekday::Tue,
        chrono::Weekday::Wed => Weekday::Wed,
        chrono::Weekday::Thu => Weekday::Thu,
        chrono::Weekday::Fri => Weekday::Fri,
        chrono::Weekday::Sat => Weekday::Sat,
        chrono::Weekday::Sun => Weekday::Sun,
    };
    let date = m.format("%Y-%m-%d").to_string();
    Some(UtcMoment { hour: chrono::Timelike::hour(&m), weekday, date })
}

/// The hour of a moment, in UTC, where chrono can hold the moment.
pub open spec fn known_hour(timestamp: i64) -> Option<u32> {
    if utc_known(timestamp as int) {
        Some(utc_hour(timestamp as int) as u32)
    } else {
        None
    }
}

/// The part of the day that an hour belongs to.
#[derive(Clone, Copy, Debug, PartialEq, Eq, Structural)]
pub enum DayPart {
    /// From 06:00 up to 12:00.
    Morning,
    /// From 12:00 up to 18:00.
    Day,
    /// From 18:00 up to 24:00.
    Evening,
}

/// Whether an hour lies in a part of the day. The night, before 06:00,
/// lies in none.
pub open spec fn in_part(hour: int, part: DayPart) -> bool {
    match part {
        DayPart::Morning => 6 <= hour < 12,
        DayPart::Day => 12 <= hour < 18,
        DayPart::Evening => 18 <= hour < 24,
    }
}

/// `i` is the place of the first forecast whose hour is known and lies in
/// the part of the day.
pub open spec fn is_first_in_part(hours: Seq<Option<u32>>, part: DayPart, i: int) -> bool {
    &&& 0 <= i < hours.len()
    &&& hours[i] matches Some(h) && in_part(h as int, part)
    &&& forall|j: int|
        0 <= j < i ==> !((#[trigger] hours[j]) matches Some(h) && in_part(h as int, part))
}

/// The lookup found the first forecast of the part of the day, or found
/// none because there is none.
pub open spec fn found_part(hours: Seq<Option<u32>>, part: DayPart, found: Option<usize>) -> bool {
    match found {
        Some(i) => is_first_in_part(hours, part, i as int),
        None => forall|j: int|
            0 <= j < hours.len() ==> !((#[trigger] hours[j]) matches Some(h) && in_part(
                h as int,
                part,
            )),
    }
}

/// The place of the first forecast that falls into the part of the day.
pub fn first_in_part(hours: &Vec<Option<u32>>, part: DayPart) -> (found: Option<usize>)
    ensures
        found_part(hours@, part, found),
{
    let mut i: usize = 0;
    while i < hours.len()
        invariant
            i <= hours.len(),
            forall|j: int|
                0 <= j < i ==> !((#[trigger] hours[j]) matches Some(h) && in_part(h as int, part)),
        decreases hours.len() - i,
    {
        match hours[i] {
            Some(h) => {
                let inside = match part {
                    DayPart::Morning => 6 <= h && h < 12,
                    DayPart::Day => 12 <= h && h < 18,
                    DayPart::Evening => 18 <= h && h < 24,
                };
                if inside {
                    return Some(i);
                }
            },
            None => {},
        }
        i += 1;
    }
    None
}

/// The UTC hours of the forecasts, given the moments that they are for in
/// seconds since the start of 1970: each hour is that of its moment, and a
/// moment that chrono cannot hold has none.
pub fn forecast_hours(timestamps: &Vec<i64>) -> (hours: Vec<Option<u32>>)
    ensures
        hours@ == timestamps@.map_values(|t: i64| known_hour(t)),
{
    let mut hours: Vec<Option<u32>> = Vec::new();
    let mut i: usize = 0;
    while i < timestamps.len()
        invariant
            i <= timestamps.len(),
            hours.len() == i,
            forall|k: int| 0 <= k < i ==> (#[trigger] hours[k]) == known_hour(timestamps[k]),
        decreases timestamps.len() - i,
    {
        let hour = match utc_moment(timestamps[i]) {
            Some(m) => Some(m.hour),
            None => None,
        };
        hours.push(hour);
        i += 1;
    }
    assert(hours@ =~= timestamps@.map_values(|t: i64| known_hour(t)));
    hours
}

/// The places of the forecasts that stand for the morning, the day and the
/// evening: for each part of the day the first forecast whose moment, in
/// UTC, falls into it.
pub fn extract_temperatures_by_time(timestamps: &Vec<i64>) -> (picks: (
    Option<usize>,
    Option<usize>,
    Option<usize>,
))
    ensures
        found_part(timestamps@.map_values(|t: i64| known_hour(t)), DayPart::Morning, picks.0),
        found_part(timestamps@.map_values(|t: i64| known_hour(t)), DayPart::Day, picks.1),
        found_part(timestamps@.map_values(|t: i64| known_hour(t)), DayPart::Evening, picks.2),
{
    let hours = forecast_hours(timestamps);
    (
        first_in_part(&hours, DayPart::Morning),
        first_in_part(&hours, DayPart::Day),
        first_in_part(&hours, DayPart::Evening),
    )
}

/// What to wear. Below 25 degrees of frost.
pub const WEAR_EXTREME_COLD: &'static str = "🥶 *Крайне холодно!* Нужна очень теплая многослойная одежда: термобелье, теплый свитер, зимняя куртка/пуховик, утепленные брюки, теплая шапка, шарф, варежки/перчатки и зимняя обувь с тёплыми носками.";

/// What to wear. From 25 to 15 degrees of frost.
pub const WEAR_SEVERE_COLD: &'static str = "❄️ *Очень холодно!* Наденьте теплую зимнюю куртку/пуховик, утепленные брюки, многослойную одежду (термобелье, свитер), теплую шапку, шарф, перчатки и зимнюю обувь. Не забудьте про теплые носки.";

/// What to wear. From 15 to 5 degrees of frost.
pub const WEAR_COLD: &'static str = "🧣 *Холодно.* Необходима зимняя куртка, теплый свитер, шапка, перчатки и шарф. Лучше надеть утепленные брюки и зимнюю обувь. Если планируете долго находиться на улице, подумайте о термобелье.";

/// What to wear. Around zero, in rain.
pub const WEAR_CHILLY_RAIN: &'static str = "🌧️ *Холодно и дождливо.* Наденьте теплую водонепроницаемую куртку, шапку, перчатки, шарф. Обязательно возьмите зонт или наденьте куртку с капюшоном. Рекомендуется водонепроницаемая обувь.";

/// What to wear. Around zero, in snow.
pub const WEAR_CHILLY_SNOW: &'static str = "🌨️ *Холодно и снежно.* Наденьте теплую зимнюю куртку, шапку, перчатки, шарф и зимнюю обувь с хорошим протектором. Возможно понадобятся утепленные брюки.";

/// What to wear. Around zero.
pub const WEAR_CHILLY: &'static str = "🧥 *Прохладно.* Понадобится теплая куртка, свитер или толстовка, шапка и перчатки. Подойдет легкая шапка и шарф, особенно при ветре.";

/// What to wear. From 5 to 10 degrees, in rain.
pub const WEAR_COOL_RAIN: &'static str = "🌂 *Прохладно и дождливо.* Возьмите водонепроницаемую куртку или плащ, зонт и наденьте водонепроницаемую обувь. Свитер или толстовка не помешают, так как на улице довольно прохладно.";

/// What to wear. From 5 to 10 degrees.
pub const WEAR_COOL: &'static str = "🧶 *Прохладно.* Подойдет легкая куртка или плотная кофта, джинсы или брюки. При сильном ветре может понадобиться шарф. Утром и вечером будет прохладнее - возьмите дополнительный слой одежды.";

/// What to wear. From 10 to 15 degrees, in rain.
pub const WEAR_MILD_RAIN: &'static str = "☔ *Умеренно прохладно и дождливо.* Возьмите зонт и наденьте водонепроницаемую куртку или плащ. Хорошим решением будет легкий свитер или кофта и удобная непромокаемая обувь.";

/// What to wear. From 10 to 15 degrees.
pub const WEAR_MILD: &'static str = "👕 *Умеренно прохладно.* Достаточно легкой куртки или кофты, можно надеть джинсы или брюки. Если проведете весь день на улице, возьмите дополнительный слой на вечер.";

/// What to wear. From 15 to 20 degrees, in rain.
pub const WEAR_WARM_RAIN: &'static str = "🌦️ *Тепло, но дождливо.* Возьмите зонт и легкую водонепроницаемую куртку или дождевик. Подойдет футболка и джинсы/брюки. Не забудьте про удобную непромокаемую обувь.";

/// What to wear. From 15 to 20 degrees.
pub const WEAR_WARM: &'static str = "👚 *Тепло.* Достаточно футболки, рубашки или блузки, подойдут легкие брюки, джинсы или юбка. Вечером может быть прохладнее, возьмите с собой легкую кофту или кардиган.";

/// What to wear. From 20 to 25 degrees, in rain.
pub const WEAR_FAIR_RAIN: &'static str = "🌤️ *Довольно тепло, но дождливо.* Легкая одежда (футболка, шорты или легкие брюки) и зонт. Дождевик может пригодиться если дождь сильный. Обувь лучше выбрать непромокаемую.";

/// What to wear. From 20 to 25 degrees.
pub const WEAR_FAIR: &'static str = "👗 *Довольно тепло.* Легкая одежда: футболка, рубашка или блузка, легкие брюки, шорты или юбка. Вечером может быть прохладнее, так что кофта не помешает.";

/// What to wear. From 25 to 30 degrees, in rain.
pub const WEAR_HOT_RAIN: &'static str = "🌞 *Жарко, но с дождем.* Максимально легкая одежда и зонтик. После дождя может быть влажно и душно - выбирайте дышащие натуральные ткани.";

/// What to wear. From 25 to 30 degrees.
pub const WEAR_HOT: &'static str = "☀️ *Жарко.* Максимально легкая одежда из натуральных тканей: футболка, шорты, сарафан или легкое платье. Обязательны головной убор и солнцезащитный крем. Берегитесь прямых солнечных лучей.";

/// What to wear. From 30 degrees, in rain.
pub const WEAR_HEAT_RAIN: &'static str = "🔥 *Очень жарко, возможны дожди.* Минимум самой легкой одежды из натуральных тканей. Носите светлые цвета. Зонт может пригодиться как для дождя, так и для защиты от солнца.";

/// What to wear. From 30 degrees.
pub const WEAR_HEAT: &'static str = "🔥 *Очень жарко!* Носите минимум самой легкой одежды из натуральных тканей, предпочтительно светлых цветов. Обязательны головной убор и солнцезащитный крем. Пейте больше воды и старайтесь находиться в тени. Избегайте активности на открытом солнце в пиковые часы.";

/// The service's word for rain.
pub const RAIN: &'static str = "Rain";

/// The service's word for drizzle.
pub const DRIZZLE: &'static str = "Drizzle";

/// The service's word for snow.
pub const SNOW: &'static str = "Snow";

/// Whether the service's word for the weather means rain of some kind.
pub open spec fn is_wet(kind: Seq<char>) -> bool {
    kind == RAIN@ || kind == DRIZZLE@
}

/// What to wear at a temperature, given in whole degrees Celsius rounded
/// down, in weather of the given kind. The bands begin at 25, 15 and 5
/// degrees of frost and at 5, 10, 15, 20, 25 and 30 degrees; from 5 degrees
/// of frost on, rain has its own advice, and around zero snow has too.
pub open spec fn clothing_recommendation(degrees: int, kind: Seq<char>) -> Seq<char> {
    if degrees < -25 {
        WEAR_EXTREME_COLD@
    } else if degrees < -15 {
        WEAR_SEVERE_COLD@
    } else if degrees < -5 {
        WEAR_COLD@
    } else if degrees < 5 {
        if is_wet(kind) {
            WEAR_CHILLY_RAIN@
        } else if kind == SNOW@ {
            WEAR_CHILLY_SNOW@
        } else {
            WEAR_CHILLY@
        }
    } else if degrees < 10 {
        if is_wet(kind) {
            WEAR_COOL_RAIN@
        } else {
            WEAR_COOL@
        }
    } else if degrees < 15 {
        if is_wet(kind) {
            WEAR_MILD_RAIN@
        } else {
            WEAR_MILD@
        }
    } else if degrees < 20 {
        if is_wet(kind) {
            WEAR_WARM_RAIN@
        } else {
            WEAR_WARM@
        }
    } else if degrees < 25 {
        if is_wet(kind) {
            WEAR_FAIR_RAIN@
        } else {
            WEAR_FAIR@
        }
    } else if degrees < 30 {
        if is_wet(kind) {
            WEAR_HOT_RAIN@
        } else {
            WEAR_HOT@
        }
    } else {
        if is_wet(kind) {
            WEAR_HEAT_RAIN@
        } else {
            WEAR_HEAT@
        }
    }
}

/// What to wear at a temperature, given in whole degrees Celsius rounded
/// down, in weather of the given kind.
pub fn get_clothing_recommendation(degrees: i32, weather_main: &str) -> (advice: &'static str)
    ensures
        advice@ == clothing_recommendation(degrees as int, weather_main@),
{
    let wet = same_text(weather_main, RAIN) || same_text(weather_main, DRIZZLE);
    if degrees < -25 {
        WEAR_EXTREME_COLD
    } else if degrees < -15 {
        WEAR_SEVERE_COLD
    } else if degrees < -5 {
        WEAR_COLD
    } else if degrees < 5 {
        if wet {
            WEAR_CHILLY_RAIN
        } else if same_text(weather_main, SNOW) {
            WEAR_CHILLY_SNOW
        } else {
            WEAR_CHILLY
        }
    } else if degrees < 10 {
        if wet {
            WEAR_COOL_RAIN
        } else {
            WEAR_COOL
        }
    } else if degrees < 15 {
        if wet {
            WEAR_MILD_RAIN
        } else {
            WEAR_MILD
        }
    } else if degrees < 20 {
        if wet {
            WEAR_WARM_RAIN
        } else {
            WEAR_WARM
        }
    } else if degrees < 25 {
        if wet {
            WEAR_FAIR_RAIN
        } else {
            WEAR_FAIR
        }
    } else if degrees < 30 {
        if wet {
            WEAR_HOT_RAIN
        } else {
            WEAR_HOT
        }
    } else {
        if wet {
            WEAR_HEAT_RAIN
        } else {
            WEAR_HEAT
        }
    }
}

} // verus!
