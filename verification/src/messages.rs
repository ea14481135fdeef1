//! The texts that the bot sends, word for word.

use crate::clock::Weekday;
use vstd::prelude::*;

verus! {

// Tags and codes

/// The tag of a subscriber whose next message is taken as a delivery time.
pub const WAITING_FOR_TIME: &'static str = "waiting_for_time";

/// The tag of a subscriber whose next message is taken as a city.
pub const WAITING_FOR_CITY: &'static str = "waiting_for_city";

/// The message that switches the affectionate style on.
pub const CUTE_CODE: &'static str = "<3cute<3";

/// The message that switches the affectionate style off.
pub const STANDARD_CODE: &'static str = "/std";

/// The command argument that asks how to enter a value by hand.
pub const MANUAL: &'static str = "manual";

/// The beginning of the data of every city button.
pub const CITY_PREFIX: &'static str = "city_";

/// The data of the button for entering a city by hand.
pub const CITY_MANUAL: &'static str = "city_manual";

/// The beginning of the data of every time button.
pub const TIME_PREFIX: &'static str = "time_";

/// The data of the button for entering a time by hand.
pub const TIME_MANUAL: &'static str = "time_manual";

/// The time of the midday broadcast.
pub const NOON: &'static str = "12:00";

/// The time of the evening broadcast.
pub const EVENING: &'static str = "18:00";

// Answers to messages and commands

/// Opens the confirmation of a delivery time.
pub const TIME_STORED_PREFIX: &'static str = "⏰ Время уведомлений установлено: ";

/// Closes the confirmation of a delivery time, affectionate style.
pub const TIME_STORED_CUTE_SUFFIX: &'static str = "\n\nТеперь каждый день в это время я буду отправлять тебе прогноз погоды и милое сообщение! 💖";

/// Closes the confirmation of a delivery time, standard style.
pub const TIME_STORED_PLAIN_SUFFIX: &'static str = "\n\nТеперь каждый день в это время вы будете получать актуальный прогноз погоды.";

/// Asks again for a delivery time.
pub const TIME_REPROMPT: &'static str = "⚠️ Некорректный формат времени\n\nПожалуйста, введите время в формате ЧЧ:ММ (например: 08:30).\n\nДопустимое время: от 00:00 до 23:59";

/// Opens the confirmation of a city.
pub const CITY_STORED_PREFIX: &'static str = "🌆 Город успешно установлен: ";

/// Closes the confirmation of a city, affectionate style.
pub const CITY_STORED_CUTE_SUFFIX: &'static str = "\n\nТеперь ты можешь:\n• Узнать текущую погоду с помощью /weather\n• Установить время для ежедневных уведомлений командой /time";

/// Closes the confirmation of a city, standard style.
pub const CITY_STORED_PLAIN_SUFFIX: &'static str = "\n\nВы можете:\n• Узнать текущую погоду с помощью /weather\n• Установить время для ежедневных уведомлений командой /time";

/// Asks again for a city.
pub const CITY_REPROMPT: &'static str = "⚠️ Название города не может быть пустым\n\nПожалуйста, введите корректное название населенного пункта\\.";

/// Confirms the affectionate style.
pub const CUTE_MODE_ON: &'static str = "💕 *Милый режим активирован!*\n\nТеперь бот будет отправлять тебе милые сообщения и пожелания. Твой персональный бот-помощник всегда рядом!";

/// Confirms the standard style.
pub const STANDARD_MODE_ON: &'static str = "🔄 Стандартный режим активирован. Бот будет отправлять только информативные сообщения о погоде.";

/// Answers a message that is no command.
pub const NOT_UNDERSTOOD: &'static str = "Я понимаю только команды. Используйте /help для получения списка доступных команд.";

/// Greets a subscriber who starts the bot.
pub const WELCOME: &'static str = "📱 Добро пожаловать в FerrisBot!\n\n\
    Я твой персональный бот-помощник с погодой! \
    Каждое утро я буду отправлять тебе актуальный прогноз погоды в указанное время.\n\n\
    Что я умею:\n\
    • 🌦️ Отправлять ежедневный прогноз погоды в твоем городе\n\
    • 🕒 Автоматически присылать прогноз в указанное время\n\
    • 🔍 Предоставлять прогноз по запросу в любое время\n\n\
    Для начала работы:\n\
    1️⃣ Сначала установи свой город командой /city\n\
    2️⃣ Затем установи время уведомлений: /time\n\
    3️⃣ Готово! Бот будет присылать прогноз погоды по расписанию\n\n\
    Важно: При вводе команд /city и /time можно выбрать вариант из меню или ввести значение вручную.\n\n\
    Другие команды:\n\
    /weather - получить текущий прогноз погоды\n\
    /forecast - получить прогноз погоды на неделю\n\
    /help - показать список всех команд";

/// Follows the greeting.
pub const START_HINT: &'static str = "👉 Пожалуйста, начните с установки вашего города командой /city";

/// The list of commands, affectionate style.
pub const HELP_CUTE: &'static str = "✨ Доступные команды:\n\n\
    /start - начать работу с ботом\n\
    /help - показать это сообщение\n\
    /city - выбрать город из списка или ввести вручную\n\
    /time - выбрать время уведомлений из списка или ввести вручную\n\
    /weather - узнать текущую погоду\n\
    /forecast - получить прогноз погоды на неделю 💖\n\n\
    Совет: Команды /city и /time без параметров покажут интерактивное меню для выбора\\!";

/// The list of commands, standard style.
pub const HELP_PLAIN: &'static str = "🌟 Доступные команды:\n\n\
    /start - начать работу с ботом\n\
    /help - показать это сообщение\n\
    /city - выбрать город из списка или ввести вручную\n\
    /time - выбрать время уведомлений из списка или ввести вручную\n\
    /weather - узнать текущую погоду\n\
    /forecast - получить прогноз погоды на неделю\n\n\
    Совет: Команды /city и /time без параметров покажут интерактивное меню для выбора\\!";

/// Stands above the city buttons.
pub const CHOOSE_CITY: &'static str = "🏙️ *Выберите город из списка или введите его вручную*\n\nДля ручного ввода используйте команду /city \\[название города\\]";

/// Explains how to give a city with the command.
pub const CITY_MANUAL_HINT: &'static str = "✏️ Пожалуйста, введите название вашего города после команды, например:\n/city Москва";

/// Stands above the time buttons.
pub const CHOOSE_TIME: &'static str = "⏰ *Выберите время ежедневных уведомлений о погоде*\n\nДля ручного ввода используйте команду /time \\[ЧЧ:ММ\\]";

/// Explains how to give a time with the command.
pub const TIME_MANUAL_HINT: &'static str = "✏️ Пожалуйста, введите время в формате ЧЧ:ММ после команды, например:\n/time 08:00";

/// Refuses a malformed delivery time.
pub const TIME_FORMAT_ERROR: &'static str = "⚠️ Некорректный формат времени. Используйте формат HH:MM, например: 08:00";

/// Asks for a city in the next message.
pub const ASK_CITY: &'static str = "🏙️ Ввод города вручную\n\nПожалуйста, напишите название вашего города.\n\nПримеры: Москва, Санкт-Петербург, Новосибирск";

/// Asks for a delivery time in the next message.
pub const ASK_TIME: &'static str = "⏰ Ввод времени вручную\n\nПожалуйста, напишите время в формате ЧЧ:ММ, например: 08:30\n\nДопустимое время: от 00:00 до 23:59";

// Weather on request

/// Parts two paragraphs.
pub const BLANK_LINE: &'static str = "\n\n";

/// Opens the current weather, affectionate style.
pub const WEATHER_CUTE_PREFIX: &'static str = "💖 Специально для тебя, погода в ";

/// Opens the current weather, standard style.
pub const WEATHER_PLAIN_PREFIX: &'static str = "🌦️ Погода в ";

/// Opens the notice that the current weather could not be had.
pub const WEATHER_ERROR_PREFIX: &'static str = "❌ Не удалось получить погоду:\n";

/// Closes a notice that the weather could not be had.
pub const ERROR_ADVICE: &'static str = "\n\nПроверь правильность названия города или попробуй позже.";

/// Tells a subscriber without a city to choose one.
pub const NO_CITY: &'static str = "⚠️ Город не установлен\n\nПожалуйста, используй команду /city, чтобы установить город.";

/// Tells an unknown subscriber to set the bot up.
pub const NEEDS_SETUP: &'static str = "⚠️ Требуется настройка\n\nПожалуйста, настрой бота с помощью команды /city.";

/// Opens the weekly forecast, affectionate style.
pub const FORECAST_CUTE_PREFIX: &'static str = "✨ Прогноз погоды на неделю в ";

/// Stands between city and forecast, affectionate style.
pub const FORECAST_CUTE_MIDDLE: &'static str = "\n\nСпециально для тебя я подготовил(а) детальный прогноз:\n\n";

/// Opens the weekly forecast, standard style.
pub const FORECAST_PLAIN_PREFIX: &'static str = "🗓 Прогноз погоды на неделю в ";

/// Opens the notice that the forecast could not be had.
pub const FORECAST_ERROR_PREFIX: &'static str = "❌ Не удалось получить прогноз:\n";

// Scheduled deliveries

/// Stands before the city of a scheduled delivery.
pub const WEATHER_IN: &'static str = "\n\n🌦 *Погода в ";

/// Stands behind the city of a scheduled delivery.
pub const AFTER_CITY: &'static str = "*\n\n";

/// The heading of a personal delivery, standard style.
pub const MORNING_HEADER: &'static str = "🌅 *Утренний прогноз погоды*";

/// The heading of the midday broadcast, standard style.
pub const NOON_HEADER: &'static str = "🕛 *Дневной прогноз погоды*";

/// The heading of the evening broadcast, standard style.
pub const EVENING_HEADER: &'static str = "🌆 *Вечерний прогноз погоды*";

/// Opens the notice of a failed personal delivery, affectionate style.
pub const ERROR_NOTICE_CUTE: &'static str = "Доброе утро\\! К сожалению, не удалось получить данные о погоде: ";

/// Opens the notice of a failed personal delivery, standard style.
pub const ERROR_NOTICE_PLAIN: &'static str = "❌ *Ошибка*: Не удалось получить данные о погоде: ";

/// The morning greeting of Monday.
pub const MORNING_MON: &'static str = "*Доброе утро, милая!* ✨\nНачинается новая неделя, и я знаю, что ты справишься со всем!";

/// The morning greeting of Tuesday.
pub const MORNING_TUE: &'static str = "*Доброе утречко!* 🌸\nУже вторник! День, когда можно горы свернуть!";

/// The morning greeting of Wednesday.
pub const MORNING_WED: &'static str = "*Доброе утро, солнышко!* 💫\nСередина недели - время для маленьких радостей!";

/// The morning greeting of Thursday.
pub const MORNING_THU: &'static str = "*Доброе утро, красотка!* 🌿\nЧетверг - почти пятница! Ты молодец!";

/// The morning greeting of Friday.
pub const MORNING_FRI: &'static str = "*С добрым утром!* 🎉\nПятница наступила! Впереди выходные!";

/// The morning greeting of Saturday.
pub const MORNING_SAT: &'static str = "*Доброе утро!* ☀️\nНаконец-то суббота! Время для отдыха и приятных дел!";

/// The morning greeting of Sunday.
pub const MORNING_SUN: &'static str = "*Доброе утречко!* 🌤️\nВоскресенье - идеальный день, чтобы побаловать себя!";

/// The midday greeting of Monday.
pub const NOON_MON: &'static str = "*Добрый день!* 🌤️\nНадеюсь, первая половина понедельника прошла продуктивно!";

/// The midday greeting of Tuesday.
pub const NOON_TUE: &'static str = "*Добрый день!* ☀️\nВторник в самом разгаре! Как проходит твой день?";

/// The midday greeting of Wednesday.
pub const NOON_WED: &'static str = "*Добрый день!* 🌈\nСередина недели - время для небольшого перерыва и вкусного обеда!";

/// The midday greeting of Thursday.
pub const NOON_THU: &'static str = "*Приятного дня!* 🌻\nЧетверг - почти пятница! Держись, осталось совсем немного!";

/// The midday greeting of Friday.
pub const NOON_FRI: &'static str = "*Добрый день!* 🎉\nПятница, день прекрасный! Скоро выходные!";

/// The midday greeting of Saturday.
pub const NOON_SAT: &'static str = "*Прекрасного дня!* 🍹\nНадеюсь, твоя суббота наполнена приятными моментами!";

/// The midday greeting of Sunday.
pub const NOON_SUN: &'static str = "*Добрый день!* 🌞\nВоскресенье - время отдыха и подготовки к новой неделе!";

/// The evening greeting of Monday.
pub const EVENING_MON: &'static str = "*Добрый вечер!* 🌙\nПервый день недели почти позади! Ты молодец!";

/// The evening greeting of Tuesday.
pub const EVENING_TUE: &'static str = "*Добрый вечер!* 🌆\nКак прошел твой вторник? Надеюсь, продуктивно и с улыбкой!";

/// The evening greeting of Wednesday.
pub const EVENING_WED: &'static str = "*Добрый вечер!* ✨\nСередина недели позади! Ты уже на пути к выходным!";

/// The evening greeting of Thursday.
pub const EVENING_THU: &'static str = "*Приятного вечера!* 🌟\nЗавтра пятница! Совсем немного осталось!";

/// The evening greeting of Friday.
pub const EVENING_FRI: &'static str = "*Прекрасного вечера!* 🥂\nПоздравляю с началом выходных! Пора отдохнуть!";

/// The evening greeting of Saturday.
pub const EVENING_SAT: &'static str = "*Добрый вечер!* 🎭\nНадеюсь, суббота была наполнена приятными событиями!";

/// The evening greeting of Sunday.
pub const EVENING_SUN: &'static str = "*Спокойного вечера!* 🌠\nВпереди новая неделя! Время настроиться на продуктивный лад!";

/// A kind word, number 0.
pub const CUTE_0: &'static str = "Ты самая прекрасная! Не забывай улыбаться сегодня! 💕";

/// A kind word, number 1.
pub const CUTE_1: &'static str = "Твоя улыбка способна осветить даже самый пасмурный день! 💖";

/// A kind word, number 2.
pub const CUTE_2: &'static str = "Не позволяй никому испортить твое настроение сегодня! Ты заслуживаешь только счастья! ✨";

/// A kind word, number 3.
pub const CUTE_3: &'static str = "Сегодня отличный день, чтобы начать что-то новое! Я верю в тебя! 🌟";

/// A kind word, number 4.
pub const CUTE_4: &'static str = "Помни, что ты особенная и удивительная! 💫";

/// A kind word, number 5.
pub const CUTE_5: &'static str = "Даже в самый обычный день важно находить моменты счастья! 🌸";

/// A kind word, number 6.
pub const CUTE_6: &'static str = "Твоя энергия и позитив заряжают всех вокруг! Так держать! 💝";

/// A kind word, number 7.
pub const CUTE_7: &'static str = "Надеюсь, сегодня тебя ждут приятные сюрпризы! 🎁";

/// A kind word, number 8.
pub const CUTE_8: &'static str = "Пусть этот день принесет тебе много радости и успехов! 🌈";

/// A kind word, number 9.
pub const CUTE_9: &'static str = "Ты сильнее, чем думаешь! Сегодня день новых возможностей! ⭐";

/// A wish for the day, number 0.
pub const WISH_0: &'static str = "Желаю тебе чудесного дня! 💫";

/// A wish for the day, number 1.
pub const WISH_1: &'static str = "Пусть сегодня тебя окружает только позитив! 🌈";

/// A wish for the day, number 2.
pub const WISH_2: &'static str = "Хорошего и продуктивного дня! ✨";

/// A wish for the day, number 3.
pub const WISH_3: &'static str = "Желаю, чтобы этот день был наполнен приятными моментами! 💖";

/// A wish for the day, number 4.
pub const WISH_4: &'static str = "Пусть твой день будет таким же прекрасным, как и ты! 🌸";

/// A wish for the day, number 5.
pub const WISH_5: &'static str = "Верю, что сегодня у тебя всё получится! 💪";

/// A wish for the day, number 6.
pub const WISH_6: &'static str = "Удачного дня и легкого настроения! 🍀";

/// A wish for the day, number 7.
pub const WISH_7: &'static str = "Пусть каждый час этого дня подарит тебе что-то хорошее! ⏰";

/// A wish for the day, number 8.
pub const WISH_8: &'static str = "Прекрасного настроения на весь день! 🌞";

/// A wish for the day, number 9.
pub const WISH_9: &'static str = "Пусть сегодня всё идет по твоему плану! 📝";

// Buttons

/// City button number 0.
pub const CITY_0: &'static str = "Москва";

/// City button number 1.
pub const CITY_1: &'static str = "Санкт-Петербург";

/// City button number 2.
pub const CITY_2: &'static str = "Новосибирск";

/// City button number 3.
pub const CITY_3: &'static str = "Екатеринбург";

/// City button number 4.
pub const CITY_4: &'static str = "Тюмень";

/// City button number 5.
pub const CITY_5: &'static str = "Нижний Новгород";

/// City button number 6.
pub const CITY_6: &'static str = "Челябинск";

/// City button number 7.
pub const CITY_7: &'static str = "Самара";

/// City button number 8.
pub const CITY_8: &'static str = "Омск";

/// City button number 9.
pub const CITY_9: &'static str = "Ростов-на-Дону";

/// City button number 10.
pub const CITY_10: &'static str = "Уфа";

/// City button number 11.
pub const CITY_11: &'static str = "Красноярск";

/// City button number 12.
pub const CITY_12: &'static str = "Воронеж";

/// City button number 13.
pub const CITY_13: &'static str = "Пермь";

/// City button number 14.
pub const CITY_14: &'static str = "Волгоград";

/// The label of the button for entering a city by hand.
pub const CITY_MANUAL_LABEL: &'static str = "Ввести город вручную";

/// Time button number 0.
pub const TIME_0: &'static str = "06:00";

/// Time button number 1.
pub const TIME_1: &'static str = "07:00";

/// Time button number 2.
pub const TIME_2: &'static str = "08:00";

/// Time button number 3.
pub const TIME_3: &'static str = "09:00";

/// Time button number 4.
pub const TIME_4: &'static str = "12:00";

/// Time button number 5.
pub const TIME_5: &'static str = "14:00";

/// Time button number 6.
pub const TIME_6: &'static str = "16:00";

/// Time button number 7.
pub const TIME_7: &'static str = "18:00";

/// Time button number 8.
pub const TIME_8: &'static str = "20:00";

/// Time button number 9.
pub const TIME_9: &'static str = "22:00";

/// The label of the button for entering a time by hand.
pub const TIME_MANUAL_LABEL: &'static str = "Ввести время вручную";

/// The greeting that opens a personal delivery on the given day.
pub open spec fn morning_greeting(day: Weekday) -> Seq<char> {
    match day {
        Weekday::Mon => MORNING_MON@,
        Weekday::Tue => MORNING_TUE@,
        Weekday::Wed => MORNING_WED@,
        Weekday::Thu => MORNING_THU@,
        Weekday::Fri => MORNING_FRI@,
        Weekday::Sat => MORNING_SAT@,
        Weekday::Sun => MORNING_SUN@,
    }
}

/// The greeting that opens a personal delivery on the given day.
pub fn get_greeting(day: Weekday) -> (text: &'static str)
    ensures
        text@ == morning_greeting(day),
{
    match day {
        Weekday::Mon => MORNING_MON,
        Weekday::Tue => MORNING_TUE,
        Weekday::Wed => MORNING_WED,
        Weekday::Thu => MORNING_THU,
        Weekday::Fri => MORNING_FRI,
        Weekday::Sat => MORNING_SAT,
        Weekday::Sun => MORNING_SUN,
    }
}

/// The greeting that opens the midday broadcast on the given day.
pub open spec fn noon_greeting(day: Weekday) -> Seq<char> {
    match day {
        Weekday::Mon => NOON_MON@,
        Weekday::Tue => NOON_TUE@,
        Weekday::Wed => NOON_WED@,
        Weekday::Thu => NOON_THU@,
        Weekday::Fri => NOON_FRI@,
        Weekday::Sat => NOON_SAT@,
        Weekday::Sun => NOON_SUN@,
    }
}

/// The greeting that opens the midday broadcast on the given day.
pub fn get_noon_greeting(day: Weekday) -> (text: &'static str)
    ensures
        text@ == noon_greeting(day),
{
    match day {
        Weekday::Mon => NOON_MON,
        Weekday::Tue => NOON_TUE,
        Weekday::Wed => NOON_WED,
        Weekday::Thu => NOON_THU,
        Weekday::Fri => NOON_FRI,
        Weekday::Sat => NOON_SAT,
        Weekday::Sun => NOON_SUN,
    }
}

/// The greeting that opens the evening broadcast on the given day.
pub open spec fn evening_greeting(day: Weekday) -> Seq<char> {
    match day {
        Weekday::Mon => EVENING_MON@,
        Weekday::Tue => EVENING_TUE@,
        Weekday::Wed => EVENING_WED@,
        Weekday::Thu => EVENING_THU@,
        Weekday::Fri => EVENING_FRI@,
        Weekday::Sat => EVENING_SAT@,
        Weekday::Sun => EVENING_SUN@,
    }
}

/// The greeting that opens the evening broadcast on the given day.
pub fn get_evening_greeting(day: Weekday) -> (text: &'static str)
    ensures
        text@ == evening_greeting(day),
{
    match day {
        Weekday::Mon => EVENING_MON,
        Weekday::Tue => EVENING_TUE,
        Weekday::Wed => EVENING_WED,
        Weekday::Thu => EVENING_THU,
        Weekday::Fri => EVENING_FRI,
        Weekday::Sat => EVENING_SAT,
        Weekday::Sun => EVENING_SUN,
    }
}

/// The kind word with the given number; every number from nine on gives the last.
pub open spec fn cute_message(pick: int) -> Seq<char> {
    if pick == 0 {
        CUTE_0@
    } else     if pick == 1 {
        CUTE_1@
    } else     if pick == 2 {
        CUTE_2@
    } else     if pick == 3 {
        CUTE_3@
    } else     if pick == 4 {
        CUTE_4@
    } else     if pick == 5 {
        CUTE_5@
    } else     if pick == 6 {
        CUTE_6@
    } else     if pick == 7 {
        CUTE_7@
    } else     if pick == 8 {
        CUTE_8@
    } else {
        CUTE_9@
    }
}

/// The kind word with the given number; every number from nine on gives the last.
pub fn cute_message_at(pick: usize) -> (text: &'static str)
    ensures
        text@ == cute_message(pick as int),
{
    match pick {
        0 => CUTE_0,
        1 => CUTE_1,
        2 => CUTE_2,
        3 => CUTE_3,
        4 => CUTE_4,
        5 => CUTE_5,
        6 => CUTE_6,
        7 => CUTE_7,
        8 => CUTE_8,
        _ => CUTE_9,
    }
}

/// The wish with the given number; every number from nine on gives the last.
pub open spec fn good_day_wish(pick: int) -> Seq<char> {
    if pick == 0 {
        WISH_0@
    } else     if pick == 1 {
        WISH_1@
    } else     if pick == 2 {
        WISH_2@
    } else     if pick == 3 {
        WISH_3@
    } else     if pick == 4 {
        WISH_4@
    } else     if pick == 5 {
        WISH_5@
    } else     if pick == 6 {
        WISH_6@
    } else     if pick == 7 {
        WISH_7@
    } else     if pick == 8 {
        WISH_8@
    } else {
        WISH_9@
    }
}

/// The wish with the given number; every number from nine on gives the last.
pub fn good_day_wish_at(pick: usize) -> (text: &'static str)
    ensures
        text@ == good_day_wish(pick as int),
{
    match pick {
        0 => WISH_0,
        1 => WISH_1,
        2 => WISH_2,
        3 => WISH_3,
        4 => WISH_4,
        5 => WISH_5,
        6 => WISH_6,
        7 => WISH_7,
        8 => WISH_8,
        _ => WISH_9,
    }
}

} // verus!
