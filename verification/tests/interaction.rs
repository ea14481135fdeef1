use ferris_bot::interaction::{
    city_command, current_weather_reply, escape_reply_text, handle_callback_query, handle_commands,
    handle_message, pending_input, send_current_weather, send_help, send_start_message,
    send_weekly_forecast, set_city, set_time, text_message, time_command, user_or_default,
    weekly_forecast_reply, Command, CommandOutcome, Keyboard, Outcome, PendingInput, Reply,
    WeatherPlan,
};
use ferris_bot::messages;
use ferris_bot::storage::UserSettings;

fn user(id: i64) -> UserSettings {
    UserSettings::new(id)
}

fn awaiting(id: i64, tag: &str) -> UserSettings {
    let mut u = user(id);
    u.state = Some(tag.to_string());
    u
}

fn marked(text: &str) -> Reply {
    Reply { text: text.to_string(), markdown: true, keyboard: Keyboard::Absent }
}

fn plain(text: &str) -> Reply {
    Reply { text: text.to_string(), markdown: false, keyboard: Keyboard::Absent }
}

#[test]
fn reply_text_escapes_specials_and_doubles_for_exclamation() {
    assert_eq!(escape_reply_text("a.b"), "a\\.b");
    assert_eq!(escape_reply_text("08:00"), "08:00");
    assert_eq!(escape_reply_text("Hi!"), "Hi\\\\!");
    assert_eq!(escape_reply_text("_*[]()~`>#+-=|{}."), "\\_\\*\\[\\]\\(\\)\\~\\`\\>\\#\\+\\-\\=\\|\\{\\}\\.");
    assert_eq!(escape_reply_text(""), "");
    assert_eq!(escape_reply_text("Ростов-на-Дону"), "Ростов\\-на\\-Дону");
}

#[test]
fn pending_input_reads_the_tag() {
    assert_eq!(pending_input(&None), PendingInput::Idle);
    assert_eq!(pending_input(&Some(user(1))), PendingInput::Idle);
    assert_eq!(pending_input(&Some(awaiting(1, "waiting_for_city"))), PendingInput::AwaitingLocation);
    assert_eq!(pending_input(&Some(awaiting(1, "waiting_for_time"))), PendingInput::AwaitingTime);
    assert_eq!(pending_input(&Some(awaiting(1, "something else"))), PendingInput::Idle);
}

#[test]
fn unknown_subscriber_gets_the_default_record() {
    assert_eq!(user_or_default(None, 5), user(5));
    let mut known = user(5);
    known.cute_mode = true;
    assert_eq!(user_or_default(Some(known.clone()), 6), known);
}

#[test]
fn awaiting_location_empty_text_stays_awaiting() {
    let u = awaiting(1, messages::WAITING_FOR_CITY);
    let out = handle_message(Some(u), 1, Some(""));
    assert_eq!(out, Outcome { save: None, replies: vec![marked(messages::CITY_REPROMPT)] });
    let out = handle_message(Some(awaiting(1, messages::WAITING_FOR_CITY)), 1, Some("   \n"));
    assert_eq!(out.save, None);
}

#[test]
fn awaiting_location_springfield_is_stored() {
    let u = awaiting(1, messages::WAITING_FOR_CITY);
    let out = handle_message(Some(u), 1, Some("Springfield"));
    let mut want = user(1);
    want.city = Some("Springfield".to_string());
    assert_eq!(out.save, Some(want.clone()));
    assert_eq!(pending_input(&out.save), PendingInput::Idle);
    assert_eq!(
        out.replies,
        vec![marked(&format!(
            "{}Springfield{}",
            messages::CITY_STORED_PREFIX,
            messages::CITY_STORED_PLAIN_SUFFIX
        ))]
    );
}

#[test]
fn awaited_text_is_taken_without_surrounding_whitespace() {
    let out = handle_message(Some(awaiting(1, messages::WAITING_FOR_CITY)), 1, Some("  Нижний Новгород \n"));
    assert_eq!(out.save.unwrap().city, Some("Нижний Новгород".to_string()));
    let out = handle_message(Some(awaiting(1, messages::WAITING_FOR_TIME)), 1, Some(" 07:45 "));
    assert_eq!(out.save.unwrap().notification_time, Some("07:45".to_string()));
}

#[test]
fn awaiting_time_valid_time_is_stored() {
    let mut u = awaiting(3, messages::WAITING_FOR_TIME);
    u.cute_mode = true;
    u.city = Some("Омск".to_string());
    let out = text_message(Some(u), 3, "08:30");
    let mut want = user(3);
    want.cute_mode = true;
    want.city = Some("Омск".to_string());
    want.notification_time = Some("08:30".to_string());
    assert_eq!(out.save, Some(want));
    assert_eq!(
        out.replies,
        vec![marked(&format!(
            "{}08:30{}",
            messages::TIME_STORED_PREFIX,
            messages::TIME_STORED_CUTE_SUFFIX
        ))]
    );
}

#[test]
fn awaiting_time_invalid_time_stays_awaiting() {
    for bad in ["24:00", "9:60", "abc", "", "8:30"] {
        let out = text_message(Some(awaiting(3, messages::WAITING_FOR_TIME)), 3, bad);
        assert_eq!(out, Outcome { save: None, replies: vec![marked(messages::TIME_REPROMPT)] });
    }
}

#[test]
fn style_codes_switch_the_style() {
    let out = text_message(None, 4, "<3cute<3");
    let mut cute = user(4);
    cute.cute_mode = true;
    assert_eq!(out, Outcome { save: Some(cute.clone()), replies: vec![marked(messages::CUTE_MODE_ON)] });
    let out = text_message(Some(cute.clone()), 4, "/std");
    assert_eq!(out, Outcome { save: Some(user(4)), replies: vec![marked(messages::STANDARD_MODE_ON)] });
    let out = text_message(Some(user(4)), 4, "/std");
    assert_eq!(out, Outcome { save: None, replies: vec![plain(messages::NOT_UNDERSTOOD)] });
}

#[test]
fn other_text_is_not_understood() {
    let out = handle_message(Some(user(4)), 4, Some("hello"));
    assert_eq!(out, Outcome { save: None, replies: vec![plain(messages::NOT_UNDERSTOOD)] });
    let out = handle_message(None, 4, Some("08:00"));
    assert_eq!(out, Outcome { save: None, replies: vec![plain(messages::NOT_UNDERSTOOD)] });
}

#[test]
fn message_without_text_is_passed_over() {
    let out = handle_message(Some(awaiting(1, messages::WAITING_FOR_CITY)), 1, None);
    assert_eq!(out, Outcome { save: None, replies: vec![] });
}

#[test]
fn city_command_without_argument_awaits_the_city() {
    let out = set_city(None, 8, "  ");
    assert_eq!(out.save, Some(awaiting(8, messages::WAITING_FOR_CITY)));
    assert_eq!(
        out.replies,
        vec![Reply { text: messages::CHOOSE_CITY.to_string(), markdown: true, keyboard: Keyboard::Cities }]
    );
    assert_eq!(pending_input(&out.save), PendingInput::AwaitingLocation);
}

#[test]
fn city_command_manual_gives_a_hint() {
    let out = set_city(Some(user(8)), 8, " manual ");
    assert_eq!(out, Outcome { save: None, replies: vec![plain(messages::CITY_MANUAL_HINT)] });
}

#[test]
fn city_command_with_argument_stores_and_collapses_to_idle() {
    let mut before = awaiting(8, messages::WAITING_FOR_TIME);
    before.notification_time = Some("08:00".to_string());
    let out = set_city(Some(before), 8, " Санкт-Петербург ");
    let mut want = user(8);
    want.notification_time = Some("08:00".to_string());
    want.city = Some("Санкт-Петербург".to_string());
    assert_eq!(out.save, Some(want));
    assert_eq!(
        out.replies,
        vec![marked(&format!(
            "{}Санкт\\-Петербург{}",
            messages::CITY_STORED_PREFIX,
            messages::CITY_STORED_PLAIN_SUFFIX
        ))]
    );
    assert_eq!(city_command(None, 8, "Уфа").save.unwrap().city, Some("Уфа".to_string()));
}

#[test]
fn time_command_without_argument_awaits_the_time() {
    let out = set_time(Some(user(8)), 8, "");
    assert_eq!(out.save, Some(awaiting(8, messages::WAITING_FOR_TIME)));
    assert_eq!(
        out.replies,
        vec![Reply { text: messages::CHOOSE_TIME.to_string(), markdown: true, keyboard: Keyboard::Times }]
    );
}

#[test]
fn time_command_validates_before_it_stores() {
    let out = set_time(Some(user(8)), 8, "manual");
    assert_eq!(out, Outcome { save: None, replies: vec![plain(messages::TIME_MANUAL_HINT)] });
    for bad in ["24:00", "9:60", "abc", "8:00", "12:60"] {
        let out = time_command(Some(user(8)), 8, bad);
        assert_eq!(out, Outcome { save: None, replies: vec![plain(messages::TIME_FORMAT_ERROR)] });
    }
    let out = set_time(Some(awaiting(8, messages::WAITING_FOR_CITY)), 8, " 18:00 ");
    let mut want = user(8);
    want.notification_time = Some("18:00".to_string());
    assert_eq!(out.save, Some(want));
    assert_eq!(
        out.replies,
        vec![marked(&format!(
            "{}18:00{}",
            messages::TIME_STORED_PREFIX,
            messages::TIME_STORED_PLAIN_SUFFIX
        ))]
    );
}

#[test]
fn start_restores_the_standard_style() {
    let replies = || vec![marked(messages::WELCOME), plain(messages::START_HINT)];
    assert_eq!(send_start_message(None), Outcome { save: None, replies: replies() });
    assert_eq!(send_start_message(Some(user(2))), Outcome { save: None, replies: replies() });
    let mut cute = user(2);
    cute.cute_mode = true;
    cute.city = Some("Омск".to_string());
    let mut want = cute.clone();
    want.cute_mode = false;
    assert_eq!(send_start_message(Some(cute)), Outcome { save: Some(want), replies: replies() });
}

#[test]
fn welcome_text_reads_as_written() {
    assert!(messages::WELCOME.starts_with("📱 Добро пожаловать в FerrisBot!\n\nЯ твой персональный бот-помощник с погодой! Каждое утро"));
    assert!(messages::WELCOME.ends_with("/forecast - получить прогноз погоды на неделю\n/help - показать список всех команд"));
    assert!(messages::HELP_PLAIN.starts_with("🌟 Доступные команды:\n\n/start - начать работу с ботом\n/help"));
    assert!(messages::HELP_CUTE.ends_with("покажут интерактивное меню для выбора\\!"));
}

#[test]
fn help_follows_the_style() {
    assert_eq!(send_help(&None), Outcome { save: None, replies: vec![marked(messages::HELP_PLAIN)] });
    let mut cute = user(2);
    cute.cute_mode = true;
    assert_eq!(send_help(&Some(cute)), Outcome { save: None, replies: vec![marked(messages::HELP_CUTE)] });
}

#[test]
fn weather_request_needs_a_known_subscriber_with_a_city() {
    assert_eq!(send_current_weather(&None), WeatherPlan::Tell(marked(messages::NEEDS_SETUP)));
    assert_eq!(send_weekly_forecast(&Some(user(1))), WeatherPlan::Tell(marked(messages::NO_CITY)));
    let mut u = user(1);
    u.city = Some("Омск".to_string());
    u.cute_mode = true;
    assert_eq!(
        send_current_weather(&Some(u)),
        WeatherPlan::Fetch { city: "Омск".to_string(), cute_mode: true }
    );
}

#[test]
fn weather_replies_are_written_in_the_style() {
    let ok: Result<String, String> = Ok("+5.0°C".to_string());
    let err: Result<String, String> = Err("timeout (5s)".to_string());
    assert_eq!(current_weather_reply("Омск", false, &ok), marked("🌦️ Погода в Омск\n\n\\+5\\.0°C"));
    assert_eq!(
        current_weather_reply("Омск", true, &ok),
        marked("💖 Специально для тебя, погода в Омск\n\n\\+5\\.0°C")
    );
    assert_eq!(
        current_weather_reply("Омск", true, &err),
        marked("❌ Не удалось получить погоду:\ntimeout \\(5s\\)\n\nПроверь правильность названия города или попробуй позже.")
    );
    assert_eq!(
        weekly_forecast_reply("Омск", false, &ok),
        marked("🗓 Прогноз погоды на неделю в Омск\n\n\\+5\\.0°C")
    );
    assert_eq!(
        weekly_forecast_reply("Омск", true, &ok),
        marked("✨ Прогноз погоды на неделю в Омск\n\nСпециально для тебя я подготовил(а) детальный прогноз:\n\n\\+5\\.0°C")
    );
    assert_eq!(
        weekly_forecast_reply("Омск", false, &err),
        marked("❌ Не удалось получить прогноз:\ntimeout \\(5s\\)\n\nПроверь правильность названия города или попробуй позже.")
    );
}

#[test]
fn city_buttons_store_or_await() {
    let out = handle_callback_query(None, 9, Some("city_manual"));
    assert_eq!(
        out,
        Outcome { save: Some(awaiting(9, messages::WAITING_FOR_CITY)), replies: vec![marked(messages::ASK_CITY)] }
    );
    let out = handle_callback_query(Some(awaiting(9, messages::WAITING_FOR_TIME)), 9, Some("city_Москва"));
    let mut want = user(9);
    want.city = Some("Москва".to_string());
    assert_eq!(out.save, Some(want));
    assert_eq!(
        out.replies,
        vec![marked(&format!("{}Москва{}", messages::CITY_STORED_PREFIX, messages::CITY_STORED_PLAIN_SUFFIX))]
    );
}

#[test]
fn city_button_data_loses_every_prefix() {
    let out = handle_callback_query(None, 9, Some("city_city_Уфа"));
    assert_eq!(out.save.unwrap().city, Some("Уфа".to_string()));
    let out = handle_callback_query(None, 9, Some("city_Ново_city_сибирск"));
    assert_eq!(out.save.unwrap().city, Some("Ново_сибирск".to_string()));
}

#[test]
fn time_buttons_store_valid_times_only() {
    let out = handle_callback_query(None, 9, Some("time_manual"));
    assert_eq!(
        out,
        Outcome { save: Some(awaiting(9, messages::WAITING_FOR_TIME)), replies: vec![marked(messages::ASK_TIME)] }
    );
    let out = handle_callback_query(Some(awaiting(9, messages::WAITING_FOR_CITY)), 9, Some("time_08:00"));
    let mut want = user(9);
    want.notification_time = Some("08:00".to_string());
    assert_eq!(out.save, Some(want));
    let out = handle_callback_query(Some(user(9)), 9, Some("time_25:00"));
    assert_eq!(out, Outcome { save: None, replies: vec![plain(messages::TIME_FORMAT_ERROR)] });
    let out = handle_callback_query(Some(user(9)), 9, Some("time_"));
    assert_eq!(out, Outcome { save: None, replies: vec![plain(messages::TIME_FORMAT_ERROR)] });
}

#[test]
fn other_button_data_is_passed_over() {
    assert_eq!(handle_callback_query(Some(user(9)), 9, Some("mode_cute")), Outcome { save: None, replies: vec![] });
    assert_eq!(handle_callback_query(Some(user(9)), 9, Some("xcity_Уфа")), Outcome { save: None, replies: vec![] });
    assert_eq!(handle_callback_query(Some(user(9)), 9, Some("")), Outcome { save: None, replies: vec![] });
    assert_eq!(handle_callback_query(Some(user(9)), 9, None), Outcome { save: None, replies: vec![] });
}

#[test]
fn commands_go_to_their_handlers() {
    assert_eq!(handle_commands(None, 1, &Command::Start), CommandOutcome::Done(send_start_message(None)));
    assert_eq!(handle_commands(None, 1, &Command::Help), CommandOutcome::Done(send_help(&None)));
    assert_eq!(
        handle_commands(None, 1, &Command::City(" Омск".to_string())),
        CommandOutcome::Done(set_city(None, 1, "Омск"))
    );
    assert_eq!(
        handle_commands(None, 1, &Command::Time("08:00".to_string())),
        CommandOutcome::Done(set_time(None, 1, "08:00"))
    );
    assert_eq!(
        handle_commands(None, 1, &Command::Weather),
        CommandOutcome::Weather(WeatherPlan::Tell(marked(messages::NEEDS_SETUP)))
    );
    let mut u = user(1);
    u.city = Some("Омск".to_string());
    assert_eq!(
        handle_commands(Some(u), 1, &Command::Forecast),
        CommandOutcome::Forecast(WeatherPlan::Fetch { city: "Омск".to_string(), cute_mode: false })
    );
}
