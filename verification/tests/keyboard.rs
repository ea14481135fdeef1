use ferris_bot::interaction::handle_callback_query;
use ferris_bot::keyboard::{city_at, get_city_keyboard, get_time_keyboard, time_at, Button};
use ferris_bot::timefmt::is_valid_time_format;

fn button(text: &str, data: &str) -> Button {
    Button { text: text.to_string(), data: data.to_string() }
}

#[test]
fn city_keyboard_has_five_rows_of_three_and_the_manual_row() {
    let kb = get_city_keyboard();
    assert_eq!(kb.len(), 6);
    assert_eq!(
        kb[0],
        vec![
            button("Москва", "city_Москва"),
            button("Санкт-Петербург", "city_Санкт-Петербург"),
            button("Новосибирск", "city_Новосибирск"),
        ]
    );
    assert_eq!(
        kb[1],
        vec![
            button("Екатеринбург", "city_Екатеринбург"),
            button("Тюмень", "city_Тюмень"),
            button("Нижний Новгород", "city_Нижний Новгород"),
        ]
    );
    assert_eq!(
        kb[2],
        vec![button("Челябинск", "city_Челябинск"), button("Самара", "city_Самара"), button("Омск", "city_Омск")]
    );
    assert_eq!(
        kb[3],
        vec![
            button("Ростов-на-Дону", "city_Ростов-на-Дону"),
            button("Уфа", "city_Уфа"),
            button("Красноярск", "city_Красноярск"),
        ]
    );
    assert_eq!(
        kb[4],
        vec![button("Воронеж", "city_Воронеж"), button("Пермь", "city_Пермь"), button("Волгоград", "city_Волгоград")]
    );
    assert_eq!(kb[5], vec![button("Ввести город вручную", "city_manual")]);
}

#[test]
fn time_keyboard_has_morning_day_evening_and_the_manual_row() {
    let kb = get_time_keyboard();
    assert_eq!(
        kb,
        vec![
            vec![
                button("06:00", "time_06:00"),
                button("07:00", "time_07:00"),
                button("08:00", "time_08:00"),
                button("09:00", "time_09:00"),
            ],
            vec![button("12:00", "time_12:00"), button("14:00", "time_14:00"), button("16:00", "time_16:00")],
            vec![button("18:00", "time_18:00"), button("20:00", "time_20:00"), button("22:00", "time_22:00")],
            vec![button("Ввести время вручную", "time_manual")],
        ]
    );
}

#[test]
fn numbers_past_the_end_give_the_last_value() {
    assert_eq!(city_at(0), "Москва");
    assert_eq!(city_at(14), "Волгоград");
    assert_eq!(city_at(15), "Волгоград");
    assert_eq!(time_at(0), "06:00");
    assert_eq!(time_at(9), "22:00");
    assert_eq!(time_at(usize::MAX), "22:00");
}

#[test]
fn every_time_button_stores_the_time_it_shows() {
    for row in get_time_keyboard().iter().take(3) {
        for b in row {
            assert!(is_valid_time_format(&b.text));
            let out = handle_callback_query(None, 1, Some(&b.data));
            assert_eq!(out.save.unwrap().notification_time, Some(b.text.clone()));
        }
    }
}

#[test]
fn every_city_button_stores_the_city_it_shows() {
    for row in get_city_keyboard().iter().take(5) {
        for b in row {
            let out = handle_callback_query(None, 1, Some(&b.data));
            assert_eq!(out.save.unwrap().city, Some(b.text.clone()));
        }
    }
}
