//! The buttons that are shown for choosing a city or a delivery time.

use crate::messages::{
    CITY_0, CITY_1, CITY_2, CITY_3, CITY_4, CITY_5, CITY_6, CITY_7, CITY_8, CITY_9, CITY_10, CITY_11, CITY_12, CITY_13, CITY_14, TIME_0, TIME_1, TIME_2, TIME_3, TIME_4, TIME_5, TIME_6, TIME_7, TIME_8, TIME_9, CITY_MANUAL, CITY_MANUAL_LABEL, CITY_PREFIX, TIME_MANUAL, TIME_MANUAL_LABEL, TIME_PREFIX,
};
use crate::interaction::{callback_outcome, or_default, with_city, with_time};
use crate::storage::UserView;
use crate::text::{join, lemma_without_prefix};
use crate::timefmt::valid_time;
use vstd::prelude::*;
use vstd::string::*;

verus! {

/// One button: what it shows, and the data that comes back when it is
/// pressed.
#[derive(Debug, PartialEq, Eq)]
pub struct Button {
    pub text: String,
    pub data: String,
}

/// The mathematical content of a [`Button`].
pub struct ButtonView {
    pub text: Seq<char>,
    pub data: Seq<char>,
}

impl View for Button {
    type V = ButtonView;

    open spec fn view(&self) -> ButtonView {
        ButtonView { text: self.text@, data: self.data@ }
    }
}

/// The contents of a row of buttons.
pub open spec fn row_view(row: Seq<Button>) -> Seq<ButtonView> {
    row.map_values(|b: Button| b@)
}

/// The contents of a keyboard: its rows from the top, each from the left.
pub open spec fn keyboard_view(rows: Seq<Vec<Button>>) -> Seq<Seq<ButtonView>> {
    rows.map_values(|row: Vec<Button>| row_view(row@))
}

/// The city with the given number; every number from fourteen on gives the last.
pub open spec fn city_name(i: int) -> Seq<char> {
    if i == 0 {
        CITY_0@
    } else     if i == 1 {
        CITY_1@
    } else     if i == 2 {
        CITY_2@
    } else     if i == 3 {
        CITY_3@
    } else     if i == 4 {
        CITY_4@
    } else     if i == 5 {
        CITY_5@
    } else     if i == 6 {
        CITY_6@
    } else     if i == 7 {
        CITY_7@
    } else     if i == 8 {
        CITY_8@
    } else     if i == 9 {
        CITY_9@
    } else     if i == 10 {
        CITY_10@
    } else     if i == 11 {
        CITY_11@
    } else     if i == 12 {
        CITY_12@
    } else     if i == 13 {
        CITY_13@
    } else {
        CITY_14@
    }
}

/// The city with the given number; every number from fourteen on gives the last.
pub fn city_at(i: usize) -> (text: &'static str)
    ensures
        text@ == city_name(i as int),
{
    match i {
        0 => CITY_0,
        1 => CITY_1,
        2 => CITY_2,
        3 => CITY_3,
        4 => CITY_4,
        5 => CITY_5,
        6 => CITY_6,
        7 => CITY_7,
        8 => CITY_8,
        9 => CITY_9,
        10 => CITY_10,
        11 => CITY_11,
        12 => CITY_12,
        13 => CITY_13,
        _ => CITY_14,
    }
}

/// The delivery time on offer with the given number; every number from nine on gives the last.
pub open spec fn time_slot(i: int) -> Seq<char> {
    if i == 0 {
        TIME_0@
    } else     if i == 1 {
        TIME_1@
    } else     if i == 2 {
        TIME_2@
    } else     if i == 3 {
        TIME_3@
    } else     if i == 4 {
        TIME_4@
    } else     if i == 5 {
        TIME_5@
    } else     if i == 6 {
        TIME_6@
    } else     if i == 7 {
        TIME_7@
    } else     if i == 8 {
        TIME_8@
    } else {
        TIME_9@
    }
}

/// The delivery time on offer with the given number; every number from nine on gives the last.
pub fn time_at(i: usize) -> (text: &'static str)
    ensures
        text@ == time_slot(i as int),
{
    match i {
        0 => TIME_0,
        1 => TIME_1,
        2 => TIME_2,
        3 => TIME_3,
        4 => TIME_4,
        5 => TIME_5,
        6 => TIME_6,
        7 => TIME_7,
        8 => TIME_8,
        _ => TIME_9,
    }
}

/// The button of a value: it shows the value and carries it behind the
/// prefix of its kind.
pub open spec fn value_button(prefix: Seq<char>, value: Seq<char>) -> ButtonView {
    ButtonView { text: value, data: prefix + value }
}

/// The button for entering a city by hand.
pub open spec fn city_manual_button() -> ButtonView {
    ButtonView { text: CITY_MANUAL_LABEL@, data: CITY_MANUAL@ }
}

/// The button for entering a delivery time by hand.
pub open spec fn time_manual_button() -> ButtonView {
    ButtonView { text: TIME_MANUAL_LABEL@, data: TIME_MANUAL@ }
}

/// The city keyboard: the fifteen cities in five rows of three, and below
/// them the button for entering a city by hand.
pub open spec fn city_keyboard() -> Seq<Seq<ButtonView>> {
    Seq::new(
        6,
        |r: int|
            if r < 5 {
                Seq::new(3, |c: int| value_button(CITY_PREFIX@, city_name(3 * r + c)))
            } else {
                seq![city_manual_button()]
            },
    )
}

/// The times on offer from the one numbered `from` up to, not including,
/// the one numbered `to`, as a row of buttons.
pub open spec fn time_row(from: int, to: int) -> Seq<ButtonView> {
    Seq::new((to - from) as nat, |k: int| value_button(TIME_PREFIX@, time_slot(from + k)))
}

/// The time keyboard: four times of the morning, three of the day, three
/// of the evening, and below them the button for entering a time by hand.
pub open spec fn time_keyboard() -> Seq<Seq<ButtonView>> {
    seq![time_row(0, 4), time_row(4, 7), time_row(7, 10), seq![time_manual_button()]]
}

fn button(text: &str, data: String) -> (b: Button)
    ensures
        b@ == (ButtonView { text: text@, data: data@ }),
{
    Button { text: String::from_str(text), data }
}

fn single_row(b: Button) -> (row: Vec<Button>)
    ensures
        row_view(row@) == seq![b@],
{
    let mut row: Vec<Button> = Vec::new();
    row.push(b);
    assert(row_view(row@) =~= seq![b@]);
    row
}

/// The city keyboard.
pub fn get_city_keyboard() -> (keyboard: Vec<Vec<Button>>)
    ensures
        keyboard_view(keyboard@) == city_keyboard(),
{
    let mut keyboard: Vec<Vec<Button>> = Vec::new();
    let mut r: usize = 0;
    while r < 5
        invariant
            r <= 5,
            keyboard.len() == r,
            forall|k: int| 0 <= k < r ==> row_view(#[trigger] keyboard[k]@) == city_keyboard()[k],
        decreases 5 - r,
    {
        let mut row: Vec<Button> = Vec::new();
        let mut c: usize = 0;
        while c < 3
            invariant
                c <= 3,
                r < 5,
                row.len() == c,
                forall|k: int|
                    0 <= k < c ==> (#[trigger] row[k])@ == value_button(
                        CITY_PREFIX@,
                        city_name(3 * r + k),
                    ),
            decreases 3 - c,
        {
            let name = city_at(3 * r + c);
            row.push(button(name, join(CITY_PREFIX, name)));
            c += 1;
        }
        assert(row_view(row@) =~= city_keyboard()[r as int]);
        keyboard.push(row);
        r += 1;
    }
    let manual = button(CITY_MANUAL_LABEL, String::from_str(CITY_MANUAL));
    keyboard.push(single_row(manual));
    assert(keyboard_view(keyboard@) =~= city_keyboard());
    keyboard
}

fn time_buttons(from: usize, to: usize) -> (row: Vec<Button>)
    requires
        from <= to <= 10,
    ensures
        row_view(row@) == time_row(from as int, to as int),
{
    let mut row: Vec<Button> = Vec::new();
    let mut i: usize = from;
    while i < to
        invariant
            from <= i <= to <= 10,
            row.len() == i - from,
            forall|k: int|
                0 <= k < i - from ==> (#[trigger] row[k])@ == value_button(
                    TIME_PREFIX@,
                    time_slot(from + k),
                ),
        decreases to - i,
    {
        let time = time_at(i);
        row.push(button(time, join(TIME_PREFIX, time)));
        i += 1;
    }
    assert(row_view(row@) =~= time_row(from as int, to as int));
    row
}

/// The time keyboard.
pub fn get_time_keyboard() -> (keyboard: Vec<Vec<Button>>)
    ensures
        keyboard_view(keyboard@) == time_keyboard(),
{
    let mut keyboard: Vec<Vec<Button>> = Vec::new();
    keyboard.push(time_buttons(0, 4));
    keyboard.push(time_buttons(4, 7));
    keyboard.push(time_buttons(7, 10));
    let manual = button(TIME_MANUAL_LABEL, String::from_str(TIME_MANUAL));
    keyboard.push(single_row(manual));
    assert(keyboard_view(keyboard@) =~= time_keyboard());
    keyboard
}

/// Every time on offer is a valid delivery time, and the data of its
/// button is told apart from every other kind of data.
pub proof fn lemma_time_slots(i: int)
    ensures
        valid_time(time_slot(i)),
        forall|k: int| 0 <= k < time_slot(i).len() ==> time_slot(i)[k] != TIME_PREFIX@[0],
        TIME_PREFIX@.len() == 5,
        TIME_PREFIX@ + time_slot(i) != TIME_MANUAL@,
        !CITY_PREFIX@.is_prefix_of(TIME_PREFIX@ + time_slot(i)),
{
    reveal_strlit("time_");
    reveal_strlit("city_");
    reveal_strlit("time_manual");
    reveal_strlit("06:00");
    reveal_strlit("07:00");
    reveal_strlit("08:00");
    reveal_strlit("09:00");
    reveal_strlit("12:00");
    reveal_strlit("14:00");
    reveal_strlit("16:00");
    reveal_strlit("18:00");
    reveal_strlit("20:00");
    reveal_strlit("22:00");
    let data = TIME_PREFIX@ + time_slot(i);
    assert(data[5] != 'm');
    assert(!CITY_PREFIX@.is_prefix_of(data)) by {
        assert(data.subrange(0, 5)[0] == data[0]);
    }
}

/// The name of every city on offer is free of the first character of the
/// prefix, and the data of its button is not that of the button for
/// entering a city by hand.
pub proof fn lemma_city_names(i: int)
    ensures
        forall|k: int| 0 <= k < city_name(i).len() ==> city_name(i)[k] != CITY_PREFIX@[0],
        CITY_PREFIX@.len() == 5,
        CITY_PREFIX@ + city_name(i) != CITY_MANUAL@,
{
    reveal_strlit("city_");
    reveal_strlit("city_manual");
    reveal_strlit("Москва");
    reveal_strlit("Санкт-Петербург");
    reveal_strlit("Новосибирск");
    reveal_strlit("Екатеринбург");
    reveal_strlit("Тюмень");
    reveal_strlit("Нижний Новгород");
    reveal_strlit("Челябинск");
    reveal_strlit("Самара");
    reveal_strlit("Омск");
    reveal_strlit("Ростов-на-Дону");
    reveal_strlit("Уфа");
    reveal_strlit("Красноярск");
    reveal_strlit("Воронеж");
    reveal_strlit("Пермь");
    reveal_strlit("Волгоград");
    let data = CITY_PREFIX@ + city_name(i);
    assert(data[5] == city_name(i)[0]);
    assert(data[5] != 'm');
}

/// The press of a time button stores the time that the button shows, and
/// nothing is awaited any more.
pub proof fn law_time_buttons_store_their_time(user: Option<UserView>, user_id: int, i: int)
    ensures
        callback_outcome(user, user_id, value_button(TIME_PREFIX@, time_slot(i)).data).save
            == Some(with_time(or_default(user, user_id), time_slot(i))),
{
    lemma_time_slots(i);
    lemma_without_prefix(TIME_PREFIX@, time_slot(i));
}

/// The press of a city button stores the city that the button shows, and
/// nothing is awaited any more.
pub proof fn law_city_buttons_store_their_city(user: Option<UserView>, user_id: int, i: int)
    ensures
        callback_outcome(user, user_id, value_button(CITY_PREFIX@, city_name(i)).data).save
            == Some(with_city(or_default(user, user_id), city_name(i))),
{
    lemma_city_names(i);
    lemma_without_prefix(CITY_PREFIX@, city_name(i));
}

} // verus!
