//! The conversation with one subscriber: what each message, command and
//! button press changes in the subscriber's record, and what is answered.
//!
//! Every handler is a function from the subscriber's record, as the table
//! holds it, and the input to an [`Outcome`]: the record to put, if any, and
//! the answers to send. Nothing here touches the table or the channel.

use crate::messages::{
    ASK_CITY, ASK_TIME, BLANK_LINE, CHOOSE_CITY, CHOOSE_TIME, CITY_MANUAL, CITY_MANUAL_HINT,
    CITY_PREFIX, CITY_REPROMPT, CITY_STORED_CUTE_SUFFIX, CITY_STORED_PLAIN_SUFFIX,
    CITY_STORED_PREFIX, CUTE_CODE, CUTE_MODE_ON, ERROR_ADVICE, FORECAST_CUTE_MIDDLE,
    FORECAST_CUTE_PREFIX, FORECAST_ERROR_PREFIX, FORECAST_PLAIN_PREFIX, HELP_CUTE, HELP_PLAIN,
    MANUAL, NEEDS_SETUP, NOT_UNDERSTOOD, NO_CITY, STANDARD_CODE, STANDARD_MODE_ON, START_HINT,
    TIME_FORMAT_ERROR, TIME_MANUAL, TIME_MANUAL_HINT, TIME_PREFIX, TIME_REPROMPT,
    TIME_STORED_CUTE_SUFFIX, TIME_STORED_PLAIN_SUFFIX, TIME_STORED_PREFIX, WAITING_FOR_CITY,
    WAITING_FOR_TIME, WEATHER_CUTE_PREFIX, WEATHER_ERROR_PREFIX, WEATHER_PLAIN_PREFIX, WELCOME,
};
use crate::storage::{default_record, record_ok, record_view, UserSettings, UserView};
use crate::text::{has_prefix, remove_all, same_text, trimmed, without};
use crate::timefmt::{is_valid_time_format, valid_time};
use crate::utils::{escaped_char, is_special_char};
use vstd::prelude::*;
use vstd::string::*;

verus! {

/// The answer that the bot waits for from a subscriber.
#[derive(Clone, Copy, Debug, PartialEq, Eq, Structural)]
pub enum PendingInput {
    /// Nothing: a message is a message.
    Idle,
    /// The next message names the city.
    AwaitingLocation,
    /// The next message gives the delivery time.
    AwaitingTime,
}

/// The buttons to show under an answer.
#[derive(Clone, Copy, Debug, PartialEq, Eq, Structural)]
pub enum Keyboard {
    /// No buttons.
    Absent,
    /// The cities to choose from.
    Cities,
    /// The delivery times to choose from.
    Times,
}

/// One answer to the subscriber.
#[derive(Debug, PartialEq, Eq)]
pub struct Reply {
    /// The text to send.
    pub text: String,
    /// Whether the channel is to read the text as MarkdownV2.
    pub markdown: bool,
    /// The buttons to show under the text.
    pub keyboard: Keyboard,
}

/// The mathematical content of a [`Reply`].
pub struct ReplyView {
    pub text: Seq<char>,
    pub markdown: bool,
    pub keyboard: Keyboard,
}

impl View for Reply {
    type V = ReplyView;

    open spec fn view(&self) -> ReplyView {
        ReplyView { text: self.text@, markdown: self.markdown, keyboard: self.keyboard }
    }
}

/// What a handler decided: the record to put into the table, if any, and
/// the answers to send, in order. The record is put before anything is sent.
#[derive(Debug, PartialEq, Eq)]
pub struct Outcome {
    pub save: Option<UserSettings>,
    pub replies: Vec<Reply>,
}

/// The mathematical content of an [`Outcome`].
pub struct OutcomeView {
    pub save: Option<UserView>,
    pub replies: Seq<ReplyView>,
}

/// The contents of a vector of answers.
pub open spec fn replies_view(replies: Seq<Reply>) -> Seq<ReplyView> {
    replies.map_values(|r: Reply| r@)
}

impl View for Outcome {
    type V = OutcomeView;

    open spec fn view(&self) -> OutcomeView {
        OutcomeView { save: record_view(self.save), replies: replies_view(self.replies@) }
    }
}

/// A plain answer without buttons.
pub open spec fn plain(text: Seq<char>) -> ReplyView {
    ReplyView { text, markdown: false, keyboard: Keyboard::Absent }
}

/// A MarkdownV2 answer without buttons.
pub open spec fn marked(text: Seq<char>) -> ReplyView {
    ReplyView { text, markdown: true, keyboard: Keyboard::Absent }
}

/// A MarkdownV2 answer with buttons.
pub open spec fn with_buttons(text: Seq<char>, keyboard: Keyboard) -> ReplyView {
    ReplyView { text, markdown: true, keyboard }
}

/// An outcome with one answer.
pub open spec fn answer(save: Option<UserView>, reply: ReplyView) -> OutcomeView {
    OutcomeView { save, replies: seq![reply] }
}

/// The outcome of an input that the bot passes over: nothing is put and
/// nothing is sent.
pub open spec fn nothing() -> OutcomeView {
    OutcomeView { save: None, replies: Seq::empty() }
}

/// What the tag of a record says about the answer that is awaited.
pub open spec fn pending_of(state: Option<Seq<char>>) -> PendingInput {
    if state == Some(WAITING_FOR_TIME@) {
        PendingInput::AwaitingTime
    } else if state == Some(WAITING_FOR_CITY@) {
        PendingInput::AwaitingLocation
    } else {
        PendingInput::Idle
    }
}

/// The answer that is awaited from a subscriber; none from an unknown one.
pub open spec fn pending(user: Option<UserView>) -> PendingInput {
    match user {
        Some(u) => pending_of(u.state),
        None => PendingInput::Idle,
    }
}

/// The subscriber's record, or the default record of one who has none.
pub open spec fn or_default(user: Option<UserView>, user_id: int) -> UserView {
    match user {
        Some(u) => u,
        None => default_record(user_id),
    }
}

/// The record with the city set and nothing awaited.
pub open spec fn with_city(u: UserView, city: Seq<char>) -> UserView {
    UserView { city: Some(city), state: None, ..u }
}

/// The record with the delivery time set and nothing awaited.
pub open spec fn with_time(u: UserView, time: Seq<char>) -> UserView {
    UserView { notification_time: Some(time), state: None, ..u }
}

/// The record with the given answer awaited.
pub open spec fn awaiting(u: UserView, tag: Seq<char>) -> UserView {
    UserView { state: Some(tag), ..u }
}

/// The record with the style set.
pub open spec fn with_style(u: UserView, cute_mode: bool) -> UserView {
    UserView { cute_mode, ..u }
}

/// One character as it stands in an answer: `!` behind two backslashes,
/// every other special character behind one.
pub open spec fn reply_escaped_char(c: char) -> Seq<char> {
    if c == '!' {
        seq!['\\', '\\', '!']
    } else {
        escaped_char(c)
    }
}

/// A text as it stands in an answer, each character escaped in order.
pub open spec fn reply_escaped(s: Seq<char>) -> Seq<char>
    decreases s.len(),
{
    if s.len() == 0 {
        Seq::empty()
    } else {
        reply_escaped(s.drop_last()) + reply_escaped_char(s.last())
    }
}

/// Escapes a text for an answer.
pub fn escape_reply_text(text: &str) -> (result: String)
    ensures
        result@ == reply_escaped(text@),
{
    let mut result = String::new();
    for ch in it: text.chars()
        invariant
            it.seq() == text@,
            result@ == reply_escaped(text@.take(it.index() as int)),
    {
        let ghost before = text@.take(it.index() as int);
        let ghost upto = text@.take(it.index() + 1);
        assert(upto.drop_last() =~= before);
        assert(upto.last() == ch);
        if ch == '!' {
            result.push('\\');
            result.push('\\');
            result.push('!');
        } else {
            if is_special_char(ch) {
                result.push('\\');
            }
            result.push(ch);
        }
        assert(result@ =~= reply_escaped(before) + reply_escaped_char(ch));
    }
    assert(text@.take(text@.len() as int) =~= text@);
    result
}

/// The confirmation of a delivery time.
pub open spec fn time_stored_text(time: Seq<char>, cute_mode: bool) -> Seq<char> {
    TIME_STORED_PREFIX@ + reply_escaped(time) + if cute_mode {
        TIME_STORED_CUTE_SUFFIX@
    } else {
        TIME_STORED_PLAIN_SUFFIX@
    }
}

/// The confirmation of a city.
pub open spec fn city_stored_text(city: Seq<char>, cute_mode: bool) -> Seq<char> {
    CITY_STORED_PREFIX@ + reply_escaped(city) + if cute_mode {
        CITY_STORED_CUTE_SUFFIX@
    } else {
        CITY_STORED_PLAIN_SUFFIX@
    }
}

/// The current weather of a city as it is sent on request.
pub open spec fn weather_text(city: Seq<char>, weather: Seq<char>, cute_mode: bool) -> Seq<char> {
    (if cute_mode {
        WEATHER_CUTE_PREFIX@
    } else {
        WEATHER_PLAIN_PREFIX@
    }) + reply_escaped(city) + BLANK_LINE@ + reply_escaped(weather)
}

/// The notice that the current weather could not be had.
pub open spec fn weather_error_text(error: Seq<char>) -> Seq<char> {
    WEATHER_ERROR_PREFIX@ + reply_escaped(error) + ERROR_ADVICE@
}

/// The weekly forecast of a city as it is sent on request.
pub open spec fn forecast_text(city: Seq<char>, forecast: Seq<char>, cute_mode: bool) -> Seq<
    char,
> {
    if cute_mode {
        FORECAST_CUTE_PREFIX@ + reply_escaped(city) + FORECAST_CUTE_MIDDLE@ + reply_escaped(
            forecast,
        )
    } else {
        FORECAST_PLAIN_PREFIX@ + reply_escaped(city) + BLANK_LINE@ + reply_escaped(forecast)
    }
}

/// The notice that the weekly forecast could not be had.
pub open spec fn forecast_error_text(error: Seq<char>) -> Seq<char> {
    FORECAST_ERROR_PREFIX@ + reply_escaped(error) + ERROR_ADVICE@
}

fn framed(prefix: &str, middle: &str, suffix: &str) -> (text: String)
    ensures
        text@ == prefix@ + reply_escaped(middle@) + suffix@,
{
    let mut text = String::from_str(prefix);
    let inner = escape_reply_text(middle);
    text.append(inner.as_str());
    text.append(suffix);
    text
}

fn framed_pair(prefix: &str, first: &str, middle: &str, second: &str) -> (text: String)
    ensures
        text@ == prefix@ + reply_escaped(first@) + middle@ + reply_escaped(second@),
{
    let mut text = String::from_str(prefix);
    let a = escape_reply_text(first);
    text.append(a.as_str());
    text.append(middle);
    let b = escape_reply_text(second);
    text.append(b.as_str());
    text
}

fn say(text: &str) -> (reply: Reply)
    ensures
        reply@ == plain(text@),
{
    Reply { text: String::from_str(text), markdown: false, keyboard: Keyboard::Absent }
}

fn say_marked(text: String) -> (reply: Reply)
    ensures
        reply@ == marked(text@),
{
    Reply { text, markdown: true, keyboard: Keyboard::Absent }
}

fn one(save: Option<UserSettings>, reply: Reply) -> (out: Outcome)
    ensures
        out@ == answer(record_view(save), reply@),
{
    let mut replies: Vec<Reply> = Vec::new();
    replies.push(reply);
    assert(replies_view(replies@) =~= seq![reply@]);
    Outcome { save, replies }
}

fn pass_over() -> (out: Outcome)
    ensures
        out@ == nothing(),
{
    let replies: Vec<Reply> = Vec::new();
    assert(replies_view(replies@) =~= Seq::empty());
    Outcome { save: None, replies }
}

/// The answer that is awaited from the subscriber.
pub fn pending_input(user: &Option<UserSettings>) -> (p: PendingInput)
    ensures
        p == pending(record_view(*user)),
{
    match user {
        Some(u) => match &u.state {
            Some(tag) => {
                if same_text(tag.as_str(), WAITING_FOR_TIME) {
                    PendingInput::AwaitingTime
                } else if same_text(tag.as_str(), WAITING_FOR_CITY) {
                    PendingInput::AwaitingLocation
                } else {
                    PendingInput::Idle
                }
            },
            None => PendingInput::Idle,
        },
        None => PendingInput::Idle,
    }
}

/// The subscriber's record, or the default record of one who has none.
pub fn user_or_default(user: Option<UserSettings>, user_id: i64) -> (u: UserSettings)
    ensures
        u@ == or_default(record_view(user), user_id as int),
{
    match user {
        Some(u) => u,
        None => UserSettings::new(user_id),
    }
}

fn store_city(u: UserSettings, city: &str) -> (out: Outcome)
    ensures
        out@ == answer(
            Some(with_city(u@, city@)),
            marked(city_stored_text(city@, u.cute_mode)),
        ),
{
    let suffix = if u.cute_mode {
        CITY_STORED_CUTE_SUFFIX
    } else {
        CITY_STORED_PLAIN_SUFFIX
    };
    let text = framed(CITY_STORED_PREFIX, city, suffix);
    let updated = UserSettings {
        user_id: u.user_id,
        city: Some(String::from_str(city)),
        notification_time: u.notification_time,
        cute_mode: u.cute_mode,
        state: None,
    };
    one(Some(updated), say_marked(text))
}

fn store_time(u: UserSettings, time: &str) -> (out: Outcome)
    ensures
        out@ == answer(
            Some(with_time(u@, time@)),
            marked(time_stored_text(time@, u.cute_mode)),
        ),
{
    let suffix = if u.cute_mode {
        TIME_STORED_CUTE_SUFFIX
    } else {
        TIME_STORED_PLAIN_SUFFIX
    };
    let text = framed(TIME_STORED_PREFIX, time, suffix);
    let updated = UserSettings {
        user_id: u.user_id,
        city: u.city,
        notification_time: Some(String::from_str(time)),
        cute_mode: u.cute_mode,
        state: None,
    };
    one(Some(updated), say_marked(text))
}

fn await_answer(u: UserSettings, tag: &str, reply: Reply) -> (out: Outcome)
    ensures
        out@ == answer(Some(awaiting(u@, tag@)), reply@),
{
    let updated = UserSettings {
        user_id: u.user_id,
        city: u.city,
        notification_time: u.notification_time,
        cute_mode: u.cute_mode,
        state: Some(String::from_str(tag)),
    };
    one(Some(updated), reply)
}

fn switch_style(u: UserSettings, cute_mode: bool, reply: Reply) -> (out: Outcome)
    ensures
        out@ == answer(Some(with_style(u@, cute_mode)), reply@),
{
    let updated = UserSettings {
        user_id: u.user_id,
        city: u.city,
        notification_time: u.notification_time,
        cute_mode,
        state: u.state,
    };
    one(Some(updated), reply)
}

/// What a text message leads to, the text taken without the whitespace
/// around it.
///
/// A subscriber from whom a delivery time is awaited gets the time stored,
/// and nothing is awaited any more, when the text is a valid time; else the
/// question is asked again and the record stays as it is. One from whom a
/// city is awaited gets the city stored in the same way when the text is not
/// empty. From anyone else the two style codes switch the style, and every
/// other text is answered with a hint at the commands.
pub open spec fn text_outcome(user: Option<UserView>, user_id: int, text: Seq<char>) -> OutcomeView {
    let u = or_default(user, user_id);
    if pending(user) == PendingInput::AwaitingTime {
        if valid_time(text) {
            answer(Some(with_time(u, text)), marked(time_stored_text(text, u.cute_mode)))
        } else {
            answer(None, marked(TIME_REPROMPT@))
        }
    } else if pending(user) == PendingInput::AwaitingLocation {
        if text.len() > 0 {
            answer(Some(with_city(u, text)), marked(city_stored_text(text, u.cute_mode)))
        } else {
            answer(None, marked(CITY_REPROMPT@))
        }
    } else if text == CUTE_CODE@ {
        answer(Some(with_style(u, true)), marked(CUTE_MODE_ON@))
    } else if text == STANDARD_CODE@ && u.cute_mode {
        answer(Some(with_style(u, false)), marked(STANDARD_MODE_ON@))
    } else {
        answer(None, plain(NOT_UNDERSTOOD@))
    }
}

/// Decides on a text message whose surrounding whitespace is gone.
pub fn text_message(user: Option<UserSettings>, user_id: i64, text: &str) -> (out: Outcome)
    ensures
        out@ == text_outcome(record_view(user), user_id as int, text@),
{
    let awaited = pending_input(&user);
    let u = user_or_default(user, user_id);
    match awaited {
        PendingInput::AwaitingTime => {
            if is_valid_time_format(text) {
                store_time(u, text)
            } else {
                one(None, say_marked(String::from_str(TIME_REPROMPT)))
            }
        },
        PendingInput::AwaitingLocation => {
            if !text.is_empty() {
                store_city(u, text)
            } else {
                one(None, say_marked(String::from_str(CITY_REPROMPT)))
            }
        },
        PendingInput::Idle => {
            if same_text(text, CUTE_CODE) {
                switch_style(u, true, say_marked(String::from_str(CUTE_MODE_ON)))
            } else if same_text(text, STANDARD_CODE) && u.cute_mode {
                switch_style(u, false, say_marked(String::from_str(STANDARD_MODE_ON)))
            } else {
                one(None, say(NOT_UNDERSTOOD))
            }
        },
    }
}

/// Decides on an incoming message. One without text is passed over; the
/// text of any other is taken without the whitespace around it.
pub fn handle_message(user: Option<UserSettings>, user_id: i64, text: Option<&str>) -> (out:
    Outcome)
    ensures
        out@ == match text {
            Some(t) => text_outcome(record_view(user), user_id as int, trimmed(t@)),
            None => nothing(),
        },
{
    match text {
        Some(t) => text_message(user, user_id, t.trim()),
        None => pass_over(),
    }
}

/// What the city command leads to, its argument taken without the
/// whitespace around it.
///
/// Without an argument the city is awaited in the next message and the city
/// buttons are shown. The argument `manual` is answered with a hint. Any
/// other argument is stored as the city at once, and nothing is awaited any
/// more, whatever was awaited before.
pub open spec fn city_outcome(user: Option<UserView>, user_id: int, arg: Seq<char>) -> OutcomeView {
    let u = or_default(user, user_id);
    if arg.len() == 0 {
        answer(Some(awaiting(u, WAITING_FOR_CITY@)), with_buttons(CHOOSE_CITY@, Keyboard::Cities))
    } else if arg == MANUAL@ {
        answer(None, plain(CITY_MANUAL_HINT@))
    } else {
        answer(Some(with_city(u, arg)), marked(city_stored_text(arg, u.cute_mode)))
    }
}

/// What the time command leads to, its argument taken without the
/// whitespace around it.
///
/// Without an argument the time is awaited in the next message and the time
/// buttons are shown. The argument `manual` is answered with a hint. A valid
/// time is stored at once, and nothing is awaited any more; any other
/// argument is refused and the record stays as it is.
pub open spec fn time_outcome(user: Option<UserView>, user_id: int, arg: Seq<char>) -> OutcomeView {
    let u = or_default(user, user_id);
    if arg.len() == 0 {
        answer(Some(awaiting(u, WAITING_FOR_TIME@)), with_buttons(CHOOSE_TIME@, Keyboard::Times))
    } else if arg == MANUAL@ {
        answer(None, plain(TIME_MANUAL_HINT@))
    } else if valid_time(arg) {
        answer(Some(with_time(u, arg)), marked(time_stored_text(arg, u.cute_mode)))
    } else {
        answer(None, plain(TIME_FORMAT_ERROR@))
    }
}

/// Decides on the city command whose argument is free of surrounding
/// whitespace.
pub fn city_command(user: Option<UserSettings>, user_id: i64, arg: &str) -> (out: Outcome)
    ensures
        out@ == city_outcome(record_view(user), user_id as int, arg@),
{
    let u = user_or_default(user, user_id);
    if arg.is_empty() {
        let reply = Reply {
            text: String::from_str(CHOOSE_CITY),
            markdown: true,
            keyboard: Keyboard::Cities,
        };
        await_answer(u, WAITING_FOR_CITY, reply)
    } else if same_text(arg, MANUAL) {
        one(None, say(CITY_MANUAL_HINT))
    } else {
        store_city(u, arg)
    }
}

/// Decides on the time command whose argument is free of surrounding
/// whitespace.
pub fn time_command(user: Option<UserSettings>, user_id: i64, arg: &str) -> (out: Outcome)
    ensures
        out@ == time_outcome(record_view(user), user_id as int, arg@),
{
    let u = user_or_default(user, user_id);
    if arg.is_empty() {
        let reply = Reply {
            text: String::from_str(CHOOSE_TIME),
            markdown: true,
            keyboard: Keyboard::Times,
        };
        await_answer(u, WAITING_FOR_TIME, reply)
    } else if same_text(arg, MANUAL) {
        one(None, say(TIME_MANUAL_HINT))
    } else if is_valid_time_format(arg) {
        store_time(u, arg)
    } else {
        one(None, say(TIME_FORMAT_ERROR))
    }
}

/// Decides on the city command.
pub fn set_city(user: Option<UserSettings>, user_id: i64, city_arg: &str) -> (out: Outcome)
    ensures
        out@ == city_outcome(record_view(user), user_id as int, trimmed(city_arg@)),
{
    city_command(user, user_id, city_arg.trim())
}

/// Decides on the time command.
pub fn set_time(user: Option<UserSettings>, user_id: i64, time_arg: &str) -> (out: Outcome)
    ensures
        out@ == time_outcome(record_view(user), user_id as int, trimmed(time_arg@)),
{
    time_command(user, user_id, time_arg.trim())
}

/// What the start command leads to: the standard style is restored for a
/// subscriber who had the affectionate one, and the greeting is sent with
/// the hint behind it.
pub open spec fn start_outcome(user: Option<UserView>) -> OutcomeView {
    OutcomeView {
        save: match user {
            Some(u) => if u.cute_mode {
                Some(with_style(u, false))
            } else {
                None
            },
            None => None,
        },
        replies: seq![marked(WELCOME@), plain(START_HINT@)],
    }
}

/// Decides on the start command.
pub fn send_start_message(user: Option<UserSettings>) -> (out: Outcome)
    ensures
        out@ == start_outcome(record_view(user)),
{
    let mut replies: Vec<Reply> = Vec::new();
    replies.push(say_marked(String::from_str(WELCOME)));
    replies.push(say(START_HINT));
    assert(replies_view(replies@) =~= seq![marked(WELCOME@), plain(START_HINT@)]);
    let save = match user {
        Some(u) => {
            if u.cute_mode {
                Some(
                    UserSettings {
                        user_id: u.user_id,
                        city: u.city,
                        notification_time: u.notification_time,
                        cute_mode: false,
                        state: u.state,
                    },
                )
            } else {
                None
            }
        },
        None => None,
    };
    Outcome { save, replies }
}

/// What the help command leads to: the list of commands in the
/// subscriber's style, the standard one for an unknown subscriber.
pub open spec fn help_outcome(user: Option<UserView>) -> OutcomeView {
    answer(
        None,
        marked(
            if user matches Some(u) && u.cute_mode {
                HELP_CUTE@
            } else {
                HELP_PLAIN@
            },
        ),
    )
}

/// Decides on the help command.
pub fn send_help(user: &Option<UserSettings>) -> (out: Outcome)
    ensures
        out@ == help_outcome(record_view(*user)),
{
    let cute_mode = match user {
        Some(u) => u.cute_mode,
        None => false,
    };
    if cute_mode {
        one(None, say_marked(String::from_str(HELP_CUTE)))
    } else {
        one(None, say_marked(String::from_str(HELP_PLAIN)))
    }
}

/// What a request for weather starts with.
#[derive(Debug, PartialEq, Eq)]
pub enum WeatherPlan {
    /// The weather cannot be asked for: tell the subscriber why.
    Tell(Reply),
    /// Ask the provider for the weather of the city, then answer in the
    /// given style.
    Fetch { city: String, cute_mode: bool },
}

/// The mathematical content of a [`WeatherPlan`].
pub enum WeatherPlanView {
    Tell(ReplyView),
    Fetch { city: Seq<char>, cute_mode: bool },
}

impl View for WeatherPlan {
    type V = WeatherPlanView;

    open spec fn view(&self) -> WeatherPlanView {
        match *self {
            WeatherPlan::Tell(reply) => WeatherPlanView::Tell(reply@),
            WeatherPlan::Fetch { city, cute_mode } => WeatherPlanView::Fetch {
                city: city@,
                cute_mode,
            },
        }
    }
}

/// How a request for weather starts: an unknown subscriber is told to set
/// the bot up, one without a city to choose one, and for any other the
/// weather of the city is fetched.
pub open spec fn weather_plan(user: Option<UserView>) -> WeatherPlanView {
    match user {
        None => WeatherPlanView::Tell(marked(NEEDS_SETUP@)),
        Some(u) => match u.city {
            None => WeatherPlanView::Tell(marked(NO_CITY@)),
            Some(city) => WeatherPlanView::Fetch { city, cute_mode: u.cute_mode },
        },
    }
}

fn plan_weather(user: &Option<UserSettings>) -> (plan: WeatherPlan)
    ensures
        plan@ == weather_plan(record_view(*user)),
{
    match user {
        None => WeatherPlan::Tell(say_marked(String::from_str(NEEDS_SETUP))),
        Some(u) => match &u.city {
            None => WeatherPlan::Tell(say_marked(String::from_str(NO_CITY))),
            Some(city) => WeatherPlan::Fetch { city: city.clone(), cute_mode: u.cute_mode },
        },
    }
}

/// Starts the answer to a request for the current weather.
pub fn send_current_weather(user: &Option<UserSettings>) -> (plan: WeatherPlan)
    ensures
        plan@ == weather_plan(record_view(*user)),
{
    plan_weather(user)
}

/// Starts the answer to a request for the weekly forecast.
pub fn send_weekly_forecast(user: &Option<UserSettings>) -> (plan: WeatherPlan)
    ensures
        plan@ == weather_plan(record_view(*user)),
{
    plan_weather(user)
}

/// The answer to a request for the current weather, once the provider has
/// answered: the weather in the subscriber's style, or the notice that it
/// could not be had, with the provider's words.
pub fn current_weather_reply(city: &str, cute_mode: bool, fetched: &Result<String, String>) -> (reply:
    Reply)
    ensures
        reply@ == marked(
            match *fetched {
                Ok(weather) => weather_text(city@, weather@, cute_mode),
                Err(error) => weather_error_text(error@),
            },
        ),
{
    match fetched {
        Ok(weather) => {
            let prefix = if cute_mode {
                WEATHER_CUTE_PREFIX
            } else {
                WEATHER_PLAIN_PREFIX
            };
            say_marked(framed_pair(prefix, city, BLANK_LINE, weather.as_str()))
        },
        Err(error) => say_marked(framed(WEATHER_ERROR_PREFIX, error.as_str(), ERROR_ADVICE)),
    }
}

/// The answer to a request for the weekly forecast, once the provider has
/// answered: the forecast in the subscriber's style, or the notice that it
/// could not be had, with the provider's words.
pub fn weekly_forecast_reply(city: &str, cute_mode: bool, fetched: &Result<String, String>) -> (reply:
    Reply)
    ensures
        reply@ == marked(
            match *fetched {
                Ok(forecast) => forecast_text(city@, forecast@, cute_mode),
                Err(error) => forecast_error_text(error@),
            },
        ),
{
    match fetched {
        Ok(forecast) => {
            if cute_mode {
                say_marked(
                    framed_pair(FORECAST_CUTE_PREFIX, city, FORECAST_CUTE_MIDDLE, forecast.as_str()),
                )
            } else {
                say_marked(framed_pair(FORECAST_PLAIN_PREFIX, city, BLANK_LINE, forecast.as_str()))
            }
        },
        Err(error) => say_marked(framed(FORECAST_ERROR_PREFIX, error.as_str(), ERROR_ADVICE)),
    }
}

/// What the press of a button leads to, by the data that the button carries.
///
/// The button for entering a city by hand makes the city awaited; every
/// other city button stores its city at once, and nothing is awaited any
/// more. The time buttons do the same for the delivery time, but a time
/// that is not valid is refused and the record stays as it is. Data that
/// begins like neither kind of button is passed over.
pub open spec fn callback_outcome(user: Option<UserView>, user_id: int, data: Seq<char>) -> OutcomeView {
    let u = or_default(user, user_id);
    if CITY_PREFIX@.is_prefix_of(data) {
        if data == CITY_MANUAL@ {
            answer(Some(awaiting(u, WAITING_FOR_CITY@)), marked(ASK_CITY@))
        } else {
            let city = without(data, CITY_PREFIX@);
            answer(Some(with_city(u, city)), marked(city_stored_text(city, u.cute_mode)))
        }
    } else if TIME_PREFIX@.is_prefix_of(data) {
        if data == TIME_MANUAL@ {
            answer(Some(awaiting(u, WAITING_FOR_TIME@)), marked(ASK_TIME@))
        } else {
            let time = without(data, TIME_PREFIX@);
            if valid_time(time) {
                answer(Some(with_time(u, time)), marked(time_stored_text(time, u.cute_mode)))
            } else {
                answer(None, plain(TIME_FORMAT_ERROR@))
            }
        }
    } else {
        nothing()
    }
}

/// Decides on the press of a button. A press without data is passed over.
/// An outcome without answers means that the press is not acknowledged;
/// the answer of any other outcome takes the place of the message that
/// held the buttons.
pub fn handle_callback_query(user: Option<UserSettings>, user_id: i64, data: Option<&str>) -> (out:
    Outcome)
    ensures
        out@ == match data {
            Some(d) => callback_outcome(record_view(user), user_id as int, d@),
            None => nothing(),
        },
{
    let d = match data {
        Some(d) => d,
        None => {
            return pass_over();
        },
    };
    if has_prefix(d, CITY_PREFIX) {
        let u = user_or_default(user, user_id);
        if same_text(d, CITY_MANUAL) {
            await_answer(u, WAITING_FOR_CITY, say_marked(String::from_str(ASK_CITY)))
        } else {
            let city = remove_all(d, CITY_PREFIX);
            store_city(u, city.as_str())
        }
    } else if has_prefix(d, TIME_PREFIX) {
        let u = user_or_default(user, user_id);
        if same_text(d, TIME_MANUAL) {
            await_answer(u, WAITING_FOR_TIME, say_marked(String::from_str(ASK_TIME)))
        } else {
            let time = remove_all(d, TIME_PREFIX);
            if is_valid_time_format(time.as_str()) {
                store_time(u, time.as_str())
            } else {
                one(None, say(TIME_FORMAT_ERROR))
            }
        }
    } else {
        pass_over()
    }
}

/// A command of the bot, with its argument where it takes one.
#[derive(Debug, PartialEq, Eq)]
pub enum Command {
    Start,
    Help,
    City(String),
    Time(String),
    Weather,
    Forecast,
}

/// What a command leads to.
#[derive(Debug, PartialEq, Eq)]
pub enum CommandOutcome {
    /// The command is decided.
    Done(Outcome),
    /// The current weather was asked for.
    Weather(WeatherPlan),
    /// The weekly forecast was asked for.
    Forecast(WeatherPlan),
}

/// Decides on a command: each command goes to its own handler.
pub fn handle_commands(user: Option<UserSettings>, user_id: i64, cmd: &Command) -> (out:
    CommandOutcome)
    ensures
        match *cmd {
            Command::Start => out matches CommandOutcome::Done(o) && o@ == start_outcome(
                record_view(user),
            ),
            Command::Help => out matches CommandOutcome::Done(o) && o@ == help_outcome(
                record_view(user),
            ),
            Command::City(arg) => out matches CommandOutcome::Done(o) && o@ == city_outcome(
                record_view(user),
                user_id as int,
                trimmed(arg@),
            ),
            Command::Time(arg) => out matches CommandOutcome::Done(o) && o@ == time_outcome(
                record_view(user),
                user_id as int,
                trimmed(arg@),
            ),
            Command::Weather => out matches CommandOutcome::Weather(plan) && plan@ == weather_plan(
                record_view(user),
            ),
            Command::Forecast => out matches CommandOutcome::Forecast(plan) && plan@
                == weather_plan(record_view(user)),
        },
{
    match cmd {
        Command::Start => CommandOutcome::Done(send_start_message(user)),
        Command::Help => CommandOutcome::Done(send_help(&user)),
        Command::City(arg) => CommandOutcome::Done(set_city(user, user_id, arg.as_str())),
        Command::Time(arg) => CommandOutcome::Done(set_time(user, user_id, arg.as_str())),
        Command::Weather => CommandOutcome::Weather(send_current_weather(&user)),
        Command::Forecast => CommandOutcome::Forecast(send_weekly_forecast(&user)),
    }
}

/// The two tags are told apart: a record that awaits a city awaits no
/// delivery time, and the other way round.
pub proof fn lemma_tags_differ()
    ensures
        WAITING_FOR_CITY@ != WAITING_FOR_TIME@,
        pending_of(Some(WAITING_FOR_CITY@)) == PendingInput::AwaitingLocation,
        pending_of(Some(WAITING_FOR_TIME@)) == PendingInput::AwaitingTime,
        pending_of(None) == PendingInput::Idle,
{
    reveal_strlit("waiting_for_city");
    reveal_strlit("waiting_for_time");
    assert(WAITING_FOR_CITY@[12] == 'c');
    assert(WAITING_FOR_TIME@[12] == 't');
}

/// No handler asks for a record to be put that the table would refuse: a
/// record that may be stored leads only to records that may be stored, and
/// the record that is put is the subscriber's own.
pub proof fn law_outcomes_may_be_stored(user: Option<UserView>, user_id: int, input: Seq<char>)
    requires
        user matches Some(u) ==> record_ok(u),
    ensures
        text_outcome(user, user_id, input).save matches Some(r) ==> record_ok(r) && r.user_id
            == or_default(user, user_id).user_id,
        city_outcome(user, user_id, input).save matches Some(r) ==> record_ok(r) && r.user_id
            == or_default(user, user_id).user_id,
        time_outcome(user, user_id, input).save matches Some(r) ==> record_ok(r) && r.user_id
            == or_default(user, user_id).user_id,
        callback_outcome(user, user_id, input).save matches Some(r) ==> record_ok(r) && r.user_id
            == or_default(user, user_id).user_id,
        start_outcome(user).save matches Some(r) ==> record_ok(r) && r.user_id == or_default(
            user,
            user_id,
        ).user_id,
        help_outcome(user).save is None,
{
}

/// A subscriber from whom a city is awaited and who sends an empty text is
/// asked again, and the city stays awaited. When they send any other text,
/// it becomes their city and nothing is awaited any more.
pub proof fn law_awaited_city(user: Option<UserView>, user_id: int, text: Seq<char>)
    requires
        pending(user) == PendingInput::AwaitingLocation,
    ensures
        text.len() == 0 ==> text_outcome(user, user_id, text) == answer(
            None,
            marked(CITY_REPROMPT@),
        ),
        text.len() > 0 ==> text_outcome(user, user_id, text).save == Some(
            with_city(user->0, text),
        ),
        text.len() > 0 ==> pending(text_outcome(user, user_id, text).save) == PendingInput::Idle,
        text.len() > 0 ==> text_outcome(user, user_id, text).save->0.city == Some(text),
{
}

/// A subscriber from whom a delivery time is awaited and who sends a text
/// that is no valid time is asked again, and the time stays awaited. When
/// they send a valid time, it becomes their delivery time and nothing is
/// awaited any more.
pub proof fn law_awaited_time(user: Option<UserView>, user_id: int, text: Seq<char>)
    requires
        pending(user) == PendingInput::AwaitingTime,
    ensures
        !valid_time(text) ==> text_outcome(user, user_id, text) == answer(
            None,
            marked(TIME_REPROMPT@),
        ),
        valid_time(text) ==> text_outcome(user, user_id, text).save == Some(
            with_time(user->0, text),
        ),
        valid_time(text) ==> pending(text_outcome(user, user_id, text).save) == PendingInput::Idle,
        valid_time(text) ==> text_outcome(user, user_id, text).save->0.notification_time == Some(
            text,
        ),
{
}

/// The commands without an argument, and the buttons for entering a value
/// by hand, make the value awaited, whatever was awaited before.
pub proof fn law_commands_without_argument_await(user: Option<UserView>, user_id: int)
    ensures
        pending(city_outcome(user, user_id, Seq::empty()).save) == PendingInput::AwaitingLocation,
        pending(time_outcome(user, user_id, Seq::empty()).save) == PendingInput::AwaitingTime,
        pending(callback_outcome(user, user_id, CITY_MANUAL@).save)
            == PendingInput::AwaitingLocation,
        pending(callback_outcome(user, user_id, TIME_MANUAL@).save) == PendingInput::AwaitingTime,
{
    lemma_tags_differ();
    reveal_strlit("city_");
    reveal_strlit("time_");
    reveal_strlit("city_manual");
    reveal_strlit("time_manual");
    assert(CITY_PREFIX@.is_prefix_of(CITY_MANUAL@));
    assert(TIME_PREFIX@.is_prefix_of(TIME_MANUAL@));
    assert(!CITY_PREFIX@.is_prefix_of(TIME_MANUAL@)) by {
        assert(TIME_MANUAL@.subrange(0, 5)[0] == 't');
        assert(CITY_PREFIX@[0] == 'c');
    }
}

/// A command with a value attached stores the value at once, and nothing
/// is awaited any more, whatever was awaited before. A delivery time is
/// stored only when it is valid; a time that is not valid changes nothing.
pub proof fn law_commands_with_argument_store(user: Option<UserView>, user_id: int, arg: Seq<char>)
    requires
        arg.len() > 0,
        arg != MANUAL@,
    ensures
        city_outcome(user, user_id, arg).save == Some(
            with_city(or_default(user, user_id), arg),
        ),
        pending(city_outcome(user, user_id, arg).save) == PendingInput::Idle,
        valid_time(arg) ==> time_outcome(user, user_id, arg).save == Some(
            with_time(or_default(user, user_id), arg),
        ),
        valid_time(arg) ==> pending(time_outcome(user, user_id, arg).save) == PendingInput::Idle,
        !valid_time(arg) ==> time_outcome(user, user_id, arg).save is None,
{
}

} // verus!
