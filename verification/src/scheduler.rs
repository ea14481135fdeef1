//! The delivery schedule: who is served at a tick of the clock, what each
//! one is sent, and how a tick is worked through one delivery at a time.
//!
//! A subscriber with a city is served a personal delivery in the minute
//! that is their delivery time, and a broadcast at 12:00 and at 18:00. One
//! whose delivery time is a broadcast time is served both in that minute,
//! the broadcast first: neither holds the other back.

use crate::clock::{Clock, Moment, Weekday};
use crate::messages::{
    cute_message, cute_message_at, evening_greeting, get_evening_greeting, get_greeting,
    get_noon_greeting, good_day_wish, good_day_wish_at, morning_greeting, noon_greeting,
    AFTER_CITY, BLANK_LINE, ERROR_NOTICE_CUTE, ERROR_NOTICE_PLAIN, EVENING_HEADER,
    MORNING_HEADER, NOON_HEADER, WEATHER_IN,
};
use crate::storage::{table_view, unique_ids, UserSettings, UserView};
use crate::text::{opt_view, same_text};
use crate::timefmt::hhmm;
use crate::utils::{escape_markdown_v2, escaped};
use vstd::prelude::*;
use vstd::string::*;

verus! {

/// Why a delivery is made.
#[derive(Clone, Copy, Debug, PartialEq, Eq, Structural)]
pub enum Occasion {
    /// It is the subscriber's own delivery time.
    Personal,
    /// It is 12:00.
    BroadcastMidday,
    /// It is 18:00.
    BroadcastEvening,
}

/// One delivery that a tick owes: the weather of the city, to the
/// subscriber, in their style.
#[derive(Debug, PartialEq, Eq)]
pub struct Delivery {
    pub user_id: i64,
    pub city: String,
    pub cute_mode: bool,
    pub occasion: Occasion,
}

/// The mathematical content of a [`Delivery`].
pub struct DeliveryView {
    pub user_id: int,
    pub city: Seq<char>,
    pub cute_mode: bool,
    pub occasion: Occasion,
}

impl View for Delivery {
    type V = DeliveryView;

    open spec fn view(&self) -> DeliveryView {
        DeliveryView {
            user_id: self.user_id as int,
            city: self.city@,
            cute_mode: self.cute_mode,
            occasion: self.occasion,
        }
    }
}

/// The contents of a vector of deliveries.
pub open spec fn plan_view(plan: Seq<Delivery>) -> Seq<DeliveryView> {
    plan.map_values(|d: Delivery| d@)
}

/// The broadcast that falls on a time of day, if one does.
pub open spec fn broadcast_at(hour: int, minute: int) -> Option<Occasion> {
    if hour == 12 && minute == 0 {
        Some(Occasion::BroadcastMidday)
    } else if hour == 18 && minute == 0 {
        Some(Occasion::BroadcastEvening)
    } else {
        None
    }
}

/// Whether a subscriber is served on an occasion at the time `now`: every
/// subscriber with a city on a broadcast, and on the personal occasion
/// those among them whose delivery time is `now`.
pub open spec fn is_due(u: UserView, occasion: Occasion, now: Seq<char>) -> bool {
    u.city is Some && (occasion == Occasion::Personal ==> u.notification_time == Some(now))
}

/// The delivery that serves a subscriber.
pub open spec fn delivery_for(u: UserView, occasion: Occasion) -> DeliveryView {
    DeliveryView { user_id: u.user_id, city: u.city->0, cute_mode: u.cute_mode, occasion }
}

/// The deliveries of one occasion: one for each subscriber who is due, in
/// the order of the table.
pub open spec fn due(users: Seq<UserView>, occasion: Occasion, now: Seq<char>) -> Seq<DeliveryView>
    decreases users.len(),
{
    if users.len() == 0 {
        Seq::empty()
    } else {
        due(users.drop_last(), occasion, now) + if is_due(users.last(), occasion, now) {
            seq![delivery_for(users.last(), occasion)]
        } else {
            Seq::empty()
        }
    }
}

/// The deliveries of a tick: those of the broadcast, when the time is a
/// broadcast time, and behind them the personal ones.
pub open spec fn tick_plan(at: Moment, users: Seq<UserView>) -> Seq<DeliveryView> {
    let now = hhmm(at.hour, at.minute);
    (match broadcast_at(at.hour, at.minute) {
        Some(occasion) => due(users, occasion, now),
        None => Seq::empty(),
    }) + due(users, Occasion::Personal, now)
}

/// The broadcast that falls on the clock's time, if one does.
pub fn broadcast_occasion(clock: &Clock) -> (occasion: Option<Occasion>)
    ensures
        occasion == broadcast_at(clock@.hour, clock@.minute),
{
    if clock.hour() == 12 && clock.minute() == 0 {
        Some(Occasion::BroadcastMidday)
    } else if clock.hour() == 18 && clock.minute() == 0 {
        Some(Occasion::BroadcastEvening)
    } else {
        None
    }
}

fn add_due(plan: &mut Vec<Delivery>, users: &Vec<UserSettings>, occasion: Occasion, now: &str)
    ensures
        plan_view(final(plan)@) == plan_view(old(plan)@) + due(table_view(users@), occasion, now@),
{
    let ghost before = plan_view(plan@);
    let ghost table = table_view(users@);
    let mut i: usize = 0;
    assert(table.take(0) =~= Seq::empty());
    assert(plan_view(plan@) =~= before + due(table.take(0), occasion, now@));
    while i < users.len()
        invariant
            i <= users.len(),
            table == table_view(users@),
            plan_view(plan@) == before + due(table.take(i as int), occasion, now@),
        decreases users.len() - i,
    {
        let u = &users[i];
        let ghost so_far = plan_view(plan@);
        proof {
            assert(table.take(i + 1).drop_last() =~= table.take(i as int));
            assert(table.take(i + 1).last() == u@);
        }
        let served = match &u.city {
            Some(city) => {
                let timely = match occasion {
                    Occasion::Personal => match &u.notification_time {
                        Some(time) => same_text(time.as_str(), now),
                        None => false,
                    },
                    _ => true,
                };
                if timely {
                    plan.push(
                        Delivery {
                            user_id: u.user_id,
                            city: city.clone(),
                            cute_mode: u.cute_mode,
                            occasion,
                        },
                    );
                    true
                } else {
                    false
                }
            },
            None => false,
        };
        proof {
            assert(served == is_due(u@, occasion, now@));
            if served {
                assert(plan_view(plan@) =~= so_far + seq![delivery_for(u@, occasion)]);
            }
            assert(plan_view(plan@) =~= before + due(table.take(i + 1), occasion, now@));
        }
        i += 1;
    }
    assert(table.take(users.len() as int) =~= table);
}

/// The deliveries that the tick at the clock's time owes to the table's
/// subscribers, in the order in which they are made.
pub fn plan_tick(clock: &Clock, users: &Vec<UserSettings>) -> (plan: Vec<Delivery>)
    ensures
        plan_view(plan@) == tick_plan(clock@, table_view(users@)),
{
    let now = clock.time_text();
    let mut plan: Vec<Delivery> = Vec::new();
    assert(plan_view(plan@) =~= Seq::empty());
    match broadcast_occasion(clock) {
        Some(occasion) => {
            add_due(&mut plan, users, occasion, now.as_str());
        },
        None => {},
    }
    add_due(&mut plan, users, Occasion::Personal, now.as_str());
    assert(plan_view(plan@) =~= tick_plan(clock@, table_view(users@)));
    plan
}

/// Draws a number below `n` from the thread's generator, with
/// `rand::Rng::gen_range` on `rand::thread_rng()`. The draw lies in the
/// range; gen_range panics on an empty range, which `n > 0` rules out.
#[verifier::external_body]
fn random_below(n: usize) -> (i: usize)
    requires
        n > 0,
    ensures
        i < n,
{
    rand::Rng::gen_range(&mut rand::thread_rng(), 0..n)
}

/// One of the ten kind words, drawn at random.
pub fn get_cute_message() -> (text: String)
    ensures
        exists|i: int| 0 <= i < 10 && text@ == #[trigger] cute_message(i),
{
    let i = random_below(10);
    String::from_str(cute_message_at(i))
}

/// One of the ten wishes for the day, drawn at random.
pub fn get_good_day_wish() -> (text: String)
    ensures
        exists|i: int| 0 <= i < 10 && text@ == #[trigger] good_day_wish(i),
{
    let i = random_below(10);
    String::from_str(good_day_wish_at(i))
}

/// The line that opens a delivery: the greeting of the day in the
/// affectionate style, the heading of the occasion in the standard one.
pub open spec fn heading(occasion: Occasion, cute_mode: bool, day: Weekday) -> Seq<char> {
    if cute_mode {
        escaped(
            match occasion {
                Occasion::Personal => morning_greeting(day),
                Occasion::BroadcastMidday => noon_greeting(day),
                Occasion::BroadcastEvening => evening_greeting(day),
            },
        )
    } else {
        match occasion {
            Occasion::Personal => MORNING_HEADER@,
            Occasion::BroadcastMidday => NOON_HEADER@,
            Occasion::BroadcastEvening => EVENING_HEADER@,
        }
    }
}

/// The city and its weather as every delivery shows them.
pub open spec fn weather_block(city: Seq<char>, weather: Seq<char>) -> Seq<char> {
    WEATHER_IN@ + escaped(city) + AFTER_CITY@ + escaped(weather)
}

/// What closes a delivery: nothing in the standard style; in the
/// affectionate one the kind word, and behind it the wish when the delivery
/// is a personal one.
pub open spec fn closing(occasion: Occasion, cute_mode: bool, kind_word: Seq<char>, wish: Seq<char>) -> Seq<
    char,
> {
    if !cute_mode {
        Seq::empty()
    } else if occasion == Occasion::Personal {
        BLANK_LINE@ + escaped(kind_word) + BLANK_LINE@ + escaped(wish)
    } else {
        BLANK_LINE@ + escaped(kind_word)
    }
}

/// The message of a delivery whose weather was fetched.
pub open spec fn delivery_text(
    d: DeliveryView,
    day: Weekday,
    weather: Seq<char>,
    kind_word: Seq<char>,
    wish: Seq<char>,
) -> Seq<char> {
    heading(d.occasion, d.cute_mode, day) + weather_block(d.city, weather) + closing(
        d.occasion,
        d.cute_mode,
        kind_word,
        wish,
    )
}

/// The notice that a personal delivery failed, with the provider's words.
pub open spec fn failure_notice(cute_mode: bool, error: Seq<char>) -> Seq<char> {
    (if cute_mode {
        ERROR_NOTICE_CUTE@
    } else {
        ERROR_NOTICE_PLAIN@
    }) + escaped(error)
}

/// The characters of what the provider answered.
pub open spec fn fetched_view(fetched: Result<String, String>) -> Result<Seq<char>, Seq<char>> {
    match fetched {
        Ok(weather) => Ok(weather@),
        Err(error) => Err(error@),
    }
}

/// Whether the subscriber is sent anything: always when the weather was
/// fetched, and after a failure only on the personal occasion.
pub open spec fn calls_for_message(d: DeliveryView, fetched: Result<Seq<char>, Seq<char>>) -> bool {
    fetched is Ok || d.occasion == Occasion::Personal
}

/// What the subscriber is sent for a delivery: the weather when it was
/// fetched; after a failure the notice of it on the personal occasion, and
/// nothing on a broadcast.
pub open spec fn message_for(
    d: DeliveryView,
    day: Weekday,
    fetched: Result<Seq<char>, Seq<char>>,
    kind_word: Seq<char>,
    wish: Seq<char>,
) -> Option<Seq<char>> {
    match fetched {
        Ok(weather) => Some(delivery_text(d, day, weather, kind_word, wish)),
        Err(error) => if d.occasion == Occasion::Personal {
            Some(failure_notice(d.cute_mode, error))
        } else {
            None
        },
    }
}

/// Writes the message of a delivery from what the provider answered, with
/// the given kind word and wish.
pub fn compose(
    delivery: &Delivery,
    day: Weekday,
    fetched: &Result<String, String>,
    kind_word: &str,
    wish: &str,
) -> (message: Option<String>)
    ensures
        opt_view(message) == message_for(
            delivery@,
            day,
            fetched_view(*fetched),
            kind_word@,
            wish@,
        ),
{
    match fetched {
        Ok(weather) => {
            let mut text = if delivery.cute_mode {
                let greeting = match delivery.occasion {
                    Occasion::Personal => get_greeting(day),
                    Occasion::BroadcastMidday => get_noon_greeting(day),
                    Occasion::BroadcastEvening => get_evening_greeting(day),
                };
                escape_markdown_v2(greeting)
            } else {
                String::from_str(
                    match delivery.occasion {
                        Occasion::Personal => MORNING_HEADER,
                        Occasion::BroadcastMidday => NOON_HEADER,
                        Occasion::BroadcastEvening => EVENING_HEADER,
                    },
                )
            };
            text.append(WEATHER_IN);
            text.append(escape_markdown_v2(delivery.city.as_str()).as_str());
            text.append(AFTER_CITY);
            text.append(escape_markdown_v2(weather.as_str()).as_str());
            if delivery.cute_mode {
                text.append(BLANK_LINE);
                text.append(escape_markdown_v2(kind_word).as_str());
                match delivery.occasion {
                    Occasion::Personal => {
                        text.append(BLANK_LINE);
                        text.append(escape_markdown_v2(wish).as_str());
                    },
                    _ => {},
                }
            }
            assert(text@ =~= delivery_text(delivery@, day, weather@, kind_word@, wish@));
            Some(text)
        },
        Err(error) => match delivery.occasion {
            Occasion::Personal => {
                let mut text = String::from_str(
                    if delivery.cute_mode {
                        ERROR_NOTICE_CUTE
                    } else {
                        ERROR_NOTICE_PLAIN
                    },
                );
                text.append(escape_markdown_v2(error.as_str()).as_str());
                Some(text)
            },
            _ => None,
        },
    }
}

/// Writes the message of a delivery from what the provider answered, the
/// kind word and the wish drawn at random.
pub fn dispatch(delivery: &Delivery, day: Weekday, fetched: &Result<String, String>) -> (message:
    Option<String>)
    ensures
        exists|i: int, j: int|
            0 <= i < 10 && 0 <= j < 10 && opt_view(message) == message_for(
                delivery@,
                day,
                fetched_view(*fetched),
                #[trigger] cute_message(i),
                #[trigger] good_day_wish(j),
            ),
{
    let kind_word = get_cute_message();
    let wish = get_good_day_wish();
    compose(delivery, day, fetched, kind_word.as_str(), wish.as_str())
}

/// What the scheduler is asked to do next.
#[derive(Debug, PartialEq, Eq)]
pub enum Action {
    /// Ask the provider for the weather of the city.
    Fetch { city: String },
    /// Send the text to the subscriber.
    Send { user_id: i64, text: String },
    /// The tick is worked through: sleep until the next one.
    Sleep,
}

/// The mathematical content of an [`Action`].
pub enum ActionView {
    Fetch { city: Seq<char> },
    Send { user_id: int, text: Seq<char> },
    Sleep,
}

impl View for Action {
    type V = ActionView;

    open spec fn view(&self) -> ActionView {
        match *self {
            Action::Fetch { city } => ActionView::Fetch { city: city@ },
            Action::Send { user_id, text } => ActionView::Send {
                user_id: user_id as int,
                text: text@,
            },
            Action::Sleep => ActionView::Sleep,
        }
    }
}

/// What came of the action that the scheduler was asked to do.
#[derive(Debug, PartialEq, Eq)]
pub enum Event {
    /// The provider answered, with the weather or with an error.
    Fetched(Result<String, String>),
    /// The channel took the message, or it did not.
    Sent(bool),
}

/// The mathematical content of an [`Event`].
pub enum EventView {
    Fetched(Result<Seq<char>, Seq<char>>),
    Sent(bool),
}

impl View for Event {
    type V = EventView;

    open spec fn view(&self) -> EventView {
        match *self {
            Event::Fetched(fetched) => EventView::Fetched(fetched_view(fetched)),
            Event::Sent(delivered) => EventView::Sent(delivered),
        }
    }
}

/// One tick of the scheduler while it is worked through: the deliveries
/// that it owes, the one in hand, and whether that one waits for the
/// provider or for the channel.
pub struct Tick {
    plan: Vec<Delivery>,
    weekday: Weekday,
    position: usize,
    sending: bool,
}

/// The mathematical content of a [`Tick`].
pub struct TickView {
    /// The deliveries of the tick, in order.
    pub plan: Seq<DeliveryView>,
    /// The day of the tick.
    pub weekday: Weekday,
    /// The number of deliveries that are behind; the next is in hand.
    pub position: int,
    /// Whether the message of the delivery in hand is with the channel.
    pub sending: bool,
}

impl View for Tick {
    type V = TickView;

    closed spec fn view(&self) -> TickView {
        TickView {
            plan: plan_view(self.plan@),
            weekday: self.weekday,
            position: self.position as int,
            sending: self.sending,
        }
    }
}

/// The tick as it begins.
pub open spec fn tick_start(at: Moment, users: Seq<UserView>) -> TickView {
    TickView { plan: tick_plan(at, users), weekday: at.weekday, position: 0, sending: false }
}

/// The action that opens the delivery at a position: the fetch of its
/// weather, or sleep when the plan has no such delivery.
pub open spec fn opening_action(plan: Seq<DeliveryView>, position: int) -> ActionView {
    if 0 <= position < plan.len() {
        ActionView::Fetch { city: plan[position].city }
    } else {
        ActionView::Sleep
    }
}

/// The event is the provider's answer for the delivery in hand, and the
/// answer calls for a message.
pub open spec fn leads_to_message(t: TickView, e: EventView) -> bool {
    &&& !t.sending
    &&& 0 <= t.position < t.plan.len()
    &&& e matches EventView::Fetched(fetched)
    &&& calls_for_message(t.plan[t.position], fetched)
}

/// The tick after an event. An answer of the provider that calls for a
/// message hands the delivery in hand to the channel. Every other event
/// ends the delivery in hand, however it went, and the next one is taken
/// up.
pub open spec fn step_state(t: TickView, e: EventView) -> TickView {
    if leads_to_message(t, e) {
        TickView { sending: true, ..t }
    } else {
        TickView {
            position: if t.position < t.plan.len() {
                t.position + 1
            } else {
                t.position
            },
            sending: false,
            ..t
        }
    }
}

/// The action after an event: the sending of the message that the
/// provider's answer calls for, or the opening of the next delivery.
pub open spec fn step_action(t: TickView, e: EventView, kind_word: Seq<char>, wish: Seq<char>) -> ActionView {
    if leads_to_message(t, e) {
        ActionView::Send {
            user_id: t.plan[t.position].user_id,
            text: message_for(t.plan[t.position], t.weekday, e->Fetched_0, kind_word, wish)->0,
        }
    } else {
        opening_action(t.plan, step_state(t, e).position)
    }
}

impl Tick {
    #[verifier::type_invariant]
    spec fn inv(self) -> bool {
        self.position <= self.plan.len() && (self.sending ==> self.position < self.plan.len())
    }

    fn open_next(&self) -> (action: Action)
        ensures
            action@ == opening_action(self@.plan, self@.position),
    {
        if self.position < self.plan.len() {
            assert(self@.plan[self.position as int] == self.plan[self.position as int]@);
            Action::Fetch { city: self.plan[self.position].city.clone() }
        } else {
            Action::Sleep
        }
    }

    /// Begins the tick at the clock's time over a copy of the table, and
    /// says what to do first.
    pub fn new(clock: &Clock, users: &Vec<UserSettings>) -> (r: (Tick, Action))
        ensures
            r.0@ == tick_start(clock@, table_view(users@)),
            r.1@ == opening_action(r.0@.plan, 0),
    {
        let plan = plan_tick(clock, users);
        let tick = Tick { plan, weekday: clock.weekday(), position: 0, sending: false };
        let action = tick.open_next();
        (tick, action)
    }

    /// Whether every delivery of the tick is behind.
    pub fn is_finished(&self) -> (finished: bool)
        ensures
            finished == (self@.position >= self@.plan.len()),
            0 <= self@.position <= self@.plan.len(),
    {
        proof {
            use_type_invariant(self);
        }
        self.position >= self.plan.len()
    }

    /// Takes what came of the last action and says what to do next. No
    /// event stops the tick: a failure of the provider or of the channel
    /// ends the delivery in hand only.
    pub fn step(&mut self, event: Event) -> (action: Action)
        ensures
            final(self)@ == step_state(old(self)@, event@),
            exists|i: int, j: int|
                0 <= i < 10 && 0 <= j < 10 && action@ == step_action(
                    old(self)@,
                    event@,
                    #[trigger] cute_message(i),
                    #[trigger] good_day_wish(j),
                ),
    {
        proof {
            use_type_invariant(&*self);
        }
        let ghost before = self@;
        if !self.sending && self.position < self.plan.len() {
            assert(before.plan[self.position as int] == self.plan[self.position as int]@);
            if let Event::Fetched(fetched) = &event {
                let delivery = &self.plan[self.position];
                let message = dispatch(delivery, self.weekday, fetched);
                if let Some(text) = message {
                    let user_id = delivery.user_id;
                    self.sending = true;
                    assert(self@ == step_state(before, event@));
                    return Action::Send { user_id, text };
                }
            }
        }
        self.sending = false;
        if self.position < self.plan.len() {
            self.position = self.position + 1;
        }
        assert(self@ == step_state(before, event@));
        let action = self.open_next();
        assert(action@ == step_action(before, event@, cute_message(0), good_day_wish(0)));
        action
    }
}

/// How often a plan serves a subscriber, counting either the personal
/// deliveries or the broadcasts.
pub open spec fn times_served(plan: Seq<DeliveryView>, user_id: int, personal: bool) -> nat
    decreases plan.len(),
{
    if plan.len() == 0 {
        0
    } else {
        times_served(plan.drop_last(), user_id, personal) + if plan.last().user_id == user_id && (
        plan.last().occasion == Occasion::Personal) == personal {
            1nat
        } else {
            0nat
        }
    }
}

/// A plan made of two serves a subscriber as often as the two together.
pub proof fn lemma_times_served_concat(
    a: Seq<DeliveryView>,
    b: Seq<DeliveryView>,
    user_id: int,
    personal: bool,
)
    ensures
        times_served(a + b, user_id, personal) == times_served(a, user_id, personal)
            + times_served(b, user_id, personal),
    decreases b.len(),
{
    if b.len() == 0 {
        assert(a + b =~= a);
    } else {
        lemma_times_served_concat(a, b.drop_last(), user_id, personal);
        assert((a + b).drop_last() =~= a + b.drop_last());
        assert((a + b).last() == b.last());
    }
}

/// The deliveries of one occasion serve a subscriber of the table once
/// when the subscriber is due, and never when not; they serve no one else.
pub proof fn lemma_due_serves_once(
    users: Seq<UserView>,
    occasion: Occasion,
    now: Seq<char>,
    user_id: int,
    personal: bool,
)
    requires
        unique_ids(users),
    ensures
        times_served(due(users, occasion, now), user_id, personal) == if exists|i: int|
            0 <= i < users.len() && (#[trigger] users[i]).user_id == user_id && is_due(
                users[i],
                occasion,
                now,
            ) && (occasion == Occasion::Personal) == personal {
            1nat
        } else {
            0nat
        },
    decreases users.len(),
{
    if users.len() == 0 {
    } else {
        let front = users.drop_last();
        let last = users.last();
        assert forall|i: int, j: int| 0 <= i < j < front.len() implies (#[trigger] front[i]).user_id
            != (#[trigger] front[j]).user_id by {
            assert(front[i] == users[i]);
            assert(front[j] == users[j]);
        }
        lemma_due_serves_once(front, occasion, now, user_id, personal);
        let tail = if is_due(last, occasion, now) {
            seq![delivery_for(last, occasion)]
        } else {
            Seq::empty()
        };
        lemma_times_served_concat(due(front, occasion, now), tail, user_id, personal);
        let hit_front = exists|i: int|
            0 <= i < front.len() && (#[trigger] front[i]).user_id == user_id && is_due(
                front[i],
                occasion,
                now,
            ) && (occasion == Occasion::Personal) == personal;
        let hit_last = last.user_id == user_id && is_due(last, occasion, now) && (occasion
            == Occasion::Personal) == personal;
        let hit = exists|i: int|
            0 <= i < users.len() && (#[trigger] users[i]).user_id == user_id && is_due(
                users[i],
                occasion,
                now,
            ) && (occasion == Occasion::Personal) == personal;
        if is_due(last, occasion, now) {
            assert(tail.drop_last() =~= Seq::<DeliveryView>::empty());
            assert(times_served(tail.drop_last(), user_id, personal) == 0);
            assert(times_served(tail, user_id, personal) == if hit_last {
                1nat
            } else {
                0nat
            });
        } else {
            assert(times_served(tail, user_id, personal) == 0);
        }
        if hit_front {
            let i = choose|i: int|
                0 <= i < front.len() && (#[trigger] front[i]).user_id == user_id && is_due(
                    front[i],
                    occasion,
                    now,
                ) && (occasion == Occasion::Personal) == personal;
            assert(front[i] == users[i]);
            assert(users[i].user_id != users[users.len() - 1].user_id);
            assert(hit);
            assert(!hit_last);
        } else if hit_last {
            assert(users[users.len() - 1] == last);
            assert(hit);
        } else {
            if hit {
                let i = choose|i: int|
                    0 <= i < users.len() && (#[trigger] users[i]).user_id == user_id && is_due(
                        users[i],
                        occasion,
                        now,
                    ) && (occasion == Occasion::Personal) == personal;
                if i < front.len() {
                    assert(front[i] == users[i]);
                }
                assert(false);
            }
        }
    }
}

/// At every tick, a subscriber of a table without doubles gets exactly
/// one personal delivery when they have a city and their delivery time is
/// the time of the tick, and no personal delivery otherwise.
pub proof fn law_personal_delivery_once(at: Moment, users: Seq<UserView>, i: int)
    requires
        unique_ids(users),
        0 <= i < users.len(),
    ensures
        times_served(tick_plan(at, users), users[i].user_id, true) == if users[i].city is Some
            && users[i].notification_time == Some(hhmm(at.hour, at.minute)) {
            1nat
        } else {
            0nat
        },
{
    let now = hhmm(at.hour, at.minute);
    let id = users[i].user_id;
    let personal = due(users, Occasion::Personal, now);
    let broadcast = match broadcast_at(at.hour, at.minute) {
        Some(occasion) => due(users, occasion, now),
        None => Seq::empty(),
    };
    lemma_times_served_concat(broadcast, personal, id, true);
    match broadcast_at(at.hour, at.minute) {
        Some(occasion) => {
            lemma_due_serves_once(users, occasion, now, id, true);
        },
        None => {},
    }
    lemma_due_serves_once(users, Occasion::Personal, now, id, true);
    if is_due(users[i], Occasion::Personal, now) {
    } else {
        if exists|j: int|
            0 <= j < users.len() && (#[trigger] users[j]).user_id == id && is_due(
                users[j],
                Occasion::Personal,
                now,
            ) && (Occasion::Personal == Occasion::Personal) == true {
            let j = choose|j: int|
                0 <= j < users.len() && (#[trigger] users[j]).user_id == id && is_due(
                    users[j],
                    Occasion::Personal,
                    now,
                ) && (Occasion::Personal == Occasion::Personal) == true;
            if j < i {
                assert(users[j].user_id != users[i].user_id);
            } else if i < j {
                assert(users[i].user_id != users[j].user_id);
            }
            assert(false);
        }
    }
}

/// At a tick on a broadcast time, a subscriber of a table without doubles
/// gets exactly one broadcast when they have a city, whatever their own
/// delivery time, and none when they have no city. At any other tick no
/// one gets a broadcast.
pub proof fn law_broadcast_once(at: Moment, users: Seq<UserView>, i: int)
    requires
        unique_ids(users),
        0 <= i < users.len(),
    ensures
        times_served(tick_plan(at, users), users[i].user_id, false) == if broadcast_at(
            at.hour,
            at.minute,
        ) is Some && users[i].city is Some {
            1nat
        } else {
            0nat
        },
{
    let now = hhmm(at.hour, at.minute);
    let id = users[i].user_id;
    let personal = due(users, Occasion::Personal, now);
    let broadcast = match broadcast_at(at.hour, at.minute) {
        Some(occasion) => due(users, occasion, now),
        None => Seq::empty(),
    };
    lemma_times_served_concat(broadcast, personal, id, false);
    lemma_due_serves_once(users, Occasion::Personal, now, id, false);
    match broadcast_at(at.hour, at.minute) {
        Some(occasion) => {
            lemma_due_serves_once(users, occasion, now, id, false);
            if is_due(users[i], occasion, now) {
            } else {
                if exists|j: int|
                    0 <= j < users.len() && (#[trigger] users[j]).user_id == id && is_due(
                        users[j],
                        occasion,
                        now,
                    ) && (occasion == Occasion::Personal) == false {
                    let j = choose|j: int|
                        0 <= j < users.len() && (#[trigger] users[j]).user_id == id && is_due(
                            users[j],
                            occasion,
                            now,
                        ) && (occasion == Occasion::Personal) == false;
                    if j < i {
                        assert(users[j].user_id != users[i].user_id);
                    } else if i < j {
                        assert(users[i].user_id != users[j].user_id);
                    }
                    assert(false);
                }
            }
        },
        None => {},
    }
}

/// A failure of the provider on a personal delivery is reported to the
/// subscriber, and the tick goes on: whether or not the channel takes the
/// notice, the next delivery is opened, and when its weather is fetched
/// its subscriber is sent the weather as on any other day.
pub proof fn law_failure_is_reported_and_tick_goes_on(
    t: TickView,
    error: Seq<char>,
    delivered: bool,
    weather: Seq<char>,
    kind_word: Seq<char>,
    wish: Seq<char>,
)
    requires
        !t.sending,
        0 <= t.position < t.plan.len(),
        t.plan[t.position].occasion == Occasion::Personal,
    ensures
        step_action(t, EventView::Fetched(Err(error)), kind_word, wish) == (ActionView::Send {
            user_id: t.plan[t.position].user_id,
            text: failure_notice(t.plan[t.position].cute_mode, error),
        }),
        ({
            let reported = step_state(t, EventView::Fetched(Err(error)));
            let next = step_state(reported, EventView::Sent(delivered));
            &&& step_action(reported, EventView::Sent(delivered), kind_word, wish)
                == opening_action(t.plan, t.position + 1)
            &&& next.position == t.position + 1
            &&& !next.sending
            &&& next.plan == t.plan
            &&& t.position + 1 < t.plan.len() ==> step_action(
                next,
                EventView::Fetched(Ok(weather)),
                kind_word,
                wish,
            ) == (ActionView::Send {
                user_id: t.plan[t.position + 1].user_id,
                text: delivery_text(t.plan[t.position + 1], t.weekday, weather, kind_word, wish),
            })
        }),
{
}

/// A tick is worked through in at most two events for each delivery: no
/// event moves it backwards, and every second one moves it forwards.
pub proof fn law_tick_goes_forward(t: TickView, first: EventView, second: EventView)
    requires
        0 <= t.position < t.plan.len(),
    ensures
        step_state(t, first).position >= t.position,
        step_state(step_state(t, first), second).position >= t.position + 1,
        step_state(step_state(t, first), second).position <= t.plan.len(),
{
}

} // verus!
