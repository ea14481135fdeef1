//! The core of FerrisBot, a bot that tells its subscribers the weather on
//! request and on a daily schedule.
//!
//! The library decides and the program around it acts. It holds the
//! subscriber records and their table ([`storage`]), the conversation with
//! a subscriber ([`interaction`], [`keyboard`]), and the schedule of
//! deliveries with the texts that are delivered ([`scheduler`],
//! [`messages`], [`utils`]). Of the weather report it holds what works on
//! whole numbers and text ([`weather`], [`forecast`]). Reading files,
//! talking to the weather service and to the message channel, and waiting
//! are left to the caller, who hands over what was read and carries out
//! what was decided.
//!
//! Every function states what it returns over a mathematical view of its
//! arguments, and the laws that the functions obey together are proved
//! beside them.

pub mod clock;
pub mod forecast;
pub mod interaction;
pub mod keyboard;
pub mod messages;
pub mod order;
pub mod scheduler;
pub mod storage;
pub mod text;
pub mod timefmt;
pub mod utils;
pub mod weather;
