//! A panel applet with a clock, a calendar, a stopwatch and a countdown timer.
//!
//! `window` is the state of the applet: what each message does to it, and what it sends out.
//! `subscription` paces the messages. `panel`, `calendar`, `pages` and `settings` say what is
//! on show, with the buttons of `controls`. `laws`, `message_laws` and `frame` state what holds
//! over the messages, `view_laws` what holds of the views and `text_laws` of the texts.
//! The rest are the parts: dates, formats, texts, readouts, cities and settings.

pub mod calendar;
pub mod cities;
pub mod config;
pub mod controls;
pub mod date;
pub mod datetime;
pub mod frame;
pub mod laws;
pub mod locale;
pub mod message_laws;
pub mod pages;
pub mod panel;
pub mod readout;
pub mod settings;
pub mod subscription;
pub mod text;
pub mod text_laws;
pub mod view_laws;
pub mod window;
