//! Weekly, age-stratified statistics on vaccination, infections and deaths.
//!
//! Four sources are joined: the population by age, the weekly vaccination
//! table, the register of deaths and the register of infections. For each ISO
//! week and age bracket the library counts the people by vaccination status
//! and the events among them, and derives rates per million, risk ratios and
//! case-fatality ratios. Rates and ratios are kept as exact quotients of
//! whole numbers; turning them into floating-point numbers is left to the
//! caller.
//!
//! - [`cohort`]: the keys, ISO week and age bracket.
//! - [`calendar`]: dates, and the weeks they fall in.
//! - [`text`], [`labels`]: reading and writing the labels of the sources.
//! - [`demographics`]: the population by age.
//! - [`vaccination`]: the running count of vaccinated people.
//! - [`deaths`]: the two registers of events.
//! - [`report`]: the report of one week and bracket.
//! - [`collection`]: the reports of all weeks, and means over the brackets.

pub mod calendar;
pub mod cohort;
pub mod collection;
pub mod deaths;
pub mod demographics;
pub mod labels;
pub mod report;
pub mod text;
pub mod vaccination;
