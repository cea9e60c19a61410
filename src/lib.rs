//! Conversion between numeric CF time offsets and calendar datetimes, for the
//! six calendars of the CF conventions, with every conversion proved against a
//! mathematical model of the calendars.

pub mod calendars;
pub mod civil;
pub mod constants;
pub mod datetime;
pub mod datetimes;
pub mod decoder;
pub mod duration;
pub mod encoder;
pub mod errors;
pub mod parser;
pub mod text;
pub mod timezone;
pub mod utils;
