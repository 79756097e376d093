//! The decisions of a trader of five-minute up/down markets: the fair value
//! of a window, the evaluation of windows against spot and books, risk,
//! orders, redemption, and the steps of each lifecycle. Everything that is
//! counted is an integer: prices, probabilities, fractions and money in
//! millionths, times in milliseconds. Nothing here waits, connects or
//! writes; the program around the library does.

pub mod units;
pub mod text;
pub mod strmap;
pub mod json;
pub mod dates;
pub mod clock;
pub mod config;
pub mod fair_value;
pub mod risk;
pub mod window;
pub mod book;
pub mod discovery;
pub mod strike;
pub mod divergence;
pub mod feeds;
pub mod data;
pub mod redemption;
pub mod executor;
pub mod lifecycle;
pub mod logging;
