//! Core of a survival trading bot: an orchestration engine that each cycle
//! checks the bot's lifecycle, evaluates risk on open positions, consults an
//! external decision oracle, sizes and books trades, and records an audit
//! trail. All monetary quantities are fixed-point integers (see `money`), so
//! the arithmetic of sizing, stop-loss enforcement and profit-and-loss is
//! verified exactly.

pub mod money;
pub mod text;
pub mod models;
pub mod risk;
pub mod extract;
pub mod parser;
pub mod stats;
pub mod markets;
pub mod signing;
pub mod prompt;
pub mod engine;
pub mod strategy;
