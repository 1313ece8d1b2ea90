//! Rebuilds the rounds of a four-player mahjong match from the flat log of
//! its actions.
//!
//! The log ([`mjlog`]) lists what happened in the order it happened: rounds
//! start, seats draw, discard and call, rounds end in wins or draws. The
//! rebuilt match ([`tenhou`]) holds each round by itself: its settings, what
//! each seat was dealt, took in and gave out, and how it ended and scored.
//! [`conv_to_tenhou_json`] is the whole conversion. The ruleset of the log's
//! first table setup says whether the match has red fives, and every tile is
//! decoded and every call laid out accordingly: a match without red fives is
//! rebuilt without any. The other modules hold the parts:
//!
//! - [`splitter`] cuts the log into rounds.
//! - [`tile`] decodes raw tiles, [`meld`] lays calls out as they lie on the
//!   table, [`hand`] puts hands in display order.
//! - [`settings`] reads a round's settings and indicators.
//! - [`replay`] replays a seat's actions.
//! - [`result`] and [`score`] find and score a round's end.
//! - [`connection`] collects the seats' leaving and rejoining.
//! - [`xml_json_conv`] puts the parts together, round by round.
//!
//! A function that takes lists states what it computes over their views: the
//! sequences they hold. [`error::agrees`] compares an outcome with the one it
//! is meant to be.

pub mod connection;
pub mod error;
pub mod hand;
pub mod meld;
pub mod mjlog;
pub mod points;
pub mod replay;
pub mod result;
pub mod score;
pub mod settings;
pub mod splitter;
pub mod tenhou;
pub mod tile;
pub mod xml_json_conv;

pub use error::{ConvError, ConvResult};
pub use tile::{conv_hai_to_tile, conv_tile_from_u8, Hai, Tile};
pub use xml_json_conv::conv_to_tenhou_json;
