//! Keeps a status-bar widget in step with a media player that speaks MPRIS.
//!
//! The crate holds the decisions of such a widget: how a title and an artist
//! are fitted into a fixed width, how the player's metadata is decoded, which
//! buttons exist and what a click on them means. Talking to the bus is left to
//! the caller, who feeds the replies in and carries the commands out.

pub mod block;
pub mod errors;
pub mod fit;
pub mod ident;
pub mod mbackend;
pub mod music;
pub mod static_music;
pub mod text;
pub mod utils;
pub mod value;
pub mod widget;
