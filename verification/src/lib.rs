//! Card references in chat text, and the display text of the cards they name.
//!
//! The crate finds `{{name}}` and `{{!search}}` references in a message,
//! normalises the queries they hold, and turns a card record with its
//! rich-text rules into the strings of a reply. Every function is pure:
//! fetching cards and sending replies is left to the caller.

pub mod text;
pub mod rich_text;
pub mod normalize;
pub mod extract;
pub mod card;
pub mod pipeline;
