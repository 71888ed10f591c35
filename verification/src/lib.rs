//! The decisions a web view delegate makes on behalf of the application that embeds the engine:
//! which callbacks run and with which arguments, which controls are offered to the application,
//! and what the engine gets back.
//!
//! - [`tag`]: the kinds of control and the bitmask over them.
//! - [`origin`]: the origin text of the document that triggered a control.
//! - [`control`]: the control as the application sees it.
//! - [`delegate`]: the delegate and its controller.

pub mod control;
pub mod delegate;
pub mod origin;
pub mod tag;
