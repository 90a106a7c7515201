//! Configuration of a new ticket window.
//!
//! When no window is live for an identifier, one is built from this
//! configuration: the derived label, a content address whose query marks the
//! window as a satellite and whose fragment routes to the ticket view, a
//! human-readable title, fixed initial and minimum sizes in logical units,
//! and centered placement on the primary display.

use vstd::prelude::*;
use vstd::string::StringExecFns;

use crate::decimal::dec_digits;
use crate::decimal::push_decimal;
use crate::label::label_of;
use crate::label::ticket_label;

verus! {

/// Initial window width, in logical units.
pub const INITIAL_WIDTH: u32 = 1000;

/// Initial window height, in logical units.
pub const INITIAL_HEIGHT: u32 = 800;

/// Minimum window width, in logical units.
pub const MIN_WIDTH: u32 = 600;

/// Minimum window height, in logical units.
pub const MIN_HEIGHT: u32 = 400;

/// The content address of a ticket window, relative to the application root:
/// the query flag marks a satellite ticket window, the fragment routes the
/// front-end to the ticket's detail view.
pub open spec fn url_of(ticket_id: u32) -> Seq<char> {
    "/?ticketWindow=true#/ticket/"@ + dec_digits(ticket_id as nat)
}

/// The window title shown to the user.
pub open spec fn title_of(ticket_id: u32) -> Seq<char> {
    "Ticket #"@ + dec_digits(ticket_id as nat)
}

/// Everything the windowing host needs to build a ticket window.
pub struct WindowConfig {
    /// The label the host files the window under.
    pub label: String,
    /// The content address the new window loads.
    pub url: String,
    /// The window title.
    pub title: String,
    /// Initial width in logical units.
    pub width: u32,
    /// Initial height in logical units.
    pub height: u32,
    /// Minimum width in logical units.
    pub min_width: u32,
    /// Minimum height in logical units.
    pub min_height: u32,
    /// Whether the window starts centered on the primary display.
    pub centered: bool,
}

impl WindowConfig {
    /// The configuration a ticket window is always built from: derived label,
    /// address and title, the fixed sizes, centered.
    pub open spec fn is_for(self, ticket_id: u32) -> bool {
        &&& self.label@ == label_of(ticket_id)
        &&& self.url@ == url_of(ticket_id)
        &&& self.title@ == title_of(ticket_id)
        &&& self.width == INITIAL_WIDTH
        &&& self.height == INITIAL_HEIGHT
        &&& self.min_width == MIN_WIDTH
        &&& self.min_height == MIN_HEIGHT
        &&& self.centered
    }
}

/// Derives the content address for `ticket_id`.
pub fn ticket_url(ticket_id: u32) -> (s: String)
    ensures
        s@ == url_of(ticket_id),
{
    let mut s = String::from_str("/?ticketWindow=true#/ticket/");
    push_decimal(&mut s, ticket_id);
    s
}

/// Derives the window title for `ticket_id`.
pub fn ticket_title(ticket_id: u32) -> (s: String)
    ensures
        s@ == title_of(ticket_id),
{
    let mut s = String::from_str("Ticket #");
    push_decimal(&mut s, ticket_id);
    s
}

/// Builds the full configuration of the window for `ticket_id`.
pub fn ticket_window_config(ticket_id: u32) -> (c: WindowConfig)
    ensures
        c.is_for(ticket_id),
{
    WindowConfig {
        label: ticket_label(ticket_id),
        url: ticket_url(ticket_id),
        title: ticket_title(ticket_id),
        width: INITIAL_WIDTH,
        height: INITIAL_HEIGHT,
        min_width: MIN_WIDTH,
        min_height: MIN_HEIGHT,
        centered: true,
    }
}

} // verus!
