//! Choices of the window's layout: the header and the arrangement that
//! suits the screen's width.

use vstd::prelude::*;
use vstd::string::*;

use crate::text::{copy_text, join2};
use crate::view::{Badge, Tone};

verus! {

/// The header of the window.
#[derive(Debug)]
pub struct AppHeader {
    /// The window's title.
    pub title: String,
    /// The connection line.
    pub status: Badge,
}

/// The view of an optional borrowed text.
pub open spec fn opt_view(t: Option<&str>) -> Option<Seq<char>> {
    match t {
        Some(s) => Some(s@),
        None => None,
    }
}

/// The connection line of the header.
pub open spec fn header_line(connected: bool, device_info: Option<Seq<char>>) -> Seq<char> {
    if !connected {
        "Disconnected"@
    } else {
        match device_info {
            Some(i) => "Connected: "@ + i,
            None => "Connected"@,
        }
    }
}

/// The whole window: header, controls and information.
pub struct MainLayout;

impl MainLayout {
    /// The header: the title, and the connection with the device's
    /// identification when connected.
    pub fn create_app_header(is_connected: bool, device_info: Option<&str>) -> (h: AppHeader)
        ensures
            h.title@ == "Lumidox II Controller"@,
            h.status.text@ == header_line(is_connected, opt_view(device_info)),
            h.status.tone == if is_connected {
                Tone::Success
            } else {
                Tone::Danger
            },
    {
        let text = if is_connected {
            match device_info {
                Some(info) => join2("Connected: ", info),
                None => copy_text("Connected"),
            }
        } else {
            copy_text("Disconnected")
        };
        let tone = if is_connected {
            Tone::Success
        } else {
            Tone::Danger
        };
        AppHeader { title: copy_text("Lumidox II Controller"), status: Badge { text, tone } }
    }
}

/// How the panels are arranged.
#[derive(Debug, Clone, Copy, PartialEq, Eq, Structural)]
pub enum LayoutKind {
    /// Controls beside the information, for wide screens.
    Horizontal,
    /// The standard arrangement.
    Standard,
    /// Tight spacing, for small screens.
    Compact,
}

/// Arrangements of the panels.
pub struct LayoutComponents;

impl LayoutComponents {
    /// The arrangement for a screen width: side by side from 1200 pixels,
    /// standard from 800, compact below.
    pub fn create_responsive_layout(screen_width: u32) -> (k: LayoutKind)
        ensures
            screen_width >= 1200 ==> k == LayoutKind::Horizontal,
            800 <= screen_width < 1200 ==> k == LayoutKind::Standard,
            screen_width < 800 ==> k == LayoutKind::Compact,
    {
        if screen_width >= 1200 {
            LayoutKind::Horizontal
        } else if screen_width >= 800 {
            LayoutKind::Standard
        } else {
            LayoutKind::Compact
        }
    }
}

} // verus!
