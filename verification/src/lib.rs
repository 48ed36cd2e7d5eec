//! Window-frame logic of a Slint + Win32 borderless window template:
//! non-client hit testing, caption-button tracking, DWM attribute plans,
//! CBT-hook window matching and secondary-window lifecycle decisions.
//!
//! Everything here is plain computation; the Win32 and Slint calls that feed
//! these functions and act on their results live in the application.

pub mod geometry;

pub mod controls;
pub mod attributes;
pub mod hook;
pub mod sys_info;
pub mod effects;
pub mod lifecycle;
