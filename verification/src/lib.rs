//! The decision core of a desktop-indicator menu that controls a headset.
//!
//! A menu click carries no arguments. This crate turns such a click, together
//! with what the connected device currently reports, into the single setting
//! write that the click stands for, or into nothing at all. It owns the rules
//! (negate a toggle, advance an enumerated setting, find a preset by its
//! label); the caller owns the threads, the menu toolkit and the device
//! transport, and hands plain values in and out.

pub mod dispatch;
pub mod manager;
pub mod menu;
pub mod notice;
pub mod preset;
pub mod resolver;
pub mod setting;
pub mod slot;

pub use dispatch::{submit, Submission};
pub use manager::{Effect, TrayManager};
pub use menu::{menu_entries, Action, Lifecycle, MenuEntry, Startup};
pub use notice::{Notice, Severity};
pub use setting::{Command, Setting, SettingId, Value};
pub use slot::DeviceSlot;
