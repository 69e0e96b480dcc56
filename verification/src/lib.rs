//! Verified core of a tray-resident desktop wrapper around WhatsApp Web:
//! the window title and taskbar overlay that follow the unread count, the
//! pixel layout of the numeric badge icon, the tray menu and its commands,
//! and the script injected into the web view.

pub mod badge;
pub mod icon;
pub mod tray;
pub mod script;
