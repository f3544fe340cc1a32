//! Verified core of the autossh tunnel supervisor and its tray front end.
//!
//! The crate holds the decisions of the program: which tray event or menu
//! entry becomes which command, how the notification-area and window icons
//! are produced from the bundled `.ico` bytes, how log lines look and when the
//! log file rotates, and how the supervisor reacts to configuration changes,
//! to finished ssh attempts and to stop requests.
pub mod logger;
pub mod supervisor;
pub mod tray;
pub mod tunnel_icon;
pub mod worker;
