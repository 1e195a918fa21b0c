//! Verified state and decision logic of the raccpack terminal UI.
//!
//! The library holds every screen's state machine (navigation, key routing,
//! the raid / pack / reveal modal flows, the findings filter and sort, the
//! activity stream) and the text it derives for display. Terminal I/O,
//! drawing and the worker thread live outside the library.

pub mod keys;
pub mod nav;
pub mod operations;
pub mod text;
pub mod domain;
pub mod table;
pub mod sniff;
pub mod paths;
pub mod dig;
pub mod units;
pub mod activity;
pub mod activity_feed;
pub mod secret;
pub mod passphrase;
pub mod raid;
pub mod pack;
pub mod worker;
pub mod reveal_modal;
pub mod app;
pub mod event;
pub mod theme;
pub mod palette;
pub mod styled;
pub mod raid_view;
pub mod pack_view;
pub mod footer;
pub mod reveal_view;
pub mod projects_view;
pub mod findings_view;
pub mod help;
pub mod cli;
pub mod sidebar_view;
pub mod overview_view;
pub mod operations_view;
pub mod panels_view;
