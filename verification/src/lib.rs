//! DialKey platform logic: the resident host's decisions, the typing window,
//! hooks and triggers, Search, Settings (commands, forms, saving, layout),
//! tray, hotkey, autostart, launch hand-off and window placement.

pub mod text;
pub mod platform;

pub mod host;
pub mod typing;
pub mod mode_runtime;
pub mod mouse_hook;
pub mod hotkey;
pub mod tray;
pub mod search;

pub mod settings;
pub mod settings_dispatch;
pub mod settings_save;
pub mod settings_layout;
pub mod settings_general;
pub mod settings_keys;
pub mod settings_pages;
pub mod settings_tabs;
pub mod settings_restore;
pub mod slots_choice;

pub mod autostart;
pub mod launch_ipc;
pub mod launch_queue;
pub mod single_instance;
pub mod shell;
pub mod focus_existing;
pub mod placement;
pub mod locale;
