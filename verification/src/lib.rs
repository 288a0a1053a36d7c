//! Decisions behind a small toolkit of GUI components: splitters, widget
//! updates, window settings and file dialogs, kept apart from the toolkit.
pub mod layout;
pub mod text;
pub mod settings;
pub mod update;
pub mod dialog;
pub mod component;
