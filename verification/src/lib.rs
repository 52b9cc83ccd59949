//! The decisions behind a terminal viewer for Kubernetes pod logs.
//!
//! The pods of a namespace are tabs, and the log of the selected pod is followed. A
//! [`tui::Dashboard`] takes events and says what is to be done; [`draw`] says what the screen shows;
//! [`k8s`] says what is asked of the cluster. A program around the library reads the keyboard, draws
//! and talks to the cluster.

pub mod buffer;
pub mod buffer_laws;
pub mod draw;
pub mod draw_laws;
pub mod event_laws;
pub mod follow_laws;
pub mod k8s;
pub mod k8s_laws;
pub mod keys;
pub mod layout;
pub mod names;
pub mod style;
pub mod text;
pub mod tui;
pub mod tui_laws;
