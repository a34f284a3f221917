//! Verified core of the Velosi activity tracker: activity categorisation,
//! focus-mode decisions, tracking/pause state, analytics, proxy request
//! handling and the text helpers they rest on.

pub mod text;
pub mod tracker;
pub mod tracking;
pub mod keyed;
pub mod models;
pub mod categorize;
pub mod focus;
pub mod activity;
pub mod analytics;
pub mod overlay;
pub mod proxy;
pub mod firewall;
pub mod tray;
pub mod migrations;
pub mod mappings;
pub mod pomodoro;
pub mod scripts;
pub mod events;
pub mod laws;
pub mod seed;
