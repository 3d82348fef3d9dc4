//! State and transition logic of a terminal dashboard for a node process.

pub mod app;
pub mod command;
pub mod controls;
pub mod cycle;
pub mod decimal;
pub mod entity;
pub mod envfile;
pub mod handler;
pub mod layout;
pub mod lines;
pub mod list;
pub mod metrics;
pub mod modal;
pub mod peer_list;
pub mod tabs;
pub mod text;
