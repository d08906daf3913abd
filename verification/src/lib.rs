//! Shared library of the Fodder feed reader: poll scheduling and backoff,
//! feed parsing and deduplication, redirect handling, feed discovery, the
//! article renderers (HTML to blocks, HTML to Pango markup), settings and
//! configuration, the daemon/viewer messages and their framing, and the
//! texts of notifications, status lines and article meta lines.

pub mod text;
pub mod version;
pub mod config;
pub mod settings;
pub mod paths;
pub mod autostart;
pub mod upgrade;
pub mod schedule;
pub mod poller;
pub mod scheduler;
pub mod refresh;
pub mod models;
pub mod web;
pub mod feed;
pub mod parse;
pub mod dedupe;
pub mod fetch;
pub mod discover;
pub mod render;
pub mod reader;
pub mod meta;
pub mod ipc;
pub mod viewer;
pub mod daemon;
pub mod notify;
pub mod icon;
