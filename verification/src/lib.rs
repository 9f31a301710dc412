//! Verified core of CodeX Notice: the notification rule engine, the task
//! processing plan, scan and dispatch bookkeeping, merge summaries, Codex state
//! row decoding and notification text.

pub mod app_commands;
pub mod detection;
pub mod domain;
pub mod notifications;
pub mod processor;
pub mod rules;
pub mod runtime;
pub mod scanner;
pub mod scheduler;
pub mod storage;
pub mod text;
