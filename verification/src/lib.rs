//! Verified core of a terminal client for the Construct messenger.

pub mod app;
pub mod auth;
pub mod bridge;
pub mod clock;
pub mod codec;
pub mod config;
pub mod crypto;
pub mod draw;
pub mod engine_adapter;
pub mod grpc;
pub mod ids;
pub mod keys;
pub mod laws;
pub mod layout;
pub mod orchestrator_task;
pub mod screens;
pub mod secret;
pub mod storage;
pub mod streaming;
pub mod text;
pub mod view;
