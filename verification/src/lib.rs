//! Verified decision logic of the NYON client: the Classic session and its
//! first-run guidance, settings and keyboard focus, keyboard routing, the
//! scenario editor's confirmations, durable exit, GPU startup, graphics
//! quality, fixed-step timing, portable transfer, the product shell with
//! its Workshop Library and dialogs, the advisory controller, the render
//! upload plans and the bitmap font.

pub mod onboarding;
pub mod store;
pub mod transfer;
pub mod client;
pub mod library;
pub mod durable_exit;
pub mod presentation;
pub mod settings;
pub mod quality;
pub mod time;
pub mod lifecycle;
pub mod game;
pub mod input;
pub mod session;
pub mod shader;
pub mod render;
pub mod advisory;
pub mod backend;
pub mod editor;
pub mod runtime;
pub mod app_core;
pub mod keyboard;
pub mod editor_flow;
pub mod glyphs;
pub mod library_dialog;
