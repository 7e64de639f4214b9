//! A windowing abstraction core: a uniform `Display`/`Window` contract over
//! native windowing backends, with a normalized, compressed per-window event
//! queue and a message protocol toward a dedicated render thread.
//!
//! The native protocol bindings and the GPU backend are outside collaborators:
//! this crate holds the event-collection and state-reconciliation logic that
//! every backend must implement, stated over plain values. A driver owns the
//! native connection, decodes its notifications into [`display::PtrEvent`]
//! values, and performs the [`window::NativeCmd`] commands the adapters decide
//! on.

pub mod display;
pub mod geometry;
pub mod key;
pub mod keymap;
pub mod handler;
pub mod mouse;
pub mod platform;
pub mod render;
pub mod shared;
pub mod win32_rect;
pub mod window;
pub mod xcb_state;
