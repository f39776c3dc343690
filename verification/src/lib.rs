//! A minimal 2D application runtime: input tracking, frame timing, and a
//! frame-loop core, each with a machine-checked contract. Platform glue
//! (window creation, graphics calls, event polling, sleeping) is reached
//! only through capability traits, so the loop core is verified on its own.

pub mod color;
pub mod context;
pub mod event;
pub mod input;
pub mod render;
pub mod time;

pub use color::Color;
pub use context::{Context, ContextBuilder, WindowConfig};
pub use event::{run_iteration, Event, EventHandler, Platform};
pub use input::{InputContext, InputState};
pub use render::RenderSurface;
pub use time::TimeContext;
