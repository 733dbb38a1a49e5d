//! A minimal host for real-time audio callbacks: bounds-checked block
//! buffers, the per-block render state, the callback registry and the
//! session lifecycle, each with a proved contract.

pub mod block;
pub mod handlers;
pub mod lifecycle;
pub mod registry;
pub mod sample;
pub mod settings;
pub mod shared;
pub mod state;

pub use block::{AudioBlock, RenderContext, ViewError};
pub use handlers::{render, render_counted, setup};
pub use lifecycle::{Action, Controller, Event, Phase, Session, SessionError};
pub use registry::{BackendEvent, Callback, CallbackRegistry, Stage};
pub use sample::Sample;
pub use settings::{ConfigError, Handlers, SampleRateClass, Settings};
pub use shared::{render_shared, SharedState};
pub use state::RuntimeState;
