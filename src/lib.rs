//! Camera device discovery and tracking: the policy layer that keeps the
//! live, filtered and duplicate-free list of cameras reported by a discovery
//! backend, and republishes every change to its observers.
pub mod camera;
pub mod error;
pub mod laws;
pub mod provider;

pub use camera::{Camera, CameraView};
pub use error::{PipewireError, ProviderError};
pub use provider::{
    Backend, BusMessage, DeviceProvider, EventView, ListChange, MessageOutcome, ProviderEvent,
    ProviderView,
};
