//! Sharing GPU contexts and textures between a UI compositor and the code that draws into them.
//!
//! A backend wraps its device in an [`ExternalGpuContext`] and each of its textures in an
//! [`ExternalTextureHandle`]. The compositor samples a texture under a sample reservation, an
//! external producer writes it under a write reservation, and one atomic word per texture keeps
//! the two apart. The module [`protocol`] shows, of a model that takes the same steps on the word,
//! that no interleaving of them mixes the two.
pub mod access;
pub mod completion;
pub mod context;
pub mod handle;
pub mod ids;
pub mod laws;
pub mod payload;
pub mod protocol;
pub mod read_only;
pub mod reservation;
pub mod reserve;
pub mod rights;
pub mod sample;
pub mod stage;
pub mod submission;
pub mod text;
pub mod token;
pub mod wgpu_context;
pub mod write_hold;

pub use access::{AccessStep, ExternalTextureAccess};
pub use completion::{
    CompletionEvent, CompletionPhase, WgpuCompletionPoller, COMPLETION_SETTLE_MICROS,
};
pub use context::ExternalGpuContext;
pub use handle::{ExternalTextureHandle, WeakExternalTextureHandle};
pub use ids::{ExternalTextureId, ExternalTextureIds};
pub use reservation::{ExternalTextureSampleReservation, ExternalTextureWriteReservation};
pub use stage::SampleStep;
pub use submission::ExternalTextureSampleSubmission;
pub use token::ExternalGpuDeviceToken;
pub use wgpu_context::{WgpuExternalContext, WgpuExternalTexture};
