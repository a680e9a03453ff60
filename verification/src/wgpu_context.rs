//! The WGPU backend's side of an external GPU context.
#[allow(unused_imports)]
use std::sync::atomic::{AtomicBool, Ordering};
use std::sync::Arc;

use vstd::prelude::*;

use crate::completion::WgpuCompletionPoller;
use crate::context::ExternalGpuContext;
use crate::handle::ExternalTextureHandle;
use crate::ids::ExternalTextureIds;
#[allow(unused_imports)]
use crate::read_only::{loads_only_look, Flag};
use crate::read_only::ReadOnly;
use crate::token::ExternalGpuDeviceToken;

verus! {

/// The device of `wgpu`.
#[verifier::external_type_specification]
#[verifier::external_body]
pub struct ExDevice(wgpu::Device);

/// The command queue of `wgpu`.
#[verifier::external_type_specification]
#[verifier::external_body]
pub struct ExQueue(wgpu::Queue);

/// The texture view of `wgpu`.
#[verifier::external_type_specification]
#[verifier::external_body]
pub struct ExTextureView(wgpu::TextureView);

/// The concrete WGPU payload carried by [`ExternalGpuContext`].
///
/// Call [`Self::from_gpui`] to downcast the runtime-neutral handle, then
/// use the cloned device and queue to create resources that the compositor can sample
/// without a CPU readback or cross-device copy.
pub struct WgpuExternalContext {
    device: Arc<wgpu::Device>,
    queue: Arc<wgpu::Queue>,
    token: ExternalGpuDeviceToken,
    device_lost: ReadOnly<AtomicBool>,
    completion_poller: WgpuCompletionPoller,
}

impl WgpuExternalContext {
    /// The shared device.
    pub closed spec fn spec_device(&self) -> &Arc<wgpu::Device> {
        &self.device
    }

    /// The shared queue.
    pub closed spec fn spec_queue(&self) -> &Arc<wgpu::Queue> {
        &self.queue
    }

    /// The device identity and recovery generation.
    pub closed spec fn spec_token(&self) -> ExternalGpuDeviceToken {
        self.token
    }

    /// The flag that is set when the device is lost.
    pub closed spec fn device_lost(&self) -> Arc<AtomicBool> {
        self.device_lost.flag()
    }

    /// The poller that wakes the completion worker.
    pub closed spec fn completion_poller(&self) -> WgpuCompletionPoller {
        self.completion_poller
    }

    /// Whether `lost` is what a look at the flag has found.
    pub closed spec fn observes(&self, lost: bool) -> bool {
        self.device_lost.flag().reads(lost)
    }

    /// What is observed of the device is exactly what a load of the flag finds.
    pub proof fn observations_are_looks(&self, lost: bool)
        ensures
            self.observes(lost) <==> call_ensures(
                AtomicBool::load,
                (&*self.device_lost(), Ordering::Relaxed),
                lost,
            ),
    {
    }

    /// Puts a context together.
    pub fn new(
        device: Arc<wgpu::Device>,
        queue: Arc<wgpu::Queue>,
        token: ExternalGpuDeviceToken,
        device_lost: Arc<AtomicBool>,
        completion_poller: WgpuCompletionPoller,
    ) -> (context: Self)
        ensures
            *context.device() == device,
            *context.queue() == queue,
            context.token() == token,
            context.device_lost() == device_lost,
            context.completion_poller() == completion_poller,
        opens_invariants none
        no_unwind
    {
        WgpuExternalContext {
            device,
            queue,
            token,
            device_lost: ReadOnly::new(device_lost),
            completion_poller,
        }
    }

    /// Downcasts a runtime-neutral context to its WGPU payload.
    pub fn from_gpui(context: &ExternalGpuContext) -> (found: Option<&Self>)
        ensures
            match found {
                Some(payload) => context.carries(*payload) && forall|other: Self|
                    context.carries(other) ==> other == *payload,
                None => forall|other: Self| !context.carries(other),
            },
    {
        context.downcast_wgpu_context()
    }

    /// Returns the shared WGPU device used by the window.
    #[verifier::when_used_as_spec(spec_device)]
    pub fn device(&self) -> (device: &Arc<wgpu::Device>)
        ensures
            device == self.device(),
    {
        &self.device
    }

    /// Returns the shared WGPU queue used by the window.
    #[verifier::when_used_as_spec(spec_queue)]
    pub fn queue(&self) -> (queue: &Arc<wgpu::Queue>)
        ensures
            queue == self.queue(),
    {
        &self.queue
    }

    /// Returns the device identity and recovery generation.
    #[verifier::when_used_as_spec(spec_token)]
    pub fn token(&self) -> (token: ExternalGpuDeviceToken)
        ensures
            token == self.token(),
    {
        self.token
    }

    /// Returns whether this WGPU device has been observed being lost.
    pub fn is_device_lost(&self) -> (lost: bool)
        ensures
            self.observes(lost),
    {
        proof {
            loads_only_look();
        }
        self.device_lost.look(AtomicBool::load)
    }

    /// Wakes the device-wide completion worker after an external queue submission.
    ///
    /// Register any `Queue::on_submitted_work_done` callback before calling
    /// this method. The worker may block on the backend, but the UI paint path
    /// never does.
    pub fn request_completion_poll(&self)
        ensures
            self.completion_poller().requested(),
    {
        self.completion_poller.request();
    }

    /// Wraps a texture view created on this context's device for ordered
    /// presentation. The view must be a filterable, non-multisampled 2D float
    /// texture view.
    pub fn texture_handle(
        &self,
        ids: &ExternalTextureIds,
        view: Arc<wgpu::TextureView>,
    ) -> (texture: ExternalTextureHandle)
        ensures
            ids.issues(texture.id()),
            texture.token() == self.token(),
            texture.carries((WgpuExternalTexture { view })),
            texture.access().starts_idle(),
    {
        ExternalTextureHandle::new(ids, self.token, WgpuExternalTexture { view })
    }
}

impl Clone for WgpuExternalContext {
    /// Another holder of the same device.
    fn clone(&self) -> (context: Self)
        ensures
            context == *self,
    {
        WgpuExternalContext {
            device: Arc::clone(&self.device),
            queue: Arc::clone(&self.queue),
            token: self.token,
            device_lost: self.device_lost.share(),
            completion_poller: self.completion_poller.clone(),
        }
    }
}

/// The concrete WGPU payload carried by an [`ExternalTextureHandle`].
pub struct WgpuExternalTexture {
    pub view: Arc<wgpu::TextureView>,
}

} // verus!
