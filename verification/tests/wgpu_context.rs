use std::sync::atomic::{AtomicBool, Ordering};
use std::sync::mpsc::TryRecvError;
use std::sync::Arc;

use external_gpu::{
    CompletionEvent, CompletionPhase, ExternalGpuContext, ExternalGpuDeviceToken,
    ExternalTextureIds, WgpuCompletionPoller, WgpuExternalContext, WgpuExternalTexture,
    COMPLETION_SETTLE_MICROS,
};

#[test]
fn a_context_hands_out_what_it_was_made_of() {
    let (device, queue) = wgpu::Device::noop(&wgpu::DeviceDescriptor::default());
    let (device, queue) = (Arc::new(device), Arc::new(queue));
    let token = ExternalGpuDeviceToken::new(21, 3);
    let lost = Arc::new(AtomicBool::new(false));
    let (poller, requests) = WgpuCompletionPoller::channel();
    let payload = WgpuExternalContext::new(
        Arc::clone(&device),
        Arc::clone(&queue),
        token,
        Arc::clone(&lost),
        poller,
    );
    let context = ExternalGpuContext::new(token, payload.clone());
    let found = WgpuExternalContext::from_gpui(&context).expect("the payload");
    assert!(Arc::ptr_eq(found.device(), &device));
    assert!(Arc::ptr_eq(found.queue(), &queue));
    assert_eq!(found.token(), token);

    assert!(!found.is_device_lost());
    lost.store(true, Ordering::Release);
    assert!(found.is_device_lost());
    assert!(payload.is_device_lost());

    found.request_completion_poll();
    assert_eq!(requests.try_recv(), Ok(()));

    let other = ExternalGpuContext::new(token, 1_u8);
    assert!(WgpuExternalContext::from_gpui(&other).is_none());
}

#[test]
fn a_texture_handle_carries_the_view_and_the_token() {
    let (device, queue) = wgpu::Device::noop(&wgpu::DeviceDescriptor::default());
    let texture = device.create_texture(&wgpu::TextureDescriptor {
        label: None,
        size: wgpu::Extent3d { width: 4, height: 4, depth_or_array_layers: 1 },
        mip_level_count: 1,
        sample_count: 1,
        dimension: wgpu::TextureDimension::D2,
        format: wgpu::TextureFormat::Rgba8Unorm,
        usage: wgpu::TextureUsages::TEXTURE_BINDING,
        view_formats: &[],
    });
    let view = Arc::new(texture.create_view(&wgpu::TextureViewDescriptor::default()));
    let (poller, _requests) = WgpuCompletionPoller::channel();
    let token = ExternalGpuDeviceToken::new(22, 0);
    let context = WgpuExternalContext::new(
        Arc::new(device),
        Arc::new(queue),
        token,
        Arc::new(AtomicBool::new(false)),
        poller,
    );
    let ids = ExternalTextureIds::new();
    let handle = context.texture_handle(&ids, Arc::clone(&view));
    assert_eq!(handle.id().as_u64(), 1);
    assert_eq!(handle.token(), token);
    let payload = handle.downcast_ref::<WgpuExternalTexture>().expect("the view");
    assert!(Arc::ptr_eq(&payload.view, &view));
    assert!(handle.try_reserve_write().is_some());
}

#[test]
fn requests_coalesce_into_one_wake() {
    let (poller, requests) = WgpuCompletionPoller::channel();
    assert_eq!(requests.try_recv(), Err(TryRecvError::Empty));
    poller.request();
    poller.clone().request();
    assert_eq!(requests.try_recv(), Ok(()));
    assert_eq!(requests.try_recv(), Err(TryRecvError::Empty));
    poller.request();
    assert_eq!(requests.try_recv(), Ok(()));
    drop(poller);
    assert_eq!(requests.try_recv(), Err(TryRecvError::Disconnected));
}

#[test]
fn requests_without_a_worker_are_dropped() {
    let (poller, requests) = WgpuCompletionPoller::channel();
    drop(requests);
    poller.request();
}

#[test]
fn the_worker_settles_polls_and_reports() {
    assert_eq!(COMPLETION_SETTLE_MICROS, 500);
    let waiting = CompletionPhase::Waiting;
    let settling = waiting.after(CompletionEvent::Woken);
    assert_eq!(settling, CompletionPhase::Settling);
    let polling = settling.after(CompletionEvent::Settled);
    assert_eq!(polling, CompletionPhase::Polling);
    assert_eq!(polling.after(CompletionEvent::PollSucceeded), waiting);
    let reporting = polling.after(CompletionEvent::PollFailed);
    assert_eq!(reporting, CompletionPhase::Reporting);
    assert_eq!(reporting.after(CompletionEvent::LossRecorded), waiting);
    assert_eq!(waiting.after(CompletionEvent::Closed), CompletionPhase::Stopped);
    assert_eq!(
        CompletionPhase::Stopped.after(CompletionEvent::Woken),
        CompletionPhase::Stopped
    );
    assert_eq!(settling.after(CompletionEvent::PollFailed), settling);
}
