use external_gpu::{
    ExternalGpuContext, ExternalGpuDeviceToken, ExternalTextureHandle, ExternalTextureIds,
};

#[test]
fn opaque_payloads_are_typed_and_generation_scoped() {
    let ids = ExternalTextureIds::new();
    let token = ExternalGpuDeviceToken::new(7, 2);
    let context = ExternalGpuContext::new(token, String::from("context"));
    let texture = ExternalTextureHandle::new(&ids, token, 42_u32);

    assert_eq!(context.token(), token);
    assert_eq!(
        context.downcast_ref::<String>().map(String::as_str),
        Some("context")
    );
    assert!(context.downcast_ref::<u32>().is_none());
    assert_eq!(texture.token(), token);
    assert_eq!(texture.downcast_ref::<u32>(), Some(&42));
    assert_eq!(token.next_generation(), ExternalGpuDeviceToken::new(7, 3));
}

#[test]
fn weak_texture_handles_do_not_extend_texture_lifetime() {
    let ids = ExternalTextureIds::new();
    let token = ExternalGpuDeviceToken::new(9, 1);
    let texture = ExternalTextureHandle::new(&ids, token, 42_u32);
    let weak = texture.downgrade();

    assert_eq!(weak.id(), texture.id());
    assert_eq!(weak.token(), token);
    assert!(weak.is_alive());
    assert_eq!(
        weak.upgrade()
            .and_then(|texture| texture.downcast_ref::<u32>().copied()),
        Some(42)
    );

    drop(texture);

    assert!(!weak.is_alive());
    assert!(weak.upgrade().is_none());
}

#[test]
fn scene_samples_and_external_writes_are_mutually_exclusive() {
    let ids = ExternalTextureIds::new();
    let texture = ExternalTextureHandle::new(&ids, ExternalGpuDeviceToken::new(10, 1), ());

    let sample = texture.try_reserve_sample().expect("scene sample");
    assert!(texture.try_reserve_write().is_none());
    let submission = sample.claim_submission().expect("first submission");
    assert!(sample.claim_submission().is_none());
    drop(submission);

    let write = texture.try_reserve_write().expect("write after sample");
    assert!(texture.try_reserve_sample().is_none());
    write.mark_submitted();
    assert!(texture.try_reserve_sample().is_some());
}

#[test]
fn repeated_scene_submission_owns_an_independent_sample() {
    let ids = ExternalTextureIds::new();
    let texture = ExternalTextureHandle::new(&ids, ExternalGpuDeviceToken::new(11, 1), ());
    let sample = texture.try_reserve_sample().expect("scene sample");
    drop(sample.claim_submission().expect("first submission"));

    let repeated = sample.fresh_submission().expect("repeated submission");
    assert!(texture.try_reserve_write().is_none());
    drop(repeated);
    assert!(texture.try_reserve_write().is_some());
}

#[test]
fn dropping_unsubmitted_reservations_releases_the_texture() {
    let ids = ExternalTextureIds::new();
    let texture = ExternalTextureHandle::new(&ids, ExternalGpuDeviceToken::new(12, 1), ());
    drop(texture.try_reserve_sample().expect("scene sample"));
    assert!(texture.try_reserve_write().is_some());

    let write = texture.try_reserve_write().expect("write reservation");
    drop(write);
    assert!(texture.try_reserve_sample().is_some());
}

#[test]
fn identifiers_count_up_from_one() {
    let ids = ExternalTextureIds::new();
    let token = ExternalGpuDeviceToken::new(1, 0);
    assert_eq!(ids.issue().as_u64(), 1);
    assert_eq!(ExternalTextureHandle::new(&ids, token, ()).id().as_u64(), 2);
    let third = ExternalTextureHandle::new(&ids, token, ());
    assert_eq!(third.id().as_u64(), 3);
    assert_eq!(third.clone().id(), third.id());
    assert_eq!(third.downgrade().id(), third.id());
    assert!(third.id() < ids.issue());
    assert_eq!(ExternalTextureIds::new().issue().as_u64(), 1);
}

#[test]
fn tokens_match_by_identity_and_generation() {
    let token = ExternalGpuDeviceToken::new(4, 8);
    assert_eq!(token.identity(), 4);
    assert_eq!(token.generation(), 8);
    assert_eq!(token, ExternalGpuDeviceToken::new(4, 8));
    assert_ne!(token, ExternalGpuDeviceToken::new(4, 9));
    assert_ne!(token, ExternalGpuDeviceToken::new(5, 8));
    let recovered = token.next_generation().next_generation();
    assert_eq!(recovered, ExternalGpuDeviceToken::new(4, 10));
    let last = ExternalGpuDeviceToken::new(4, u64::MAX);
    assert_eq!(last.next_generation(), last);
}

#[test]
fn clones_share_the_payload_and_the_reservations() {
    let ids = ExternalTextureIds::new();
    let token = ExternalGpuDeviceToken::new(2, 2);
    let texture = ExternalTextureHandle::new(&ids, token, String::from("texture"));
    let other = texture.clone();
    assert_eq!(other.token(), token);
    assert_eq!(other.downcast_ref::<String>(), texture.downcast_ref::<String>());
    assert!(other.downcast_ref::<&'static str>().is_none());

    let write = other.try_reserve_write().expect("write");
    assert!(texture.try_reserve_sample().is_none());
    assert!(texture.try_reserve_write().is_none());
    drop(write);

    let weak = texture.downgrade().clone();
    drop(texture);
    assert!(weak.is_alive());
    let again = weak.upgrade().expect("still retained");
    let sample = again.try_reserve_sample().expect("sample");
    assert!(other.try_reserve_write().is_none());
    drop(other);
    drop(again);
    assert!(!weak.is_alive());
    assert!(weak.upgrade().is_none());
    drop(sample);

    let context = ExternalGpuContext::new(token, 5_u8);
    assert_eq!(context.clone().downcast_ref::<u8>(), Some(&5));
    assert_eq!(context.clone().token(), token);
}

#[test]
fn every_sample_has_to_be_given_back() {
    let ids = ExternalTextureIds::new();
    let texture = ExternalTextureHandle::new(&ids, ExternalGpuDeviceToken::new(3, 1), ());
    let first = texture.try_reserve_sample().expect("first");
    let second = texture.try_reserve_sample().expect("second");
    drop(first);
    assert!(texture.try_reserve_write().is_none());
    drop(second);
    assert!(texture.try_reserve_write().is_some());
}

#[test]
fn a_sample_is_released_once() {
    let ids = ExternalTextureIds::new();
    let texture = ExternalTextureHandle::new(&ids, ExternalGpuDeviceToken::new(3, 1), ());
    let held = texture.try_reserve_sample().expect("held");
    let sample = texture.try_reserve_sample().expect("sample");
    let clone = sample.clone();
    drop(clone.claim_submission().expect("submission"));
    drop(sample);
    drop(clone);
    assert!(texture.try_reserve_write().is_none());
    drop(held);
    assert!(texture.try_reserve_write().is_some());
}

#[test]
fn a_clone_keeps_the_sample_reserved() {
    let ids = ExternalTextureIds::new();
    let texture = ExternalTextureHandle::new(&ids, ExternalGpuDeviceToken::new(3, 1), ());
    let sample = texture.try_reserve_sample().expect("sample");
    let clone = sample.clone();
    drop(sample);
    assert!(texture.try_reserve_write().is_none());
    drop(clone);
    assert!(texture.try_reserve_write().is_some());
}

#[test]
fn a_submission_outlives_its_scene() {
    let ids = ExternalTextureIds::new();
    let texture = ExternalTextureHandle::new(&ids, ExternalGpuDeviceToken::new(3, 1), ());
    let sample = texture.try_reserve_sample().expect("sample");
    let submission = sample.claim_submission().expect("submission");
    drop(sample);
    assert!(texture.try_reserve_write().is_none());
    drop(submission);
    assert!(texture.try_reserve_write().is_some());
}

#[test]
fn fresh_submissions_are_refused_while_a_write_is_reserved() {
    let ids = ExternalTextureIds::new();
    let texture = ExternalTextureHandle::new(&ids, ExternalGpuDeviceToken::new(3, 1), ());
    let sample = texture.try_reserve_sample().expect("sample");
    let pending = sample.fresh_submission().expect("while pending");
    drop(sample.claim_submission().expect("first submission"));
    assert!(texture.try_reserve_write().is_none());
    drop(pending);
    let write = texture.try_reserve_write().expect("write");
    assert!(sample.fresh_submission().is_none());
    write.mark_submitted();
    assert!(sample.fresh_submission().is_some());
}

#[test]
fn debug_texts_show_what_the_values_are() {
    let ids = ExternalTextureIds::new();
    let token = ExternalGpuDeviceToken::new(1203, u64::MAX);
    let context = ExternalGpuContext::new(token, ());
    assert_eq!(
        context.debug_text(),
        "ExternalGpuContext { token: ExternalGpuDeviceToken { identity: 1203, generation: \
         18446744073709551615 }, .. }"
    );
    assert_eq!(context.debug_text(), format!("ExternalGpuContext {{ token: {:?}, .. }}", token));

    let texture = ExternalTextureHandle::new(&ids, token, ());
    assert_eq!(
        texture.debug_text(),
        format!("ExternalTextureHandle {{ id: {:?}, token: {:?}, .. }}", texture.id(), token)
    );
    let weak = texture.downgrade();
    assert_eq!(
        weak.debug_text(),
        format!(
            "WeakExternalTextureHandle {{ id: ExternalTextureId(1), token: {:?}, alive: true }}",
            token
        )
    );
    assert_eq!(weak.debug_text(), weak.debug_text_when(true));

    let sample = texture.try_reserve_sample().expect("sample");
    assert_eq!(sample.debug_text(), "ExternalTextureSampleReservation { state: 0 }");
    let submission = sample.claim_submission().expect("submission");
    assert_eq!(sample.debug_text(), "ExternalTextureSampleReservation { state: 1 }");
    assert_eq!(submission.debug_text(), "ExternalTextureSampleSubmission { .. }");
    drop(submission);
    assert_eq!(sample.debug_text(), "ExternalTextureSampleReservation { state: 2 }");
    assert_eq!(sample.stage(), 2);

    let write = texture.try_reserve_write().expect("write");
    assert!(write.is_active());
    assert_eq!(
        write.debug_text(),
        "ExternalTextureWriteReservation { active: true, .. }"
    );
    drop(write);
    drop(texture);
    assert_eq!(
        weak.debug_text(),
        format!(
            "WeakExternalTextureHandle {{ id: ExternalTextureId(1), token: {:?}, alive: false }}",
            token
        )
    );
}

#[test]
fn samples_are_shared_and_given_back_one_by_one() {
    let ids = ExternalTextureIds::new();
    let texture = ExternalTextureHandle::new(&ids, ExternalGpuDeviceToken::new(10, 1), ());
    let scene = texture.try_reserve_sample().expect("scene");
    let repeated = scene.fresh_submission().expect("repeated");
    let again = scene.fresh_submission().expect("again");
    drop(repeated);
    drop(scene);
    assert!(texture.try_reserve_write().is_none());
    drop(again);
    assert!(texture.try_reserve_write().is_some());
}

#[test]
fn a_submitted_write_does_not_cancel_the_next_one() {
    let ids = ExternalTextureIds::new();
    let texture = ExternalTextureHandle::new(&ids, ExternalGpuDeviceToken::new(10, 1), ());
    texture.try_reserve_write().expect("first").mark_submitted();
    let next = texture.try_reserve_write().expect("next");
    assert!(texture.try_reserve_write().is_none());
    assert!(texture.try_reserve_sample().is_none());
    drop(next);
    assert!(texture.try_reserve_sample().is_some());
}

trait Tagged<'a>: Send + Sync {
    fn tag(&self, text: &'a str) -> usize;
}

impl<'a> Tagged<'a> for u8 {
    fn tag(&self, text: &'a str) -> usize {
        text.len() + usize::from(*self)
    }
}

#[test]
fn payloads_of_all_lifetimes_are_not_found_as_static_ones() {
    let ids = ExternalTextureIds::new();
    let token = ExternalGpuDeviceToken::new(13, 1);
    let payload: Box<dyn for<'a> Tagged<'a>> = Box::new(3_u8);
    let context = ExternalGpuContext::new(token, payload);
    assert!(context.downcast_ref::<Box<dyn Tagged<'static>>>().is_none());
    let found = context.downcast_ref::<Box<dyn for<'a> Tagged<'a>>>();
    assert_eq!(found.map(|payload| payload.tag("tag")), Some(6));

    let payload: Box<dyn Tagged<'static>> = Box::new(4_u8);
    let texture = ExternalTextureHandle::new(&ids, token, payload);
    assert!(texture.downcast_ref::<Box<dyn for<'a> Tagged<'a>>>().is_none());
    let found = texture.downcast_ref::<Box<dyn Tagged<'static>>>();
    assert_eq!(found.map(|payload| payload.tag("tag")), Some(7));
}

#[test]
fn textures_do_not_block_one_another() {
    let ids = ExternalTextureIds::new();
    let token = ExternalGpuDeviceToken::new(14, 1);
    let one = ExternalTextureHandle::new(&ids, token, 1_u8);
    let other = ExternalTextureHandle::new(&ids, token, 1_u8);
    assert!(one.id() < other.id());
    let sample = one.try_reserve_sample().expect("sample");
    let write = other.try_reserve_write().expect("write");
    assert!(one.try_reserve_write().is_none());
    drop(write);
    assert!(one.try_reserve_write().is_none());
    drop(sample);
    assert!(one.try_reserve_write().is_some());
}
