use external_gpu::{AccessStep, ExternalTextureSampleReservation, SampleStep};

const WRITE: u64 = 1 << 63;

#[test]
fn a_sample_step_counts_up_to_the_full_count() {
    assert_eq!(AccessStep::ReserveSample.apply(0), Some(1));
    assert_eq!(AccessStep::ReserveSample.apply(41), Some(42));
    assert_eq!(AccessStep::ReserveSample.apply(WRITE - 2), Some(WRITE - 1));
    assert_eq!(AccessStep::ReserveSample.apply(WRITE - 1), None);
    assert_eq!(AccessStep::ReserveSample.apply(WRITE), None);
    assert_eq!(AccessStep::ReserveSample.apply(u64::MAX), None);
}

#[test]
fn a_write_step_needs_an_idle_word() {
    assert_eq!(AccessStep::ReserveWrite.apply(0), Some(WRITE));
    assert_eq!(AccessStep::ReserveWrite.apply(1), None);
    assert_eq!(AccessStep::ReserveWrite.apply(WRITE - 1), None);
    assert_eq!(AccessStep::ReserveWrite.apply(WRITE), None);
}

#[test]
fn release_steps_undo_reservations() {
    assert_eq!(AccessStep::ReleaseSample.apply(1), Some(0));
    assert_eq!(AccessStep::ReleaseSample.apply(42), Some(41));
    assert_eq!(AccessStep::ReleaseSample.apply(0), Some(u64::MAX));
    assert_eq!(AccessStep::ReleaseWrite.apply(WRITE), Some(0));
    assert_eq!(AccessStep::ReleaseWrite.apply(WRITE | 5), Some(5));
    assert_eq!(AccessStep::ReleaseWrite.apply(5), Some(5));
}

#[test]
fn only_a_pending_sample_is_claimed() {
    assert_eq!(SampleStep::Claim.apply(0), Some(1));
    assert_eq!(SampleStep::Claim.apply(1), None);
    assert_eq!(SampleStep::Claim.apply(2), None);
    assert_eq!(SampleStep::Complete.apply(0), Some(2));
    assert_eq!(SampleStep::Complete.apply(1), Some(2));
    assert_eq!(SampleStep::Complete.apply(2), Some(2));
}

#[test]
fn sample_texts_show_the_stage() {
    assert_eq!(
        ExternalTextureSampleReservation::debug_text_in(255),
        "ExternalTextureSampleReservation { state: 255 }"
    );
}
