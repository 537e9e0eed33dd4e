use framesync::frame::{
    slot_of, FrameAction, FrameEvent, FrameFault, FrameOrchestrator, Phase, FRAMES_IN_FLIGHT,
};

/// Runs one frame that acquires `image`, from the tick to the completed
/// present, and returns the fence wait it started with.
fn run_frame(o: &mut FrameOrchestrator, image: u32) -> FrameAction {
    let slot = o.current_slot();
    let wait = o.step(FrameEvent::Tick).unwrap();
    assert_eq!(o.step(FrameEvent::FenceSignaled), Ok(FrameAction::Acquire { slot }));
    assert_eq!(o.step(FrameEvent::ImageAcquired(image)), Ok(FrameAction::Record { slot, image }));
    assert_eq!(o.step(FrameEvent::Recorded), Ok(FrameAction::Submit { slot }));
    assert_eq!(o.step(FrameEvent::Submitted), Ok(FrameAction::Present { slot, image }));
    assert_eq!(o.step(FrameEvent::Presented), Ok(FrameAction::FrameDone));
    wait
}

#[test]
fn third_frame_waits_on_first_fence() {
    let mut o = FrameOrchestrator::new(2);
    assert_eq!(run_frame(&mut o, 0), FrameAction::WaitFence { slot: 0, outstanding: false });
    assert_eq!(run_frame(&mut o, 1), FrameAction::WaitFence { slot: 1, outstanding: false });
    assert_eq!(o.step(FrameEvent::Tick), Ok(FrameAction::WaitFence { slot: 0, outstanding: true }));
    assert_eq!(o.phase(), Phase::Waiting);
}

#[test]
fn slot_is_round_robin() {
    assert_eq!(FRAMES_IN_FLIGHT, 2);
    assert_eq!(slot_of(0), 0);
    assert_eq!(slot_of(1), 1);
    assert_eq!(slot_of(2), 0);
    assert_eq!(slot_of(7), 1);
    assert_eq!(slot_of(u64::MAX), 1);
}

#[test]
fn fence_held_until_slot_wait() {
    let mut o = FrameOrchestrator::new(3);
    run_frame(&mut o, 0);
    assert!(o.is_in_flight(0));
    assert!(!o.is_in_flight(1));
    run_frame(&mut o, 1);
    assert!(o.is_in_flight(0));
    assert!(o.is_in_flight(1));
    o.step(FrameEvent::Tick).unwrap();
    assert!(o.is_in_flight(0));
    o.step(FrameEvent::FenceSignaled).unwrap();
    assert!(!o.is_in_flight(0));
    assert!(o.is_in_flight(1));
}

#[test]
fn counter_advances_once_per_present() {
    let mut o = FrameOrchestrator::new(3);
    assert_eq!(o.frame_counter(), 0);
    for n in 1..=10u64 {
        let slot = o.current_slot();
        o.step(FrameEvent::Tick).unwrap();
        o.step(FrameEvent::FenceSignaled).unwrap();
        assert_eq!(o.frame_counter(), n - 1);
        o.step(FrameEvent::ImageAcquired((n % 3) as u32)).unwrap();
        o.step(FrameEvent::Recorded).unwrap();
        o.step(FrameEvent::Submitted).unwrap();
        assert_eq!(o.frame_counter(), n - 1);
        assert_eq!(slot, ((n - 1) % 2) as usize);
        o.step(FrameEvent::Presented).unwrap();
        assert_eq!(o.frame_counter(), n);
    }
}

#[test]
fn resize_at_acquire_rebuilds_once_and_resumes() {
    let mut o = FrameOrchestrator::new(2);
    run_frame(&mut o, 0);
    o.step(FrameEvent::Tick).unwrap();
    o.step(FrameEvent::FenceSignaled).unwrap();
    assert_eq!(o.step(FrameEvent::OutOfDate), Ok(FrameAction::RebuildChain));
    assert_eq!(o.step(FrameEvent::OutOfDate), Err(FrameFault::UnexpectedEvent));
    assert_eq!(o.step(FrameEvent::ChainRebuilt(3)), Ok(FrameAction::Resume));
    assert_eq!(o.rebuilds(), 1);
    assert_eq!(o.image_count(), 3);
    assert_eq!(o.frame_counter(), 1);
    assert_eq!(run_frame(&mut o, 2), FrameAction::WaitFence { slot: 1, outstanding: false });
    assert_eq!(o.frame_counter(), 2);
    assert_eq!(o.rebuilds(), 1);
}

#[test]
fn resize_at_present_keeps_counter() {
    let mut o = FrameOrchestrator::new(2);
    o.step(FrameEvent::Tick).unwrap();
    o.step(FrameEvent::FenceSignaled).unwrap();
    o.step(FrameEvent::ImageAcquired(1)).unwrap();
    o.step(FrameEvent::Recorded).unwrap();
    o.step(FrameEvent::Submitted).unwrap();
    assert_eq!(o.step(FrameEvent::OutOfDate), Ok(FrameAction::RebuildChain));
    assert_eq!(o.phase(), Phase::Rebuilding);
    assert_eq!(o.step(FrameEvent::ChainRebuilt(2)), Ok(FrameAction::Resume));
    assert_eq!(o.frame_counter(), 0);
    assert_eq!(o.step(FrameEvent::Tick), Ok(FrameAction::WaitFence { slot: 0, outstanding: true }));
}

#[test]
fn out_of_range_image_is_a_fault() {
    let mut o = FrameOrchestrator::new(2);
    o.step(FrameEvent::Tick).unwrap();
    o.step(FrameEvent::FenceSignaled).unwrap();
    assert_eq!(o.step(FrameEvent::ImageAcquired(2)), Err(FrameFault::ImageOutOfRange));
    assert_eq!(o.phase(), Phase::Acquiring);
    assert_eq!(o.step(FrameEvent::ImageAcquired(1)), Ok(FrameAction::Record { slot: 0, image: 1 }));
}

#[test]
fn events_out_of_order_are_faults() {
    let mut o = FrameOrchestrator::new(2);
    assert_eq!(o.step(FrameEvent::Presented), Err(FrameFault::UnexpectedEvent));
    assert_eq!(o.step(FrameEvent::FenceSignaled), Err(FrameFault::UnexpectedEvent));
    assert_eq!(o.step(FrameEvent::OutOfDate), Err(FrameFault::UnexpectedEvent));
    assert_eq!(o.phase(), Phase::Idle);
    o.step(FrameEvent::Tick).unwrap();
    assert_eq!(o.step(FrameEvent::Tick), Err(FrameFault::UnexpectedEvent));
    assert_eq!(o.step(FrameEvent::Submitted), Err(FrameFault::UnexpectedEvent));
    assert_eq!(o.phase(), Phase::Waiting);
    assert_eq!(o.frame_counter(), 0);
}
