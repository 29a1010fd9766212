use framecore::compose::{Draw, LoadOp};
use framecore::frame::{
    AcquireError, AcquireOutcome, DeviceContext, FinishStep, ProtocolError,
};

#[test]
fn acquire_outcomes_map_to_their_errors() {
    let mut ctx = DeviceContext::new(800, 600);
    match ctx.begin_current_frame(AcquireOutcome::Lost) {
        Err(e) => {
            assert_eq!(e, AcquireError::SurfaceLost);
            assert!(e.is_recoverable());
            assert!(!e.is_fatal());
        }
        Ok(_) => panic!("lost surface must not begin a frame"),
    }
    match ctx.begin_current_frame(AcquireOutcome::OutOfMemory) {
        Err(e) => {
            assert_eq!(e, AcquireError::OutOfMemory);
            assert!(e.is_fatal());
            assert!(!e.is_recoverable());
        }
        Ok(_) => panic!("out of memory must not begin a frame"),
    }
    match ctx.begin_current_frame(AcquireOutcome::Other(42)) {
        Err(e) => {
            assert_eq!(e, AcquireError::Other(42));
            assert!(!e.is_recoverable());
            assert!(!e.is_fatal());
        }
        Ok(_) => panic!("a failed acquisition must not begin a frame"),
    }
    assert!(!ctx.is_frame_in_flight());
}

#[test]
fn successful_acquisition_begins_a_fresh_frame() {
    let mut ctx = DeviceContext::new(800, 600);
    let tx = ctx
        .begin_current_frame(AcquireOutcome::Acquired)
        .expect("acquired image must begin a frame");
    assert!(ctx.is_frame_in_flight());
    assert!(tx.pass_list().is_empty());
}

#[test]
fn first_pass_must_clear_and_later_passes_must_load() {
    let mut ctx = DeviceContext::new(640, 480);
    let mut tx = ctx.begin_current_frame(AcquireOutcome::Acquired).unwrap();

    assert_eq!(tx.begin_pass(LoadOp::Load), Err(ProtocolError::FirstPassMustClear));
    assert_eq!(tx.begin_pass(LoadOp::Clear(0xff0000ff)), Ok(()));
    assert_eq!(tx.begin_pass(LoadOp::Load), Err(ProtocolError::PassStillOpen));
    assert_eq!(tx.end_pass(), Ok(()));
    assert_eq!(tx.begin_pass(LoadOp::Clear(7)), Err(ProtocolError::LaterPassMustLoad));
    assert_eq!(tx.begin_pass(LoadOp::Load), Ok(()));
    assert_eq!(tx.end_pass(), Ok(()));
    assert_eq!(tx.pass_list().len(), 2);
}

#[test]
fn draws_need_an_open_pass() {
    let mut ctx = DeviceContext::new(640, 480);
    let mut tx = ctx.begin_current_frame(AcquireOutcome::Acquired).unwrap();
    let d = Draw { pixels: vec![0, 1], color: 3 };
    assert_eq!(tx.push_draw(d.clone()), Err(ProtocolError::NoPassOpen));
    assert_eq!(tx.end_pass(), Err(ProtocolError::NoPassOpen));
    tx.begin_pass(LoadOp::Clear(0)).unwrap();
    assert_eq!(tx.push_draw(d), Ok(()));
    assert_eq!(tx.pass_list()[0].draws.len(), 1);
}

#[test]
fn finishing_presents_in_the_fixed_order_and_counts_the_frame() {
    let mut ctx = DeviceContext::new(320, 200);
    let mut tx = ctx.begin_current_frame(AcquireOutcome::Acquired).unwrap();
    tx.begin_pass(LoadOp::Clear(0)).unwrap();
    tx.end_pass().unwrap();

    assert_eq!(ctx.frame_counter().absolute_frame_count(), 0);
    let steps = tx.finish_and_present(&mut ctx);
    assert_eq!(
        steps,
        vec![
            FinishStep::SealUploads,
            FinishStep::SubmitCommands,
            FinishStep::ScheduleReclaim,
            FinishStep::DrainExecutor,
        ],
    );
    assert_eq!(ctx.frame_counter().absolute_frame_count(), 1);
    assert!(!ctx.is_frame_in_flight());

    // the context is free for the next frame
    let tx2 = ctx.begin_current_frame(AcquireOutcome::Acquired).unwrap();
    let _ = tx2.finish_and_present(&mut ctx);
    assert_eq!(ctx.frame_counter().absolute_frame_count(), 2);
}

#[test]
fn resize_touches_only_the_dimensions() {
    let mut ctx = DeviceContext::new(800, 600);
    let tx = ctx.begin_current_frame(AcquireOutcome::Acquired).unwrap();
    let _ = tx.finish_and_present(&mut ctx);

    ctx.resize(1024, 768);
    assert_eq!(ctx.surface_width(), 1024);
    assert_eq!(ctx.surface_height(), 768);
    assert_eq!(ctx.frame_counter().absolute_frame_count(), 1);
    assert!(!ctx.is_frame_in_flight());

    // calling it again with the same size changes nothing
    ctx.resize(1024, 768);
    assert_eq!(ctx.surface_width(), 1024);
    assert_eq!(ctx.surface_height(), 768);
}
