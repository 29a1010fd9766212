use framecore::compose::{render_frame, Draw, LoadOp, Pass};
use framecore::frame::{AcquireOutcome, DeviceContext};

#[test]
fn two_renderers_compose_second_over_first() {
    // two renderers drawing overlapping pixels: the first clears to 1
    // and paints 2..=4 with 5; the second loads and paints 4..=5 with
    // 6. Where they overlap, the second's output must stand; the
    // clear color must appear only where nobody drew.
    let mut img: Vec<u32> = vec![9; 8];
    let passes = vec![
        Pass { load: LoadOp::Clear(1), draws: vec![Draw { pixels: vec![2, 3, 4], color: 5 }] },
        Pass { load: LoadOp::Load, draws: vec![Draw { pixels: vec![4, 5], color: 6 }] },
    ];
    render_frame(&mut img, &passes);
    assert_eq!(img, vec![1, 1, 5, 5, 6, 6, 1, 1]);
}

#[test]
fn clear_defines_the_background() {
    let mut img: Vec<u32> = vec![7, 7, 7, 7];
    let passes = vec![Pass { load: LoadOp::Clear(0xdead), draws: vec![] }];
    render_frame(&mut img, &passes);
    assert_eq!(img, vec![0xdead; 4]);
}

#[test]
fn load_preserves_prior_content() {
    let mut img: Vec<u32> = vec![3, 1, 4, 1, 5];
    let passes = vec![Pass { load: LoadOp::Load, draws: vec![] }];
    render_frame(&mut img, &passes);
    assert_eq!(img, vec![3, 1, 4, 1, 5]);
}

#[test]
fn later_draw_wins_inside_one_pass() {
    let mut img: Vec<u32> = vec![0; 4];
    let passes = vec![Pass {
        load: LoadOp::Clear(9),
        draws: vec![
            Draw { pixels: vec![1, 2], color: 10 },
            Draw { pixels: vec![2, 3], color: 11 },
        ],
    }];
    render_frame(&mut img, &passes);
    assert_eq!(img, vec![9, 10, 11, 11]);
}

#[test]
fn out_of_range_pixels_are_ignored() {
    let mut img: Vec<u32> = vec![0, 0];
    let passes = vec![Pass {
        load: LoadOp::Clear(1),
        draws: vec![Draw { pixels: vec![1, 2, 100], color: 8 }],
    }];
    render_frame(&mut img, &passes);
    assert_eq!(img, vec![1, 8]);
}

#[test]
fn disciplined_passes_ignore_prior_target_content() {
    // the same well-composed pass sequence rendered over two different
    // initial buffers gives the same image: the opening clear defines
    // the background
    let passes = vec![
        Pass { load: LoadOp::Clear(2), draws: vec![Draw { pixels: vec![0, 3], color: 7 }] },
        Pass { load: LoadOp::Load, draws: vec![Draw { pixels: vec![3, 4], color: 8 }] },
    ];
    let mut a: Vec<u32> = vec![11, 22, 33, 44, 55, 66];
    let mut b: Vec<u32> = vec![0; 6];
    render_frame(&mut a, &passes);
    render_frame(&mut b, &passes);
    assert_eq!(a, b);
    assert_eq!(a, vec![7, 2, 2, 8, 8, 2]);
}

#[test]
fn recorded_transaction_passes_replay_into_one_image() {
    // drive the whole protocol: record two renderers' passes through a
    // frame transaction, then replay the recorded passes.
    let mut ctx = DeviceContext::new(4, 1);
    let mut tx = ctx.begin_current_frame(AcquireOutcome::Acquired).unwrap();
    tx.begin_pass(LoadOp::Clear(100)).unwrap();
    tx.push_draw(Draw { pixels: vec![0, 1], color: 200 }).unwrap();
    tx.end_pass().unwrap();
    tx.begin_pass(LoadOp::Load).unwrap();
    tx.push_draw(Draw { pixels: vec![1, 2], color: 300 }).unwrap();
    tx.end_pass().unwrap();

    let mut img: Vec<u32> = vec![0; 4];
    let recorded = tx.pass_list().clone();
    render_frame(&mut img, &recorded);
    assert_eq!(img, vec![200, 300, 300, 100]);

    let _ = tx.finish_and_present(&mut ctx);
    assert_eq!(ctx.frame_counter().absolute_frame_count(), 1);
}
