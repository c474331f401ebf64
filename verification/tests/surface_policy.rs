use tilefps::surface::{
    after_frame, atlas_copy_plan, pick_format, AcquireFailure, FrameDirective, SurfaceExtent,
    MAX_FRAME_LATENCY, WINDOW_HEIGHT, WINDOW_WIDTH,
};

#[test]
fn resize_with_zero_width_changes_nothing() {
    let mut ext = SurfaceExtent {
        width: WINDOW_WIDTH,
        height: WINDOW_HEIGHT,
    };
    ext.apply_resize(0, 480);
    assert_eq!(ext.width, WINDOW_WIDTH);
    assert_eq!(ext.height, WINDOW_HEIGHT);
}

#[test]
fn resize_with_zero_height_changes_nothing() {
    let mut ext = SurfaceExtent {
        width: WINDOW_WIDTH,
        height: WINDOW_HEIGHT,
    };
    ext.apply_resize(640, 0);
    assert_eq!(ext.width, 240);
    assert_eq!(ext.height, 160);
}

#[test]
fn resize_with_valid_size_takes_it() {
    let mut ext = SurfaceExtent {
        width: WINDOW_WIDTH,
        height: WINDOW_HEIGHT,
    };
    ext.apply_resize(640, 480);
    assert_eq!(ext.width, 640);
    assert_eq!(ext.height, 480);
}

#[test]
fn first_srgb_format_wins() {
    let flags = vec![false, true, true, false];
    assert_eq!(pick_format(&flags), 1);
}

#[test]
fn no_srgb_format_falls_back_to_first() {
    let flags = vec![false, false, false];
    assert_eq!(pick_format(&flags), 0);
}

#[test]
fn lost_surface_reconfigures() {
    assert_eq!(
        after_frame(Err(AcquireFailure::Lost)),
        FrameDirective::Reconfigure
    );
}

#[test]
fn out_of_memory_shuts_down() {
    assert_eq!(
        after_frame(Err(AcquireFailure::OutOfMemory)),
        FrameDirective::Shutdown
    );
}

#[test]
fn transient_failure_skips_the_frame() {
    assert_eq!(
        after_frame(Err(AcquireFailure::Transient)),
        FrameDirective::SkipFrame
    );
}

#[test]
fn success_proceeds() {
    assert_eq!(after_frame(Ok(())), FrameDirective::Proceed);
}

#[test]
fn atlas_plan_steps_by_eight_rows() {
    // A 128 x 512 source image: 64 blocks of 8 rows, 4 bytes per texel.
    let plan = atlas_copy_plan(128, 512);
    assert_eq!(plan.len(), 64);
    assert_eq!(plan[0].origin_x, 0);
    assert_eq!(plan[0].byte_offset, 0);
    assert_eq!(plan[1].origin_x, 128);
    assert_eq!(plan[1].byte_offset, 128 * 4 * 8);
    assert_eq!(plan[63].origin_x, 63 * 128);
    assert_eq!(plan[63].byte_offset, 63 * 128 * 4 * 8);
}

#[test]
fn frame_latency_bound_is_two() {
    assert_eq!(MAX_FRAME_LATENCY, 2);
}
