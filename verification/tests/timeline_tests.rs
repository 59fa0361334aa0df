use repaint_loop::message::Message;
use repaint_loop::shape::Shape;
use repaint_loop::timeline::{RepaintLoop, MAX_TIME_PERIOD};

#[test]
fn scenario_small_window_stays_pending() {
    let mut rl = RepaintLoop::new();
    rl.handle_message(Message::FrameStart("DP-1".to_string(), 1000));
    rl.handle_message(Message::FrameRepaint("DP-1".to_string(), 1000));
    rl.handle_message(Message::FrameRepaintDone("DP-1".to_string(), 5000));
    assert_eq!(
        rl.pending_shapes,
        vec![
            Shape::FrameBoundary(1000, 0),
            Shape::RepaintRegion(1000, 5000, 0),
        ]
    );
    assert!(rl.shapes.is_empty());
}

#[test]
fn scenario_window_reaching_threshold_freezes() {
    let mut rl = RepaintLoop::new();
    rl.handle_message(Message::FrameStart("DP-1".to_string(), 0));
    assert!(rl.shapes.is_empty());
    rl.handle_message(Message::FrameStart("DP-1".to_string(), 2_000_000_000));
    assert_eq!(
        rl.shapes,
        vec![
            Shape::FrameBoundary(0, 0),
            Shape::FrameBoundary(2_000_000_000, 0),
        ]
    );
    assert!(rl.pending_shapes.is_empty());
}

#[test]
fn scenario_commit_before_frame_start_creates_both_records() {
    let mut rl = RepaintLoop::new();
    rl.handle_message(Message::SurfaceCommit(42, "DP-1".to_string(), 10));
    assert_eq!(rl.outputs.len(), 1);
    assert_eq!(rl.outputs[0].name, "DP-1");
    assert_eq!(rl.outputs[0].last_repaint_start, 0);
    assert_eq!(rl.surfaces.len(), 1);
    assert_eq!(rl.surfaces[0].index, 42);
    assert_eq!(rl.surfaces[0].output_idx, 0);
    assert_eq!(rl.pending_shapes, vec![Shape::Commit(10, 0)]);
}

#[test]
fn frozen_buffer_is_kept_until_refresh() {
    let mut rl = RepaintLoop::new();
    rl.handle_message(Message::FrameStart("DP-1".to_string(), 0));
    rl.handle_message(Message::FrameStart("DP-1".to_string(), 2_000_000_000));
    let frozen = rl.shapes.clone();
    assert!(!frozen.is_empty());
    rl.handle_message(Message::FrameStart("DP-2".to_string(), 3_000_000_000));
    rl.handle_message(Message::SurfaceCommit(7, "DP-1".to_string(), 3_000_000_100));
    rl.handle_message(Message::SliderChanged(5));
    assert_eq!(rl.shapes, frozen);
    assert_eq!(rl.pending_shapes.len(), 2);
    rl.handle_message(Message::Refresh);
    assert!(rl.shapes.is_empty());
    assert!(rl.pending_shapes.is_empty());
}

#[test]
fn refresh_twice_equals_refresh_once() {
    let mut rl = RepaintLoop::new();
    rl.handle_message(Message::FrameStart("DP-1".to_string(), 100));
    rl.handle_message(Message::SurfaceCommit(1, "DP-1".to_string(), 200));
    rl.handle_message(Message::Refresh);
    let outputs_after_one = rl.outputs.clone();
    let surfaces_after_one = rl.surfaces.clone();
    assert!(rl.shapes.is_empty());
    assert!(rl.pending_shapes.is_empty());
    rl.handle_message(Message::Refresh);
    assert!(rl.shapes.is_empty());
    assert!(rl.pending_shapes.is_empty());
    assert_eq!(rl.outputs, outputs_after_one);
    assert_eq!(rl.surfaces, surfaces_after_one);
    assert_eq!(rl.index, 0);
    assert!(!rl.do_periodic_refresh);
}

#[test]
fn identity_tables_grow_once_per_name_and_id() {
    let mut rl = RepaintLoop::new();
    rl.handle_message(Message::FrameStart("DP-1".to_string(), 1));
    rl.handle_message(Message::FrameStart("DP-2".to_string(), 2));
    rl.handle_message(Message::FrameStart("DP-1".to_string(), 3));
    assert_eq!(rl.outputs.len(), 2);
    assert_eq!(
        rl.pending_shapes,
        vec![
            Shape::FrameBoundary(1, 0),
            Shape::FrameBoundary(2, 1),
            Shape::FrameBoundary(3, 0),
        ]
    );
    rl.handle_message(Message::SurfaceCommit(9, "DP-2".to_string(), 4));
    rl.handle_message(Message::SurfaceCommit(9, "ignored".to_string(), 5));
    assert_eq!(rl.surfaces.len(), 1);
    assert_eq!(rl.outputs.len(), 2);
    assert_eq!(rl.surfaces[0].output_idx, 1);
    assert_eq!(rl.pending_shapes[3], Shape::Commit(4, 0));
    assert_eq!(rl.pending_shapes[4], Shape::Commit(5, 0));
}

#[test]
fn repaint_end_without_start_anchors_at_zero() {
    let mut rl = RepaintLoop::new();
    rl.handle_message(Message::FrameRepaintDone("DP-1".to_string(), 700));
    assert_eq!(rl.pending_shapes, vec![Shape::RepaintRegion(0, 700, 0)]);
}

#[test]
fn repaint_start_only_updates_output_state() {
    let mut rl = RepaintLoop::new();
    rl.handle_message(Message::FrameRepaint("DP-1".to_string(), 900));
    assert!(rl.pending_shapes.is_empty());
    assert_eq!(rl.outputs.len(), 1);
    assert_eq!(rl.outputs[0].last_repaint_start, 900);
}

#[test]
fn gui_commands_do_not_touch_buffers() {
    let mut rl = RepaintLoop::new();
    rl.handle_message(Message::FrameStart("DP-1".to_string(), 50));
    rl.handle_message(Message::SliderChanged(123));
    assert_eq!(rl.index, 123);
    rl.handle_message(Message::PeriodicRefreshChanged(true));
    assert!(rl.do_periodic_refresh);
    assert_eq!(rl.pending_shapes, vec![Shape::FrameBoundary(50, 0)]);
    assert!(rl.shapes.is_empty());
}

#[test]
fn pending_window_and_polling() {
    let mut rl = RepaintLoop::new();
    assert_eq!(rl.current_pending_window(), 0);
    assert!(rl.should_poll());
    rl.handle_message(Message::FrameStart("DP-1".to_string(), 100));
    assert_eq!(rl.current_pending_window(), 0);
    rl.handle_message(Message::FrameStart("DP-1".to_string(), 400));
    assert_eq!(rl.current_pending_window(), 300);
    assert!(rl.should_poll());
}

#[test]
fn polling_pauses_while_frozen_and_window_full() {
    let mut rl = RepaintLoop::new();
    rl.handle_message(Message::FrameStart("DP-1".to_string(), 0));
    rl.handle_message(Message::FrameStart("DP-1".to_string(), MAX_TIME_PERIOD));
    assert!(!rl.shapes.is_empty());
    rl.handle_message(Message::FrameStart("DP-1".to_string(), 2 * MAX_TIME_PERIOD));
    rl.handle_message(Message::FrameStart("DP-1".to_string(), 4 * MAX_TIME_PERIOD));
    assert_eq!(rl.current_pending_window(), 2 * MAX_TIME_PERIOD);
    assert!(!rl.should_poll());
    rl.handle_message(Message::Refresh);
    assert!(rl.should_poll());
}

#[test]
fn out_of_order_extremes_clamp_window_at_zero() {
    let mut rl = RepaintLoop::new();
    rl.handle_message(Message::FrameStart("DP-1".to_string(), 500));
    rl.handle_message(Message::FrameStart("DP-2".to_string(), 100));
    assert_eq!(rl.current_pending_window(), 0);
}

#[test]
fn shape_extents() {
    assert_eq!(Shape::FrameBoundary(10, 0).left(), 10);
    assert_eq!(Shape::FrameBoundary(10, 0).right(), 10);
    assert_eq!(Shape::RepaintRegion(3, 9, 1).left(), 3);
    assert_eq!(Shape::RepaintRegion(3, 9, 1).right(), 9);
    assert_eq!(Shape::Commit(7, 2).left(), 7);
    assert_eq!(Shape::Commit(7, 2).right(), 7);
}
