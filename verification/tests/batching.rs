use quadengine::batch::{QuadBatcher, QuadInstance};
use quadengine::camera::CameraOrthographic;
use quadengine::controller::CameraController;
use quadengine::render_pass::{apply_vulkan_correction, record, ColorBits};

fn quad(tag: u32) -> QuadInstance {
    QuadInstance {
        offset_x: tag,
        offset_y: 0,
        scale_x: 0x3F80_0000,
        scale_y: 0x3F80_0000,
        color_r: 0x3F80_0000,
        color_g: 0,
        color_b: 0,
        color_a: 0x3F80_0000,
    }
}

#[test]
fn active_batch_never_exceeds_capacity() {
    let mut b = QuadBatcher::new(3);
    for i in 0..20u32 {
        b.add_quad(quad(i));
        assert!(b.active.len() <= 3);
        assert!(b.active.len() >= 1);
    }
}

#[test]
fn overflow_commits_exactly_one_set() {
    let mut b = QuadBatcher::new(2);
    b.add_quad(quad(0));
    b.add_quad(quad(1));
    assert_eq!(b.committed.len(), 0);
    // the third quad finds the batch full: one flush, then the quad starts fresh
    b.add_quad(quad(2));
    assert_eq!(b.committed.len(), 1);
    assert_eq!(b.committed[0].instances.len(), 2);
    assert_eq!(b.active.len(), 1);
}

#[test]
fn flush_on_empty_is_noop() {
    let mut b = QuadBatcher::new(4);
    assert!(b.flush().is_none());
    assert_eq!(b.committed.len(), 0);
}

#[test]
fn flush_twice_commits_once() {
    let mut b = QuadBatcher::new(4);
    b.add_quad(quad(7));
    assert_eq!(b.flush(), Some(1));
    assert_eq!(b.committed.len(), 1);
    assert!(b.flush().is_none());
    assert_eq!(b.committed.len(), 1);
}

#[test]
fn reset_drops_active_only() {
    let mut b = QuadBatcher::new(2);
    b.add_quad(quad(0));
    b.add_quad(quad(1));
    b.add_quad(quad(2));
    b.reset();
    assert_eq!(b.active.len(), 0);
    assert_eq!(b.committed.len(), 1);
}

#[test]
fn committed_sets_keep_quads_in_order() {
    let mut b = QuadBatcher::new(2);
    for i in 0..5u32 {
        b.add_quad(quad(i));
    }
    b.flush();
    let sets = b.take_committed();
    assert_eq!(sets.len(), 3);
    assert_eq!(sets[0].instances[0].offset_x, 0);
    assert_eq!(sets[0].instances[1].offset_x, 1);
    assert_eq!(sets[1].instances[0].offset_x, 2);
    assert_eq!(sets[2].instances[0].offset_x, 4);
    assert_eq!(b.committed.len(), 0);
}

#[test]
fn twenty_five_hundred_quads_make_two_draw_calls() {
    let mut b = QuadBatcher::new(2000);
    for _ in 0..2500 {
        // draw_quad((0,0),(1,1),(1,0,0,1)), 2500 times
        b.add_quad(QuadInstance {
            offset_x: 0,
            offset_y: 0,
            scale_x: 0x3F80_0000,
            scale_y: 0x3F80_0000,
            color_r: 0x3F80_0000,
            color_g: 0,
            color_b: 0,
            color_a: 0x3F80_0000,
        });
    }
    b.flush();
    let sets = b.take_committed();
    assert_eq!(sets.len(), 2);
    assert_eq!(sets[0].instances.len(), 2000);
    assert_eq!(sets[1].instances.len(), 500);

    let camera = CameraOrthographic::new(800, 600);
    let controller = CameraController::new(camera);
    let mvp = apply_vulkan_correction(controller.view_projection_matrix());
    let clear = ColorBits { r: 0, g: 0, b: 0, a: 0x3F80_0000 };
    let cl = record(clear, mvp, &sets);
    assert_eq!(cl.draws.len(), 2);
    assert_eq!(cl.draws[0].instance_count, 2000);
    assert_eq!(cl.draws[0].index_count, 6);
    assert_eq!(cl.draws[1].instance_count, 500);
}

#[test]
fn record_with_no_batches_records_no_draws() {
    let camera = CameraOrthographic::new(800, 600);
    let controller = CameraController::new(camera);
    let mvp = apply_vulkan_correction(controller.view_projection_matrix());
    let clear = ColorBits { r: 0, g: 0, b: 0, a: 0x3F80_0000 };
    let cl = record(clear, mvp, &Vec::new());
    assert_eq!(cl.draws.len(), 0);
    assert_eq!(cl.clear_color, clear);
}
