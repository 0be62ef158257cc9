use quadengine::batch::QuadInstance;
use quadengine::camera::CameraOrthographic;
use quadengine::controller::CameraController;
use quadengine::frame::{AcquireOutcome, BeginFrame, PresentOutcome};
use quadengine::render_pass::ColorBits;
use quadengine::renderer::Renderer2D;

fn unit_quad() -> QuadInstance {
    QuadInstance {
        offset_x: 0,
        offset_y: 0,
        scale_x: 0x3F80_0000,
        scale_y: 0x3F80_0000,
        color_r: 0x3F80_0000,
        color_g: 0,
        color_b: 0,
        color_a: 0x3F80_0000,
    }
}

#[test]
fn a_whole_frame_with_an_overflowing_batch() {
    let mut r = Renderer2D::new(3, 800, 600, 2000);
    let camera = CameraOrthographic::new(800, 600);
    let controller = CameraController::new(camera);

    let begun = r.begin(AcquireOutcome::Success { index: 0, suboptimal: false });
    assert!(matches!(begun, BeginFrame::Proceed { wait_previous_use: false, .. }));

    for _ in 0..2500 {
        r.draw_quad(unit_quad());
    }
    let (cl, sets) = r.end_record(controller.view_projection_matrix());
    assert_eq!(cl.draws.len(), 2);
    assert_eq!(cl.draws[0].instance_count, 2000);
    assert_eq!(cl.draws[1].instance_count, 500);
    assert_eq!(sets.len(), 2);
    assert_eq!(sets[0].instances.len(), 2000);
    assert_eq!(sets[1].instances.len(), 500);
    assert_eq!(cl.clear_color, ColorBits { r: 0, g: 0, b: 0, a: 0x3F80_0000 });
    r.end_present(PresentOutcome::Presented);

    // reusing the same image waits on the frame just presented
    let begun = r.begin(AcquireOutcome::Success { index: 0, suboptimal: false });
    assert!(matches!(begun, BeginFrame::Proceed { wait_previous_use: true, .. }));
    // nothing drawn: an empty frame records no draw calls
    let (cl, sets) = r.end_record(controller.view_projection_matrix());
    assert_eq!(cl.draws.len(), 0);
    assert_eq!(sets.len(), 0);
    r.end_present(PresentOutcome::Presented);
}

#[test]
fn skipped_frame_records_nothing_and_recreates() {
    let mut r = Renderer2D::new(2, 640, 480, 100);
    let begun = r.begin(AcquireOutcome::OutOfDate);
    assert!(matches!(begun, BeginFrame::Skip));
    assert!(r.scheduler.needs_recreate());
    r.window_resized(320, 240);
    r.scheduler.recreation_completed(true);
    assert_eq!((r.scheduler.swap_width, r.scheduler.swap_height), (320, 240));
    let begun = r.begin(AcquireOutcome::Success { index: 1, suboptimal: false });
    assert!(matches!(begun, BeginFrame::Proceed { .. }));
}

#[test]
fn background_color_reaches_the_command_list() {
    let mut r = Renderer2D::new(2, 640, 480, 100);
    let blue = ColorBits { r: 0, g: 0x3ECC_CCCD, b: 0x3F80_0000, a: 0x3F80_0000 };
    r.set_background_color(blue);
    let camera = CameraOrthographic::new(640, 480);
    let controller = CameraController::new(camera);
    let (cl, _sets) = r.end_record(controller.view_projection_matrix());
    assert_eq!(cl.clear_color, blue);
}
