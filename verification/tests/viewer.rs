use winit_egui_wgpu::ui::Button;
use winit_egui_wgpu::viewer::{
    camera_step, pipeline_for, CameraStep, LogicalKey, Pipeline, Viewer, ViewerAction, ViewerEvent,
    INITIAL_HEIGHT, INITIAL_WIDTH,
};

#[test]
fn new_viewer() {
    let viewer = Viewer::new();
    assert!(!viewer.close_requested);
    assert_eq!(viewer.width, 1360);
    assert_eq!(viewer.height, 768);
    assert_eq!(INITIAL_WIDTH, 1360);
    assert_eq!(INITIAL_HEIGHT, 768);
    assert_eq!(viewer.ui.sides, 5);
    assert_eq!(viewer.ui.active_shader, "main");
}

#[test]
fn letters_move_the_camera() {
    assert_eq!(camera_step(&LogicalKey::Character("a")), Some(CameraStep::StrafeLeft));
    assert_eq!(camera_step(&LogicalKey::Character("w")), Some(CameraStep::Forward));
    assert_eq!(camera_step(&LogicalKey::Character("s")), Some(CameraStep::Backward));
    assert_eq!(camera_step(&LogicalKey::Character("d")), Some(CameraStep::StrafeRight));
    assert_eq!(camera_step(&LogicalKey::Character("z")), Some(CameraStep::ZoomIn));
    assert_eq!(camera_step(&LogicalKey::Character("x")), Some(CameraStep::ZoomOut));
}

#[test]
fn other_keys_do_not_move_the_camera() {
    assert_eq!(camera_step(&LogicalKey::Character("A")), None);
    assert_eq!(camera_step(&LogicalKey::Character("q")), None);
    assert_eq!(camera_step(&LogicalKey::Character("")), None);
    assert_eq!(camera_step(&LogicalKey::Character("aw")), None);
    assert_eq!(camera_step(&LogicalKey::Character("a ")), None);
    assert_eq!(camera_step(&LogicalKey::Character("\u{e4}")), None);
    assert_eq!(camera_step(&LogicalKey::Escape), None);
    assert_eq!(camera_step(&LogicalKey::Other), None);
}

#[test]
fn pipeline_follows_the_name_of_the_shader() {
    assert_eq!(pipeline_for("main"), Pipeline::Main);
    assert_eq!(pipeline_for("challenge"), Pipeline::Challenge);
    assert_eq!(pipeline_for(""), Pipeline::Main);
    assert_eq!(pipeline_for("Challenge"), Pipeline::Main);
    assert_eq!(pipeline_for("challenge "), Pipeline::Main);
}

#[test]
fn a_key_moves_the_camera_and_uploads_it() {
    let mut viewer = Viewer::new();
    let action = viewer.handle(&ViewerEvent::KeyboardInput(LogicalKey::Character("w")));
    assert_eq!(action, ViewerAction::UpdateCamera { step: Some(CameraStep::Forward) });
    let action = viewer.handle(&ViewerEvent::KeyboardInput(LogicalKey::Character("p")));
    assert_eq!(action, ViewerAction::UpdateCamera { step: None });
    let action = viewer.handle(&ViewerEvent::KeyboardInput(LogicalKey::Other));
    assert_eq!(action, ViewerAction::UpdateCamera { step: None });
    assert!(!viewer.close_requested);
    assert_eq!((viewer.width, viewer.height), (1360, 768));
}

#[test]
fn escape_asks_to_leave_and_the_loop_leaves_when_it_is_idle() {
    let mut viewer = Viewer::new();
    assert_eq!(viewer.handle(&ViewerEvent::AboutToWait), ViewerAction::Nothing);
    let action = viewer.handle(&ViewerEvent::KeyboardInput(LogicalKey::Escape));
    assert_eq!(action, ViewerAction::UpdateCamera { step: None });
    assert!(viewer.close_requested);
    assert_eq!(
        viewer.handle(&ViewerEvent::RedrawRequested),
        ViewerAction::Redraw { pipeline: Pipeline::Main, width: 1360, height: 768 }
    );
    assert!(viewer.close_requested);
    assert_eq!(viewer.handle(&ViewerEvent::AboutToWait), ViewerAction::Exit);
    assert_eq!(viewer.handle(&ViewerEvent::AboutToWait), ViewerAction::Exit);
}

#[test]
fn close_button_asks_to_leave() {
    let mut viewer = Viewer::new();
    assert_eq!(viewer.handle(&ViewerEvent::CloseRequested), ViewerAction::Nothing);
    assert!(viewer.close_requested);
    assert_eq!(viewer.handle(&ViewerEvent::Other), ViewerAction::Nothing);
    assert_eq!(
        viewer.handle(&ViewerEvent::Resized { width: 1, height: 2 }),
        ViewerAction::Resize { width: 1, height: 2 }
    );
    assert!(viewer.close_requested);
    assert_eq!(viewer.handle(&ViewerEvent::AboutToWait), ViewerAction::Exit);
}

#[test]
fn resize_is_remembered() {
    let mut viewer = Viewer::new();
    let action = viewer.handle(&ViewerEvent::Resized { width: 800, height: 600 });
    assert_eq!(action, ViewerAction::Resize { width: 800, height: 600 });
    assert_eq!((viewer.width, viewer.height), (800, 600));
    assert_eq!(
        viewer.handle(&ViewerEvent::RedrawRequested),
        ViewerAction::Redraw { pipeline: Pipeline::Main, width: 800, height: 600 }
    );
    let action = viewer.handle(&ViewerEvent::Resized { width: 0, height: 0 });
    assert_eq!(action, ViewerAction::Resize { width: 0, height: 0 });
    assert_eq!((viewer.width, viewer.height), (0, 0));
    assert_eq!(
        viewer.handle(&ViewerEvent::RedrawRequested),
        ViewerAction::Redraw { pipeline: Pipeline::Main, width: 0, height: 0 }
    );
    viewer.handle(&ViewerEvent::Other);
    viewer.handle(&ViewerEvent::AboutToWait);
    assert_eq!((viewer.width, viewer.height), (0, 0));
    assert!(!viewer.close_requested);
}

#[test]
fn redraw_uses_the_pipeline_of_the_active_shader() {
    let mut viewer = Viewer::new();
    assert_eq!(
        viewer.handle(&ViewerEvent::RedrawRequested),
        ViewerAction::Redraw { pipeline: Pipeline::Main, width: 1360, height: 768 }
    );
    viewer.ui.press(Button::SwitchShader);
    assert_eq!(
        viewer.handle(&ViewerEvent::RedrawRequested),
        ViewerAction::Redraw { pipeline: Pipeline::Challenge, width: 1360, height: 768 }
    );
    viewer.ui.active_shader = "neither";
    assert_eq!(
        viewer.handle(&ViewerEvent::RedrawRequested),
        ViewerAction::Redraw { pipeline: Pipeline::Main, width: 1360, height: 768 }
    );
    assert_eq!(viewer.ui.active_shader, "neither");
}

#[test]
fn events_leave_the_panel_alone() {
    let mut viewer = Viewer::new();
    viewer.ui.press(Button::MoreSides);
    viewer.ui.press(Button::SwitchStyle);
    let events = [
        ViewerEvent::CloseRequested,
        ViewerEvent::KeyboardInput(LogicalKey::Character("z")),
        ViewerEvent::KeyboardInput(LogicalKey::Escape),
        ViewerEvent::Resized { width: 3, height: 4 },
        ViewerEvent::RedrawRequested,
        ViewerEvent::AboutToWait,
        ViewerEvent::Other,
    ];
    for event in &events {
        viewer.handle(event);
        assert_eq!(viewer.ui.sides, 6);
        assert_eq!(viewer.ui.active_shader, "main");
    }
}
