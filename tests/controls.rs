use schrodinger::input::Key;
use schrodinger::one_dim::{next_speed, ChartColor, ToggleButton, ToggleVariant, MAX_SPEED};
use schrodinger::two_dim::{camera_command, CameraCommand};

#[test]
fn speed_steps_within_bounds() {
    assert_eq!(next_speed(1, Key::ArrowUp), 2);
    assert_eq!(next_speed(5, Key::ArrowDown), 4);
    assert_eq!(next_speed(1, Key::ArrowDown), 1);
    assert_eq!(next_speed(MAX_SPEED, Key::ArrowUp), MAX_SPEED);
    assert_eq!(next_speed(199, Key::ArrowUp), 200);
    assert_eq!(next_speed(7, Key::Space), 7);
}

#[test]
fn toggle_button_hides_and_shows() {
    let mut b = ToggleButton::new(ToggleVariant::Real, ChartColor::Red);
    assert!(b.active());
    assert_eq!(b.variant(), ToggleVariant::Real);
    assert_eq!(b.background(), ChartColor::Red);
    b.toggle();
    assert!(!b.active());
    assert_eq!(b.background(), ChartColor::Black);
    assert_eq!(b.color(), ChartColor::Red);
    b.toggle();
    assert!(b.active());
    assert_eq!(b.background(), ChartColor::Red);
}

#[test]
fn camera_keys() {
    assert_eq!(camera_command(Key::Minus), Some(CameraCommand::ZoomIn));
    assert_eq!(camera_command(Key::Slash), Some(CameraCommand::ZoomOut));
    assert_eq!(camera_command(Key::ArrowUp), Some(CameraCommand::MoveX(-1)));
    assert_eq!(camera_command(Key::ArrowDown), Some(CameraCommand::MoveX(1)));
    assert_eq!(camera_command(Key::ArrowLeft), Some(CameraCommand::MoveZ(1)));
    assert_eq!(camera_command(Key::ArrowRight), Some(CameraCommand::MoveZ(-1)));
    assert_eq!(camera_command(Key::ShiftLeft), Some(CameraCommand::MoveY(-1)));
    assert_eq!(camera_command(Key::Space), Some(CameraCommand::MoveY(1)));
    assert_eq!(camera_command(Key::KeyU), Some(CameraCommand::RotateZ(-1)));
    assert_eq!(camera_command(Key::KeyD), Some(CameraCommand::RotateZ(1)));
    assert_eq!(camera_command(Key::Other), None);
}
