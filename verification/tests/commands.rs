use yabai::Command;
use yabai::Direction;
use yabai::FocusSpaceOption;
use yabai::SpaceRotation;

#[test]
fn renders_focus_space_recent() {
    let r = Command::FocusSpace(FocusSpaceOption::Recent).render();
    assert_eq!(r, "space --focus recent");
}

#[test]
fn renders_focus_space_named_targets() {
    assert_eq!(Command::FocusSpace(FocusSpaceOption::Next).render(), "space --focus next");
    assert_eq!(Command::FocusSpace(FocusSpaceOption::Prev).render(), "space --focus prev");
    assert_eq!(Command::FocusSpace(FocusSpaceOption::First).render(), "space --focus first");
    assert_eq!(Command::FocusSpace(FocusSpaceOption::Last).render(), "space --focus last");
}

#[test]
fn renders_focus_space_numeric_id() {
    assert_eq!(Command::FocusSpace(FocusSpaceOption::Space(2)).render(), "space --focus 2");
    assert_eq!(Command::FocusSpace(FocusSpaceOption::Space(0)).render(), "space --focus 0");
    assert_eq!(
        Command::FocusSpace(FocusSpaceOption::Space(4294967295)).render(),
        "space --focus 4294967295"
    );
}

#[test]
fn renders_rotations() {
    assert_eq!(Command::RotateSpace(SpaceRotation::Rotate90).render(), "space --rotate 90");
    assert_eq!(Command::RotateSpace(SpaceRotation::Rotate180).render(), "space --rotate 180");
    assert_eq!(Command::RotateSpace(SpaceRotation::Rotate270).render(), "space --rotate 270");
}

#[test]
fn renders_balance_space() {
    assert_eq!(Command::BalanceSpace.render(), "space --balance");
}

#[test]
fn renders_window_commands() {
    assert_eq!(Command::MoveActiveWindowToSpace(3).render(), "window --space 3");
    assert_eq!(Command::FocusWindow(107).render(), "window --focus 107");
    assert_eq!(
        Command::FocusWindowDirection(Direction::North).render(),
        "window --focus north"
    );
    assert_eq!(Command::SwapWindowDirection(Direction::South).render(), "window --swap south");
    assert_eq!(Command::WarpWindowDirection(Direction::East).render(), "window --warp east");
    assert_eq!(
        Command::FocusWindowDirection(Direction::West).render(),
        "window --focus west"
    );
}

#[test]
fn renders_toggles() {
    assert_eq!(Command::ToggleWindowFloating.render(), "window --toggle float");
    assert_eq!(Command::ToggleZoomFullscreen.render(), "window --toggle zoom-fullscreen");
}
