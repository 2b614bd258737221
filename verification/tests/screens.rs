use photo_frame::panel::Panel;
use photo_frame::screens::{prepare_screen, ScreenLine, PRIMARY, SECONDARY};
use photo_frame::ui::Showing;

fn texts(lines: &[ScreenLine]) -> Vec<&str> {
    lines.iter().map(|l| l.text.as_str()).collect()
}

#[test]
fn the_wifi_screen_names_the_setup_network() {
    let mut panel = Panel::new();
    let lines = prepare_screen(&mut panel, &Showing::WifiSetup("Frame-1A2B".to_string()));
    assert_eq!(
        texts(&lines),
        [
            "Connect this frame to Wi-Fi",
            "Join this network from your phone, then follow the prompt.",
            "Frame-1A2B"
        ]
    );
    assert_eq!(lines[2], ScreenLine { text: "Frame-1A2B".to_string(), y: 430, colour: PRIMARY, large: true });
    assert_eq!(lines[1].colour, SECONDARY);
}

#[test]
fn the_adoption_screen_shows_the_frame_id() {
    let mut panel = Panel::new();
    let lines = prepare_screen(&mut panel, &Showing::AwaitingAdoption("esp32p4-abcdef".to_string()));
    assert_eq!(lines.len(), 4);
    assert_eq!(lines[2].text, "esp32p4-abcdef");
    assert_eq!(lines.iter().map(|l| l.y).collect::<Vec<_>>(), [270, 318, 400, 470]);
}

#[test]
fn start_and_ready_screens_are_one_line_and_photos_none() {
    let mut panel = Panel::new();
    assert_eq!(texts(&prepare_screen(&mut panel, &Showing::Starting)), ["Starting up"]);
    let ready = prepare_screen(&mut panel, &Showing::Ready);
    assert_eq!(ready[0], ScreenLine { text: "Waiting for photos".to_string(), y: 400, colour: SECONDARY, large: false });
    assert!(prepare_screen(&mut panel, &Showing::Photo(3)).is_empty());
    assert!(prepare_screen(&mut panel, &Showing::Nothing).is_empty());
}

#[test]
fn a_screen_starts_from_black() {
    let mut panel = Panel::new();
    panel.clear(0xFFFF);
    prepare_screen(&mut panel, &Showing::Ready);
    panel.flush();
    assert!(panel.rotated().iter().all(|&px| px == 0));
}
