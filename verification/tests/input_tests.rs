use smartpaste::input::{
    button_name, input_emission, parse_screen_size, parse_u32, screen_size_or_default,
    start_key_listener, start_mouse_button_listener, start_mouse_move_listener,
    stop_key_listener, stop_mouse_listener, tray_click_counts, window_toggle, Emission,
    InputEvent, ListenerFlags, MouseButton, WindowToggle,
};

fn chars(s: &str) -> Vec<char> {
    s.chars().collect()
}

#[test]
fn listener_switches() {
    let mut f = ListenerFlags::new();
    assert!(start_mouse_button_listener(&mut f));
    assert!(f.keys && f.buttons && f.thread_started && !f.movement);
    assert!(!start_mouse_move_listener(&mut f));
    assert!(f.movement);
    stop_key_listener(&mut f);
    assert!(!f.keys && f.thread_started);
    assert!(!start_key_listener(&mut f));
    assert!(f.keys);
    stop_mouse_listener(&mut f);
    assert!(!f.buttons && !f.movement && f.keys);
}

#[test]
fn button_names() {
    assert_eq!(button_name(MouseButton::Left), "left");
    assert_eq!(button_name(MouseButton::Right), "right");
    assert_eq!(button_name(MouseButton::Middle), "middle");
    assert_eq!(button_name(MouseButton::Unknown(4)), "back");
    assert_eq!(button_name(MouseButton::Unknown(5)), "forward");
    assert_eq!(button_name(MouseButton::Unknown(6)), "task");
    assert_eq!(button_name(MouseButton::Unknown(9)), "unknown");
}

#[test]
fn emissions_follow_the_switches() {
    let mut f = ListenerFlags::new();
    assert_eq!(input_emission(f, InputEvent::KeyPress("KeyA".to_string())), None);
    start_key_listener(&mut f);
    assert_eq!(
        input_emission(f, InputEvent::KeyPress("KeyA".to_string())),
        Some(Emission::Key { key: "KeyA".to_string(), kind: "down" })
    );
    assert_eq!(
        input_emission(f, InputEvent::KeyRelease("KeyA".to_string())),
        Some(Emission::Key { key: "KeyA".to_string(), kind: "up" })
    );
    assert_eq!(input_emission(f, InputEvent::ButtonPress(MouseButton::Left)), None);
    start_mouse_button_listener(&mut f);
    assert_eq!(
        input_emission(f, InputEvent::ButtonRelease(MouseButton::Unknown(5))),
        Some(Emission::Button { button: "forward", kind: "up" })
    );
    assert_eq!(input_emission(f, InputEvent::MouseMove), None);
    start_mouse_move_listener(&mut f);
    assert_eq!(input_emission(f, InputEvent::MouseMove), Some(Emission::Move));
    assert_eq!(input_emission(f, InputEvent::Wheel), None);
    assert_eq!(input_emission(f, InputEvent::Other), None);
}

#[test]
fn numbers_parse_like_std() {
    for s in ["0", "42", "+7", "4294967295", "", "+", "-1", "4294967296", "12a", " 1"] {
        assert_eq!(parse_u32(&chars(s)), s.parse::<u32>().ok(), "input {:?}", s);
    }
}

#[test]
fn screen_size_from_xrandr() {
    let out = "Screen 0: minimum 8 x 8, current 2560 x 1440, maximum 32767 x 32767\n\
               eDP-1 connected primary 2560x1440+0+0 (normal left inverted right) 309mm x 174mm\n\
               HDMI-1 disconnected (normal left inverted right x axis y axis)\n";
    assert_eq!(parse_screen_size(out), Some((2560, 1440)));
    assert_eq!(parse_screen_size("DP-1 disconnected\n"), None);
    assert_eq!(parse_screen_size("A connected x 1024x768+0+0\r\n"), Some((1024, 768)));
    assert_eq!(screen_size_or_default(None), (1920, 1080));
    assert_eq!(screen_size_or_default(Some((800, 600))), (800, 600));
}

#[test]
fn window_and_tray() {
    assert_eq!(window_toggle(true), WindowToggle::Hide);
    assert_eq!(window_toggle(false), WindowToggle::ShowAndFocus);
    assert!(!tray_click_counts(199));
    assert!(tray_click_counts(200));
}
