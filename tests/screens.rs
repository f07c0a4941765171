use qmk_xap::broadcast::ScreenPressed;
use qmk_xap::gui::{
    bar_hue, centered_x, due_tasks, forecast_to_img_id, normalize_string, pixels_to_rgb565,
    scrolling_window,
    text_width, Button, Screen, Slider, SliderDirection,
};

#[test]
fn forecast_images() {
    assert_eq!(forecast_to_img_id(Some(0)), Some(9));
    assert_eq!(forecast_to_img_id(Some(2)), Some(7));
    assert_eq!(forecast_to_img_id(Some(63)), Some(8));
    assert_eq!(forecast_to_img_id(Some(81)), Some(8));
    assert_eq!(forecast_to_img_id(Some(45)), None);
    assert_eq!(forecast_to_img_id(None), None);
}

#[test]
fn normalizes_accents_and_drops_symbols() {
    assert_eq!(normalize_string("¡Canción & Ñandú!".as_bytes().to_vec()), b"Cancion  Nandu!".to_vec());
    assert_eq!(normalize_string("Àéïõç¿".as_bytes().to_vec()), "Aeiõc".as_bytes().to_vec());
    assert_eq!(normalize_string("🎵 off".as_bytes().to_vec()), "🎵 off".as_bytes().to_vec());
    assert!(normalize_string(vec![]).is_empty());
}

#[test]
fn text_layout() {
    assert_eq!(text_width(Some(120)), 120);
    assert_eq!(text_width(Some(-1)), u16::MAX);
    assert_eq!(text_width(None), u16::MAX);
    assert_eq!(centered_x(160, 100, 320), Some(110));
    assert_eq!(centered_x(20, 100, 320), None);
    assert_eq!(centered_x(300, 100, 320), None);
    assert_eq!(scrolling_window(0, 1), Some(18));
    assert_eq!(scrolling_window(0, 0), Some(7));
    assert_eq!(scrolling_window(1, 0), Some(18));
    assert_eq!(scrolling_window(1, 1), None);
    assert_eq!((bar_hue(30), bar_hue(31), bar_hue(70), bar_hue(71)), (105, 45, 45, 0));
}

#[test]
fn housekeeping_schedule() {
    let t = due_tasks(0);
    assert!(t.album_cover && t.notifications && t.weather);
    let t = due_tasks(30);
    assert!(t.album_cover && !t.notifications && !t.weather);
    let t = due_tasks(1200);
    assert!(t.album_cover && t.notifications && t.weather);
    assert!(!due_tasks(7).album_cover);
}

#[test]
fn presses_hit_buttons_and_sliders() {
    let screen = Screen {
        id: 1,
        buttons: vec![Button { x: 10, y: 10, img: 0 }, Button { x: 200, y: 100, img: 1 }],
        sliders: vec![Slider { direction: SliderDirection::Horizontal, start: 190, size: 50, x: 0, y: 0 }],
    };
    assert_eq!(screen.get_button(0, 0), Some(0));
    assert_eq!(screen.get_button(190, 178), Some(1));
    assert_eq!(screen.get_button(150, 20), None);
    assert_eq!(screen.get_slider(5, 200), Some(0));
    assert_eq!(screen.get_slider(5, 241), None);
    assert_eq!(screen.sliders[0].coord(33, 44), 33);
    let vertical = Slider { direction: SliderDirection::Vertical, start: 0, size: 10, x: 0, y: 0 };
    assert_eq!(vertical.coord(33, 44), 44);
}

#[test]
fn pixels_are_packed_as_rgb565() {
    assert_eq!(pixels_to_rgb565(&[255, 255, 255]), vec![0xFF, 0xFF]);
    assert_eq!(pixels_to_rgb565(&[0x12, 0x34, 0x56, 0, 0, 0]), vec![0x11, 0xAA, 0, 0]);
    assert_eq!(pixels_to_rgb565(&[0xF8, 0, 0]), vec![0xF8, 0x00]);
    assert!(pixels_to_rgb565(&[]).is_empty());
}

#[test]
fn presses_are_routed_by_screen() {
    let screen = Screen {
        id: 1,
        buttons: vec![Button { x: 100, y: 100, img: 0 }],
        sliders: vec![Slider { direction: SliderDirection::Vertical, start: 90, size: 40, x: 0, y: 0 }],
    };
    assert_eq!(screen.handle(&ScreenPressed { screen_id: 1, x: 100, y: 120 }), (Some(0), Some(0)));
    assert_eq!(screen.handle(&ScreenPressed { screen_id: 1, x: 150, y: 5 }), (None, None));
    assert_eq!(screen.handle(&ScreenPressed { screen_id: 0, x: 100, y: 120 }), (None, None));
}
