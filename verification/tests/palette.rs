use face_data::palette::{get_face_color, is_known_color_index, HexColor, PALETTE_LEN};

#[test]
fn palette_holds_seven_colors() {
    assert_eq!(get_face_color(0), HexColor::new(250, 189, 0));
    assert_eq!(get_face_color(1), HexColor::new(254, 134, 37));
    assert_eq!(get_face_color(2), HexColor::new(254, 88, 68));
    assert_eq!(get_face_color(3), HexColor::new(254, 131, 238));
    assert_eq!(get_face_color(4), HexColor::new(76, 177, 254));
    assert_eq!(get_face_color(5), HexColor::new(120, 235, 198));
    assert_eq!(get_face_color(6), HexColor::new(141, 228, 28));
}

#[test]
fn unknown_index_is_black() {
    let black = HexColor::new(0, 0, 0);
    assert_eq!(get_face_color(7), black);
    assert_eq!(get_face_color(42), black);
    assert_eq!(get_face_color(255), black);
    assert_eq!(get_face_color(u32::MAX), black);
}

#[test]
fn known_indices_are_those_below_the_palette_length() {
    assert_eq!(PALETTE_LEN, 7);
    for index in 0..7 {
        assert!(is_known_color_index(index));
        assert_ne!(get_face_color(index), HexColor::new(0, 0, 0));
    }
    assert!(!is_known_color_index(7));
    assert!(!is_known_color_index(u32::MAX));
}

#[test]
fn new_keeps_the_channels() {
    let color = HexColor::new(1, 2, 3);
    assert_eq!(color.r, 1);
    assert_eq!(color.g, 2);
    assert_eq!(color.b, 3);
}

#[test]
fn hex_string_has_two_digits_per_channel() {
    assert_eq!(get_face_color(0).to_hex_string(), "#fabd00");
    assert_eq!(get_face_color(6).to_hex_string(), "#8de41c");
    assert_eq!(HexColor::new(0, 0, 0).to_hex_string(), "#000000");
    assert_eq!(HexColor::new(255, 255, 255).to_hex_string(), "#ffffff");
    assert_eq!(HexColor::new(1, 2, 3).to_hex_string(), "#010203");
    assert_eq!(HexColor::new(0x9a, 0x0b, 0xc0).to_hex_string(), "#9a0bc0");
}

#[test]
fn hex_string_agrees_with_format() {
    for index in 0..9 {
        let color = get_face_color(index);
        let formatted = format!("#{:02x}{:02x}{:02x}", color.r, color.g, color.b);
        assert_eq!(color.to_hex_string(), formatted);
    }
}
