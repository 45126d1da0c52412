use switchboard::theme::{
    fallback_icon_rgba, icon_resources, is_immersive_color_set, uses_light_theme, IDI_TRAY_DARK,
    IDI_TRAY_LIGHT, REG_DWORD,
};

fn utf16z(s: &str) -> Vec<u16> {
    let mut v: Vec<u16> = s.encode_utf16().collect();
    v.push(0);
    v
}

#[test]
fn test_is_immersive_color_set_null_pointer() {
    assert!(!is_immersive_color_set(None));
}

#[test]
fn test_is_immersive_color_set_exact_match() {
    let buf = utf16z("ImmersiveColorSet");
    assert!(is_immersive_color_set(Some(&buf)));
}

#[test]
fn test_is_immersive_color_set_different_event() {
    let buf = utf16z("Environment");
    assert!(!is_immersive_color_set(Some(&buf)));
}

#[test]
fn test_is_immersive_color_set_empty_string() {
    let buf = utf16z("");
    assert!(!is_immersive_color_set(Some(&buf)));
}

#[test]
fn test_is_immersive_color_set_prefix_only() {
    let buf = utf16z("Immersive");
    assert!(!is_immersive_color_set(Some(&buf)));
}

#[test]
fn test_is_immersive_color_set_case_sensitive() {
    let buf = utf16z("immersivecolorset");
    assert!(!is_immersive_color_set(Some(&buf)));
}

#[test]
fn test_is_immersive_color_set_longer_than_target() {
    let buf = utf16z("ImmersiveColorSetX");
    assert!(!is_immersive_color_set(Some(&buf)));
}

#[test]
fn immersive_color_set_needs_the_terminator() {
    let buf: Vec<u16> = "ImmersiveColorSet".encode_utf16().collect();
    assert!(!is_immersive_color_set(Some(&buf)));
}

#[test]
fn light_theme_only_for_dword_one() {
    assert!(uses_light_theme(true, 0, REG_DWORD, 1));
    assert!(!uses_light_theme(true, 0, REG_DWORD, 0));
    assert!(!uses_light_theme(true, 0, REG_DWORD, 2));
    assert!(!uses_light_theme(true, 0, 1, 1));
    assert!(!uses_light_theme(true, 2, REG_DWORD, 1));
    assert!(!uses_light_theme(false, 0, REG_DWORD, 1));
}

#[test]
fn icon_choice() {
    assert_eq!(icon_resources(true), (IDI_TRAY_LIGHT, IDI_TRAY_DARK));
    assert_eq!(icon_resources(false), (IDI_TRAY_DARK, IDI_TRAY_DARK));
    assert_eq!((IDI_TRAY_DARK, IDI_TRAY_LIGHT), (101, 102));
}

#[test]
fn fallback_icon_is_flat_blue() {
    let rgba = fallback_icon_rgba();
    assert_eq!(rgba.len(), 1024);
    for px in rgba.chunks(4) {
        assert_eq!(px, &[0x00, 0x78, 0xD4, 0xFF]);
    }
}
