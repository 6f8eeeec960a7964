use tv_tauri::surface::surface_size;

#[test]
fn surface_sizes() {
    assert_eq!(surface_size(1920, 1080), (1920, 1080));
    assert_eq!(surface_size(0, 0), (1, 1));
    assert_eq!(surface_size(0, 7), (1, 7));
}

#[test]
fn huge_sides_wrap_like_a_cast() {
    assert_eq!(surface_size(u32::MAX, 0x8000_0000), (-1, i32::MIN));
    assert_eq!(surface_size(0x7fff_ffff, 1), (i32::MAX, 1));
}
