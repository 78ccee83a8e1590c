use vibe_coding_voice_native::tray::build_icon_data;

#[test]
fn icon_bitmap() {
    let icon = build_icon_data();
    assert_eq!(icon.width, 32);
    assert_eq!(icon.height, 32);
    assert_eq!(icon.rgba.len(), 32 * 32 * 4);
    let px = |x: usize, y: usize| &icon.rgba[(y * 32 + x) * 4..(y * 32 + x) * 4 + 4];
    assert_eq!(px(0, 0), &[53, 132, 228, 255]);
    assert_eq!(px(31, 31), &[53, 132, 228, 255]);
    assert_eq!(px(15, 15), &[118, 185, 255, 255]);
    assert_eq!(px(5, 5), &[20, 24, 31, 230]);
    assert_eq!(px(22, 10), &[20, 24, 31, 230]);
    assert_eq!(px(10, 8), &[118, 185, 255, 255]);
}
