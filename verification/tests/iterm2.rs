use meteo_station::iterm2::{encode_iterm2_cells, iterm2_escape};

#[test]
fn iterm2_escape_wraps_base64() {
    let s = iterm2_escape(b"hello", 12, 4);
    assert_eq!(
        s,
        "\x1b]1337;File=inline=1;size=5;width=12;height=4;preserveAspectRatio=0;doNotMoveCursor=1:aGVsbG8=\x07"
    );
}

#[test]
fn encode_iterm2_cells_emits_png() {
    let pixels = vec![0x80_u8; 2 * 3 * 4];
    let s = encode_iterm2_cells(&pixels, 2, 3, 5, 6);
    assert!(s.starts_with("\x1b]1337;File=inline=1;size="));
    assert!(s.contains(";width=5;height=6;"));
    assert!(s.contains(":iVBORw0KGgo"), "payload should be a base64 PNG");
    assert!(s.ends_with('\x07'));
}
