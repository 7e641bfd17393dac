use kernel_core::graphics::{
    draw_char, draw_line, draw_point, draw_rect, transfer_rect, Bitmap, BitmapBuffer,
    GraphicsError, Rect,
};

#[test]
fn creates_rect() {
    let r = Rect::new(0, 0, 0, 0).unwrap();
    assert_eq!(r.x(), 0);
    assert_eq!(r.y(), 0);
    assert_eq!(r.w(), 0);
    assert_eq!(r.h(), 0);

    let r = Rect::new(1, 2, 3, 4).unwrap();
    assert_eq!(r.x(), 1);
    assert_eq!(r.y(), 2);
    assert_eq!(r.w(), 3);
    assert_eq!(r.h(), 4);

    let r = Rect::new(-1, -2, 3, 4).unwrap();
    assert_eq!(r.x(), -1);
    assert_eq!(r.y(), -2);
    assert_eq!(r.w(), 3);
    assert_eq!(r.h(), 4);
}

#[test]
fn fails_to_create_negative_sized_rect() {
    assert!(Rect::new(0, 0, -1, 0).is_err());
    assert!(Rect::new(0, 0, 0, -1).is_err());
    assert!(Rect::new(0, 0, -1, -1).is_err());
    assert_eq!(Rect::new(5, 5, -1, 3).err(), Some(GraphicsError::OutOfRange));
}

#[test]
fn test_buf_default() {
    let h = 13_i64;
    let w = 17_i64;
    let pixels_per_line = 19_i64;
    let buf = BitmapBuffer::new(w, h, pixels_per_line);
    assert!(buf.pixel_at(-1, 0).is_none());
    assert!(buf.pixel_at(0, -1).is_none());
    assert!(buf.pixel_at(w - 1, h).is_none());
    assert!(buf.pixel_at(w, h - 1).is_none());
    for y in -3..h + 3 {
        for x in -3..pixels_per_line + 3 {
            if 0 <= x && x < w && 0 <= y && y < h {
                assert!(buf.pixel_at(x, y) == Some(0))
            } else {
                assert!(buf.pixel_at(x, y).is_none())
            }
        }
    }
    assert_eq!(buf.width(), 17);
    assert_eq!(buf.height(), 13);
    assert_eq!(buf.pixels_per_line(), 19);
    assert_eq!(buf.bytes_per_pixel(), 4);
}

#[test]
fn draw_rect_default() {
    let h = 13_i64;
    let w = 17_i64;
    let pixels_per_line = 19_i64;
    let mut buf = BitmapBuffer::new(w, h, pixels_per_line);
    assert!(draw_rect(&mut buf, 0xff0000, 0, 0, w, h).is_ok());
    for y in 0..h {
        for x in 0..w {
            assert!(buf.pixel_at(x, y) == Some(0xff0000))
        }
    }
}

#[test]
fn draw_rect_part_and_rejection() {
    let mut buf = BitmapBuffer::new(8, 6, 8);
    assert!(draw_rect(&mut buf, 7, 2, 1, 3, 2).is_ok());
    for y in 0..6 {
        for x in 0..8 {
            let inside = 2 <= x && x < 5 && 1 <= y && y < 3;
            assert_eq!(buf.pixel_at(x, y), Some(if inside { 7 } else { 0 }));
        }
    }
    assert_eq!(draw_rect(&mut buf, 9, 6, 0, 3, 1), Err(GraphicsError::OutOfRange));
    assert_eq!(draw_rect(&mut buf, 9, 0, 5, 1, 2), Err(GraphicsError::OutOfRange));
    assert_eq!(draw_rect(&mut buf, 9, -1, 0, 1, 1), Err(GraphicsError::OutOfRange));
    assert_eq!(draw_rect(&mut buf, 9, 0, 0, 0, 1), Err(GraphicsError::OutOfRange));
    assert_eq!(draw_rect(&mut buf, 9, 0, 0, i64::MAX, i64::MAX), Err(GraphicsError::OutOfRange));
    assert!(draw_rect(&mut buf, 9, 3, 3, 0, 0).is_ok());
    assert!(draw_rect(&mut buf, 9, 3, 3, -2, 1).is_ok());
    for y in 0..6 {
        for x in 0..8 {
            let inside = 2 <= x && x < 5 && 1 <= y && y < 3;
            assert_eq!(buf.pixel_at(x, y), Some(if inside { 7 } else { 0 }));
        }
    }
}

#[test]
fn draw_point_checks_both_coordinates() {
    let mut buf = BitmapBuffer::new(4, 3, 5);
    assert!(draw_point(&mut buf, 1, 3, 2).is_ok());
    assert_eq!(buf.pixel_at(3, 2), Some(1));
    assert_eq!(draw_point(&mut buf, 1, 4, 0), Err(GraphicsError::OutOfRange));
    assert_eq!(draw_point(&mut buf, 1, 0, 3), Err(GraphicsError::OutOfRange));
    assert_eq!(draw_point(&mut buf, 1, 0, -1), Err(GraphicsError::OutOfRange));
}

const INIT: [[u32; 4]; 4] = [
    [0, 1, 2, 3],
    [10, 11, 12, 13],
    [20, 21, 22, 23],
    [30, 31, 32, 33],
];
const TR_U: [[u32; 4]; 4] = [
    [0, 11, 12, 3],
    [10, 21, 22, 13],
    [20, 21, 22, 23],
    [30, 31, 32, 33],
];
const TR_D: [[u32; 4]; 4] = [
    [0, 1, 2, 3],
    [10, 11, 12, 13],
    [20, 11, 12, 23],
    [30, 21, 22, 33],
];
const TR_L: [[u32; 4]; 4] = [
    [0, 1, 2, 3],
    [11, 12, 12, 13],
    [21, 22, 22, 23],
    [30, 31, 32, 33],
];
const TR_R: [[u32; 4]; 4] = [
    [0, 1, 2, 3],
    [10, 11, 11, 12],
    [20, 21, 21, 22],
    [30, 31, 32, 33],
];

#[test]
fn transfer_rect_all_dir() {
    let mut buf = BitmapBuffer::new(4, 4, 4);
    let dirs = vec![(0, 0, &INIT), (-1, 0, &TR_L), (1, 0, &TR_R), (0, -1, &TR_U), (0, 1, &TR_D)];
    for (dx, dy, expected) in dirs {
        for y in 0..4 {
            for x in 0..4 {
                draw_point(&mut buf, INIT[y as usize][x as usize], x, y).unwrap();
            }
        }
        transfer_rect(&mut buf, 1 + dx, 1 + dy, 1, 1, 2, 2).unwrap();
        for y in 0..4 {
            for x in 0..4 {
                assert_eq!(buf.pixel_at(x, y), Some(expected[y as usize][x as usize]));
            }
        }
    }
}

#[test]
fn transfer_rect_diagonal_overlap_and_rejection() {
    let mut buf = BitmapBuffer::new(5, 5, 6);
    for y in 0..5 {
        for x in 0..5 {
            draw_point(&mut buf, (y * 10 + x) as u32, x, y).unwrap();
        }
    }
    transfer_rect(&mut buf, 2, 2, 1, 1, 3, 3).unwrap();
    for y in 0..5 {
        for x in 0..5 {
            let want = if 2 <= x && 2 <= y { ((y - 1) * 10 + x - 1) as u32 } else { (y * 10 + x) as u32 };
            assert_eq!(buf.pixel_at(x, y), Some(want));
        }
    }
    assert_eq!(transfer_rect(&mut buf, 3, 3, 1, 1, 3, 3), Err(GraphicsError::OutOfRange));
    assert_eq!(transfer_rect(&mut buf, 0, 0, -1, 0, 1, 1), Err(GraphicsError::OutOfRange));
}

#[test]
fn draw_line_vertical_horizontal_and_sloped() {
    let mut buf = BitmapBuffer::new(8, 8, 8);
    draw_line(&mut buf, 1, 2, 6, 2, 1).unwrap();
    for y in 0..8 {
        for x in 0..8 {
            let on = x == 2 && 1 <= y && y <= 6;
            assert_eq!(buf.pixel_at(x, y), Some(if on { 1 } else { 0 }));
        }
    }
    let mut buf = BitmapBuffer::new(8, 8, 8);
    draw_line(&mut buf, 2, 6, 3, 1, 3).unwrap();
    for y in 0..8 {
        for x in 0..8 {
            let on = y == 3 && 1 <= x && x <= 6;
            assert_eq!(buf.pixel_at(x, y), Some(if on { 2 } else { 0 }));
        }
    }
    let mut buf = BitmapBuffer::new(8, 8, 8);
    draw_line(&mut buf, 3, 0, 0, 7, 7).unwrap();
    for i in 0..8 {
        assert_eq!(buf.pixel_at(i, i), Some(3));
    }
    assert_eq!(buf.pixel_at(7, 0), Some(0));
    assert_eq!(buf.pixel_at(0, 7), Some(0));
    let mut a = BitmapBuffer::new(8, 8, 8);
    let mut b = BitmapBuffer::new(8, 8, 8);
    draw_line(&mut a, 4, 1, 6, 5, 0).unwrap();
    draw_line(&mut b, 4, 5, 0, 1, 6).unwrap();
    let mut count = 0;
    for y in 0..8 {
        for x in 0..8 {
            assert_eq!(a.pixel_at(x, y), b.pixel_at(x, y));
            if a.pixel_at(x, y) == Some(4) {
                assert!(1 <= x && x <= 5 && y <= 6);
                count += 1;
            }
        }
    }
    assert!(count >= 7);
    assert_eq!(a.pixel_at(1, 6), Some(4));
    assert_eq!(a.pixel_at(5, 0), Some(4));
    assert_eq!(draw_line(&mut a, 4, 0, 0, 8, 0), Err(GraphicsError::OutOfRange));
    assert_eq!(draw_line(&mut a, 4, 0, -1, 3, 0), Err(GraphicsError::OutOfRange));
}

#[test]
fn draw_char_uses_glyph_bits() {
    let mut font = [[0u8; 16]; 256];
    font['A' as usize][0] = 0b0000_0001;
    font['A' as usize][15] = 0b1000_0000;
    let mut buf = BitmapBuffer::new(10, 18, 10);
    draw_char(&mut buf, 0xffffff, 0x111111, 1, 1, 'A', &font).unwrap();
    for y in 0..18 {
        for x in 0..10 {
            let inside = 1 <= x && x < 9 && 1 <= y && y < 17;
            let fg = (x == 1 && y == 1) || (x == 8 && y == 16);
            let want = if !inside { 0 } else if fg { 0xffffff } else { 0x111111 };
            assert_eq!(buf.pixel_at(x, y), Some(want));
        }
    }
    draw_char(&mut buf, 5, 6, 0, 0, '\u{3042}', &font).unwrap();
    for y in 0..16 {
        for x in 0..8 {
            assert_eq!(buf.pixel_at(x, y), Some(5));
        }
    }
    assert_eq!(draw_char(&mut buf, 5, 6, 3, 0, 'A', &font), Err(GraphicsError::OutOfRange));
    assert_eq!(draw_char(&mut buf, 5, 6, 0, 3, 'A', &font), Err(GraphicsError::OutOfRange));
}
