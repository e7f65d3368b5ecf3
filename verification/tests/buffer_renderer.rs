use ratatui::buffer::Buffer;
use ratatui::layout::{Offset, Position};
use tachyonfx::{blit_region, blit_target, Size};

/// Copies `src` onto `buf` at `offset`, cell by cell within the region the library works out.
fn render_buffer(src: &Buffer, offset: Offset, buf: &mut Buffer) {
    let shift = tachyonfx::Offset { x: offset.x, y: offset.y };
    let source = Size { width: src.area.width, height: src.area.height };
    let target = Size { width: buf.area.width, height: buf.area.height };
    let Some(region) = blit_region(source, target, shift) else {
        return;
    };
    for y in region.from_y..region.to_y {
        for x in region.from_x..region.to_x {
            let to = blit_target(tachyonfx::Position { x, y }, shift);
            let cell = src.cell(Position::new(x, y)).unwrap().clone();
            *buf.cell_mut(Position::new(to.x, to.y)).unwrap() = cell;
        }
    }
}

fn assert_buffer_to_buffer_copy(offset: Offset, expected: Buffer) {
    let aux_buffer = Buffer::with_lines(["abcd", "efgh", "ijkl", "mnop"]);

    let mut buf = Buffer::with_lines([
        ". . . . ",
        ". . . . ",
        ". . . . ",
        ". . . . ",
        ". . . . ",
        ". . . . ",
        ". . . . ",
        ". . . . ",
    ]);

    render_buffer(&aux_buffer, offset, &mut buf);

    assert_eq!(buf, expected)
}

#[test]
fn test_render_offsets_in_bounds() {
    assert_buffer_to_buffer_copy(
        Offset { x: 0, y: 0 },
        Buffer::with_lines([
            "abcd. . ",
            "efgh. . ",
            "ijkl. . ",
            "mnop. . ",
            ". . . . ",
            ". . . . ",
            ". . . . ",
            ". . . . ",
        ]),
    );

    assert_buffer_to_buffer_copy(
        Offset { x: 4, y: 3 },
        Buffer::with_lines([
            ". . . . ",
            ". . . . ",
            ". . . . ",
            ". . abcd",
            ". . efgh",
            ". . ijkl",
            ". . mnop",
            ". . . . ",
        ]),
    );
}

#[test]
fn test_render_offsets_out_of_bounds() {
    assert_buffer_to_buffer_copy(
        Offset { x: -1, y: -2 },
        Buffer::with_lines([
            "jkl . . ",
            "nop . . ",
            ". . . . ",
            ". . . . ",
            ". . . . ",
            ". . . . ",
            ". . . . ",
            ". . . . ",
        ]),
    );
    assert_buffer_to_buffer_copy(
        Offset { x: 6, y: 6 },
        Buffer::with_lines([
            ". . . . ",
            ". . . . ",
            ". . . . ",
            ". . . . ",
            ". . . . ",
            ". . . . ",
            ". . . ab",
            ". . . ef",
        ]),
    );
}

#[test]
fn test_render_from_larger_aux_buffer() {
    let aux_buffer = Buffer::with_lines([
        "AAAAAAAAAA",
        "BBBBBBBBBB",
        "CCCCCCCCCC",
        "DDDDDDDDDD",
        "EEEEEEEEEE",
        "FFFFFFFFFF",
    ]);

    let buffer = || Buffer::with_lines([". . . . ", ". . . . ", ". . . . "]);

    // Test with no vertical offset
    let mut buf = buffer();
    render_buffer(&aux_buffer, Offset::default(), &mut buf);
    assert_eq!(buf, Buffer::with_lines(["AAAAAAAA", "BBBBBBBB", "CCCCCCCC"]));

    // Test with positive vertical offset
    let mut buf = buffer();
    render_buffer(&aux_buffer, Offset { x: 0, y: 2 }, &mut buf);
    assert_eq!(buf, Buffer::with_lines([". . . . ", ". . . . ", "AAAAAAAA"]));

    // Test with negative vertical offset
    let mut buf = buffer();
    render_buffer(&aux_buffer, Offset { x: 0, y: -2 }, &mut buf);
    assert_eq!(buf, Buffer::with_lines(["CCCCCCCC", "DDDDDDDD", "EEEEEEEE"]));

    // Test with both horizontal and vertical offset
    let mut buf = buffer();
    render_buffer(&aux_buffer, Offset { x: 2, y: 1 }, &mut buf);
    assert_eq!(buf, Buffer::with_lines([". . . . ", ". AAAAAA", ". BBBBBB"]));

    // Test with out-of-bounds vertical offset
    let mut buf = buffer();
    render_buffer(&aux_buffer, Offset { x: 0, y: 6 }, &mut buf);
    assert_eq!(buf, Buffer::with_lines([". . . . ", ". . . . ", ". . . . "]));

    // Test with large negative vertical and horizontal offset
    let mut buf = buffer();
    render_buffer(&aux_buffer, Offset { x: -5, y: -5 }, &mut buf);
    assert_eq!(buf, Buffer::with_lines(["FFFFF . ", ". . . . ", ". . . . "]));
}
