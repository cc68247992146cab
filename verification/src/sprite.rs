//! Integer layout arithmetic of a sprite sheet: a texture is a grid of
//! equally sized frames, laid out row-major with a fixed column count. The
//! renderer itself is the presentation layer's business; it asks for frame
//! dimensions and source rectangles computed here.

use vstd::prelude::*;

verus! {

/// The size of one frame of a sheet whose texture measures
/// `texture_width` by `texture_height` and is cut into `columns` by `rows`
/// equal cells.
pub fn frame_size(texture_width: u32, texture_height: u32, columns: u8, rows: u8) -> (r: (
    u32,
    u32,
))
    requires
        columns > 0,
        rows > 0,
    ensures
        r.0 == texture_width as int / columns as int,
        r.1 == texture_height as int / rows as int,
{
    (texture_width / (columns as u32), texture_height / (rows as u32))
}

/// The top-left corner of frame number `frame` on the sheet: frames are laid
/// out row-major, `columns` to a row, each `frame_width` by `frame_height`
/// texels.
pub fn frame_source_origin(frame: u32, columns: u8, frame_width: u32, frame_height: u32) -> (r: (
    u64,
    u64,
))
    requires
        columns > 0,
    ensures
        r.0 == (frame as int % columns as int) * frame_width as int,
        r.1 == (frame as int / columns as int) * frame_height as int,
{
    let col: u64 = (frame % (columns as u32)) as u64;
    let row: u64 = (frame / (columns as u32)) as u64;
    proof {
        assert(col * frame_width as u64 <= 255 * 0xffff_ffffu64 && row * frame_height as u64
            <= 0xffff_ffffu64 * 0xffff_ffffu64) by (nonlinear_arith)
            requires
                col <= 255,
                row <= 0xffff_ffffu64,
                frame_width <= 0xffff_ffffu64,
                frame_height <= 0xffff_ffffu64,
        ;
    }
    (col * (frame_width as u64), row * (frame_height as u64))
}

} // verus!
