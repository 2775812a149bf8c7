//! A textual hex-grid view: rows of flat-top hexagon outlines whose interior
//! lines are filled by a content provider. Presentation only — the rendered
//! text carries no engine semantics; what is verified here is that rendering
//! never faults, with each content line padded and clipped to its cell
//! width.

use crate::hex_grid::PosOddQHex;
use vstd::prelude::*;

verus! {

/// A provider of textual content for each hex cell: the characters shown in
/// content row `content_row` of the hex at `pos`.
pub trait HexContent {
    /// The content of one cell line, as a sequence of characters.
    fn hex_content(&self, pos: &PosOddQHex, content_row: isize) -> Vec<char>;
}

/// Relies on `String::from_iter` over `char`: the resulting string holds
/// exactly the given characters, in order.
#[verifier::external_body]
fn chars_to_string(chars: Vec<char>) -> (r: String)
    ensures
        r@ == chars@,
{
    chars.into_iter().collect()
}

/// Appends one cell line of at most `length` characters: the provider's
/// content for the cell, centered, padded with spaces, and clipped at
/// `length`.
fn push_content_row<C: HexContent>(
    output: &mut Vec<char>,
    length: usize,
    hex_content: &C,
    q: isize,
    r: isize,
    content_row: isize,
) -> (unit: ())
    ensures
        final(output)@.len() <= old(output)@.len() + length,
{
    let content = hex_content.hex_content(&PosOddQHex { q, r }, content_row);
    let char_count = content.len();
    let shown = if char_count < length {
        char_count
    } else {
        length
    };
    let pad = length - shown;
    let left_pad = pad / 2;
    let right_pad = pad - left_pad;
    grow_line(output, ' ', left_pad);
    for i in 0..shown
        invariant
            shown <= content@.len(),
            output@.len() <= old(output)@.len() + left_pad + i,
    {
        if output.len() < usize::MAX {
            output.push(content[i]);
        }
    }
    grow_line(output, ' ', right_pad);
}

/// Renders the hexes of `rows` x `cols` as text, `flat_w` characters wide
/// on the flat top and `half_h` lines per half hex. The output is
/// presentation only; its exact shape is deliberately left unspecified.
pub fn render_hex_grid<C: HexContent>(
    hex_content: &C,
    rows: core::ops::Range<isize>,
    cols: core::ops::Range<isize>,
    flat_w: usize,
    half_h: usize,
) -> (r: String)
    requires
        1 <= half_h,
        2 * half_h <= isize::MAX,
        flat_w + 2 * half_h <= isize::MAX,
        isize::MIN < rows.start,
        cols.end < isize::MAX,
{
    let mut rendered: Vec<char> = Vec::new();

    // The top border: one "_" run per even column.
    let mut col = cols.start;
    while col < cols.end
        invariant
            1 <= half_h,
            flat_w + 2 * half_h <= isize::MAX,
            cols.end < isize::MAX,
        decreases cols.end - col + 1,
    {
        grow_line(&mut rendered, ' ', half_h);
        grow_line(&mut rendered, '_', flat_w);
        grow_line(&mut rendered, ' ', half_h + flat_w);
        col = col + 2;
    }
    rendered.push('\n');

    let mut row = rows.start;
    while row < rows.end
        invariant
            1 <= half_h,
            2 * half_h <= isize::MAX,
            flat_w + 2 * half_h <= isize::MAX,
            isize::MIN < rows.start <= row,
            cols.end < isize::MAX,
        decreases rows.end - row,
    {
        let sub_rows = 2 * half_h;
        let mut sub_row: usize = 0;
        while sub_row < sub_rows
            invariant
                1 <= half_h,
                sub_rows == 2 * half_h,
                2 * half_h <= isize::MAX,
                flat_w + 2 * half_h <= isize::MAX,
                isize::MIN < row,
                cols.end < isize::MAX,
                sub_row <= sub_rows,
            decreases sub_rows - sub_row,
        {
            let is_upper_half = sub_row < half_h;
            let (l_slash, r_slash) = if is_upper_half {
                ('\u{2571}', '\u{2572}')
            } else {
                ('\u{2572}', '\u{2571}')
            };
            let edge_distance = if 2 * half_h - 1 >= 2 * sub_row {
                2 * half_h - 1 - 2 * sub_row
            } else {
                2 * sub_row - (2 * half_h - 1)
            };
            let left_pad = (edge_distance - 1) / 2;
            grow_line(&mut rendered, ' ', left_pad);
            rendered.push(l_slash);
            let mut col = cols.start;
            while col < cols.end
                invariant
                    1 <= half_h,
                    sub_rows == 2 * half_h,
                    2 * half_h <= isize::MAX,
                    flat_w + 2 * half_h <= isize::MAX,
                    isize::MIN < row,
                    cols.end < isize::MAX,
                    sub_row < sub_rows,
                    2 * left_pad + 2 <= 2 * half_h,
                decreases cols.end - col + 1,
            {
                let widest_content_w = flat_w + 2 * (half_h - 1);
                let this_content_w = widest_content_w - 2 * left_pad;
                let other_content_w = flat_w + 2 * left_pad;
                let other_row = if is_upper_half {
                    row - 1
                } else {
                    row
                };
                let other_sub_row = (sub_row + half_h) % (2 * half_h);
                let content_index = half_h as isize - sub_row as isize - 1;
                let other_content_index = half_h as isize - other_sub_row as isize - 1;

                if sub_row == sub_rows - 1 {
                    grow_line(&mut rendered, '_', flat_w);
                } else {
                    push_content_row(
                        &mut rendered,
                        this_content_w,
                        hex_content,
                        col,
                        row,
                        content_index,
                    );
                }
                rendered.push(r_slash);
                if other_sub_row == sub_rows - 1 {
                    grow_line(&mut rendered, '_', flat_w);
                } else {
                    push_content_row(
                        &mut rendered,
                        other_content_w,
                        hex_content,
                        col + 1,
                        other_row,
                        other_content_index,
                    );
                }
                rendered.push(l_slash);
                col = col + 2;
            }
            rendered.push('\n');
            sub_row = sub_row + 1;
        }
        row = row + 1;
    }
    chars_to_string(rendered)
}

/// Appends `count` copies of `c`, dropping what no longer fits.
fn grow_line(output: &mut Vec<char>, c: char, count: usize)
    ensures
        final(output)@.len() <= old(output)@.len() + count,
{
    for i in 0..count
        invariant
            output@.len() <= old(output)@.len() + i,
    {
        if output.len() < usize::MAX {
            output.push(c);
        }
    }
}

} // verus!
