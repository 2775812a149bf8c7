//! A smoke test of the textual hex-grid renderer.

use hexcombat::hex_grid::PosOddQHex;
use hexcombat::render_hex_grid::{render_hex_grid, HexContent};

struct Labels;

impl HexContent for Labels {
    fn hex_content(&self, pos: &PosOddQHex, content_row: isize) -> Vec<char> {
        if content_row == 0 && pos.r == 0 && pos.q == 0 {
            vec!['o', 'r', 'i', 'g', 'i', 'n']
        } else {
            Vec::new()
        }
    }
}

#[test]
fn test_render_hex_grid_smoke() {
    let rendered = render_hex_grid(&Labels, 0..2, 0..2, 9, 3);
    // The grid consists of a top border plus 2 * half_h lines per row.
    assert_eq!(rendered.lines().count(), 1 + 2 * (2 * 3));
    // The hex walls and the provided content all appear in the output.
    assert!(rendered.contains('╱'));
    assert!(rendered.contains('╲'));
    assert!(rendered.contains('_'));
    assert!(rendered.contains("origin"));
}
