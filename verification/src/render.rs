//! The renderer: walks the grid in row-major order and emits one glyph
//! (optionally color-escaped) plus a trailing space per pixel, a line break
//! after each row, into one output string.

use vstd::prelude::*;
use crate::cell::{cell_spec, make_cell, RenderCell, RenderOptions};
use crate::grid::ImageGrid;
use crate::pixel::Pixel;
use crate::string_util::{dec_spec, push_decimal, push_str_lit};

verus! {

/// Text of the truecolor escape prefix `ESC[38;2;<r>;<g>;<b>m`.
pub open spec fn esc_prefix_spec(r: u8, g: u8, b: u8) -> Seq<char> {
    seq!['\u{1b}', '[', '3', '8', ';', '2', ';'] + dec_spec(r as int) + seq![';'] + dec_spec(
        g as int,
    ) + seq![';'] + dec_spec(b as int) + seq!['m']
}

/// Text of the reset escape `ESC[0m`.
pub open spec fn esc_reset_spec() -> Seq<char> {
    seq!['\u{1b}', '[', '0', 'm']
}

/// Text emitted for one cell: two plain spaces for a blank cell; otherwise
/// the glyph and a trailing space, wrapped in a truecolor escape and a reset
/// when the stream takes color.
pub open spec fn cell_text_spec(c: RenderCell, capable: bool) -> Seq<char> {
    if c.blank {
        seq![' ', ' ']
    } else if capable {
        esc_prefix_spec(c.r, c.g, c.b) + seq![c.ch] + esc_reset_spec() + seq![' ']
    } else {
        seq![c.ch, ' ']
    }
}

/// Text emitted for one pixel under the given options.
pub open spec fn pixel_text_spec(p: Pixel, o: RenderOptions) -> Seq<char> {
    cell_text_spec(cell_spec(p, o.colour, o.no_bg), o.capable)
}

/// Text of the first `n` cells of row `y` of a `w`-wide grid.
pub open spec fn row_prefix_spec(w: int, px: Seq<Pixel>, y: int, n: int, o: RenderOptions) -> Seq<
    char,
>
    decreases n,
{
    if n <= 0 {
        Seq::<char>::empty()
    } else {
        row_prefix_spec(w, px, y, n - 1, o) + pixel_text_spec(px[y * w + (n - 1)], o)
    }
}

/// Text of row `y`: its `w` cells and the line break. A zero-width grid
/// produces no output at all, not even line breaks.
pub open spec fn row_text_spec(w: int, px: Seq<Pixel>, y: int, o: RenderOptions) -> Seq<char> {
    if w <= 0 {
        Seq::<char>::empty()
    } else {
        row_prefix_spec(w, px, y, w, o) + seq!['\n']
    }
}

/// Text of the rows `a` up to (excluding) `b`.
pub open spec fn rows_text_spec(w: int, px: Seq<Pixel>, a: int, b: int, o: RenderOptions) -> Seq<
    char,
>
    decreases b - a,
{
    if a >= b {
        Seq::<char>::empty()
    } else {
        row_text_spec(w, px, a, o) + rows_text_spec(w, px, a + 1, b, o)
    }
}

/// Text of the whole grid.
pub open spec fn render_spec(g: ImageGrid, o: RenderOptions) -> Seq<char> {
    rows_text_spec(g.width as int, g.pixels@, 0, g.height as int, o)
}

/// Appends the text of one cell.
fn push_cell_text(out: &mut String, c: RenderCell, capable: bool)
    ensures
        final(out)@ == old(out)@ + cell_text_spec(c, capable),
{
    if c.blank {
        push_str_lit_two_spaces(out);
    } else if capable {
        push_str_lit_esc_open(out);
        push_decimal(out, c.r);
        out.push(';');
        push_decimal(out, c.g);
        out.push(';');
        push_decimal(out, c.b);
        out.push('m');
        out.push(c.ch);
        push_str_lit_esc_reset(out);
        out.push(' ');
        proof {
            assert(final(out)@ =~= old(out)@ + cell_text_spec(c, capable));
        }
    } else {
        out.push(c.ch);
        out.push(' ');
        proof {
            assert(final(out)@ =~= old(out)@ + cell_text_spec(c, capable));
        }
    }
}

/// A zero-width grid renders as nothing, whatever its height: no glyphs and
/// no line terminators.
pub proof fn lemma_rows_text_zero_width(w: int, px: Seq<Pixel>, a: int, b: int, o: RenderOptions)
    requires
        w <= 0,
    ensures
        rows_text_spec(w, px, a, b, o) == Seq::<char>::empty(),
    decreases b - a,
{
    if a < b {
        lemma_rows_text_zero_width(w, px, a + 1, b, o);
        assert(rows_text_spec(w, px, a, b, o) =~= Seq::<char>::empty());
    }
}

/// Rendering a row range in two contiguous pieces gives exactly the text of
/// the whole range: the partition of the worker variant loses nothing and
/// reorders nothing.
pub proof fn lemma_rows_text_split(w: int, px: Seq<Pixel>, a: int, b: int, c: int, o: RenderOptions)
    requires
        a <= b <= c,
    ensures
        rows_text_spec(w, px, a, c, o) == rows_text_spec(w, px, a, b, o) + rows_text_spec(
            w,
            px,
            b,
            c,
            o,
        ),
    decreases b - a,
{
    if a == b {
        assert(rows_text_spec(w, px, a, c, o) =~= rows_text_spec(w, px, a, b, o) + rows_text_spec(
            w,
            px,
            b,
            c,
            o,
        ));
    } else {
        lemma_rows_text_split(w, px, a + 1, b, c, o);
        assert(rows_text_spec(w, px, a, c, o) =~= rows_text_spec(w, px, a, b, o) + rows_text_spec(
            w,
            px,
            b,
            c,
            o,
        ));
    }
}

/// A grid with no columns or no rows renders as the empty text, and doing so
/// is not an error anywhere in the pipeline.
pub proof fn lemma_empty_render(g: ImageGrid, o: RenderOptions)
    requires
        g.width == 0 || g.height == 0,
    ensures
        render_spec(g, o) == Seq::<char>::empty(),
{
    if g.width == 0 {
        lemma_rows_text_zero_width(g.width as int, g.pixels@, 0, g.height as int, o);
    }
}

/// Rendering is a function of the grid and the flags alone: two runs over
/// grids with the same dimensions and pixels, under the same flags, give
/// byte-identical output.
pub proof fn lemma_render_deterministic(g1: ImageGrid, g2: ImageGrid, o: RenderOptions)
    requires
        g1.width == g2.width,
        g1.height == g2.height,
        g1.pixels@ == g2.pixels@,
    ensures
        render_spec(g1, o) == render_spec(g2, o),
{
}

/// Whether a character sequence is free of the escape character.
pub open spec fn esc_free(s: Seq<char>) -> bool {
    forall|i: int| 0 <= i < s.len() ==> s[i] != '\u{1b}'
}

proof fn lemma_esc_free_concat(a: Seq<char>, b: Seq<char>)
    requires
        esc_free(a),
        esc_free(b),
    ensures
        esc_free(a + b),
{
    assert forall|i: int| 0 <= i < (a + b).len() implies (a + b)[i] != '\u{1b}' by {
        if i < a.len() {
            assert((a + b)[i] == a[i]);
        } else {
            assert((a + b)[i] == b[i - a.len()]);
        }
    }
}

proof fn lemma_pixel_text_esc_free(p: Pixel, o: RenderOptions)
    requires
        !o.capable,
    ensures
        esc_free(pixel_text_spec(p, o)),
{
    let c = cell_spec(p, o.colour, o.no_bg);
    crate::ramp::lemma_ramp_char_not_escape(
        crate::ramp::ramp_index_spec(p.luma_spec()),
    );
    let t = pixel_text_spec(p, o);
    assert forall|i: int| 0 <= i < t.len() implies t[i] != '\u{1b}' by {
        assert(t[0] != '\u{1b}');
        assert(t[1] != '\u{1b}');
    }
}

proof fn lemma_row_prefix_esc_free(w: int, px: Seq<Pixel>, y: int, n: int, o: RenderOptions)
    requires
        !o.capable,
    ensures
        esc_free(row_prefix_spec(w, px, y, n, o)),
    decreases n,
{
    if n <= 0 {
    } else {
        lemma_row_prefix_esc_free(w, px, y, n - 1, o);
        lemma_pixel_text_esc_free(px[y * w + (n - 1)], o);
        lemma_esc_free_concat(
            row_prefix_spec(w, px, y, n - 1, o),
            pixel_text_spec(px[y * w + (n - 1)], o),
        );
    }
}

proof fn lemma_rows_text_esc_free(w: int, px: Seq<Pixel>, a: int, b: int, o: RenderOptions)
    requires
        !o.capable,
    ensures
        esc_free(rows_text_spec(w, px, a, b, o)),
    decreases b - a,
{
    if a < b {
        lemma_rows_text_esc_free(w, px, a + 1, b, o);
        if w > 0 {
            lemma_row_prefix_esc_free(w, px, a, w, o);
            lemma_esc_free_concat(row_prefix_spec(w, px, a, w, o), seq!['\n']);
        }
        lemma_esc_free_concat(row_text_spec(w, px, a, o), rows_text_spec(w, px, a + 1, b, o));
    }
}

/// When the output stream does not take color, the rendered text holds no
/// escape character at all, whatever the other flags and the pixels are.
pub proof fn lemma_plain_render_no_escape(g: ImageGrid, o: RenderOptions)
    requires
        !o.capable,
    ensures
        esc_free(render_spec(g, o)),
{
    lemma_rows_text_esc_free(g.width as int, g.pixels@, 0, g.height as int, o);
}

/// A fully transparent pixel under `no_bg` renders as exactly two space
/// characters, with no glyph and no escape sequence, whatever the color
/// flags say.
pub proof fn lemma_blank_pixel_two_spaces(p: Pixel, o: RenderOptions)
    requires
        o.no_bg,
        p.a == 0,
    ensures
        pixel_text_spec(p, o) == seq![' ', ' '],
{
}

/// Without color escapes every cell's text is exactly two characters wide,
/// blank or not: blanking preserves the column count of a row.
pub proof fn lemma_plain_pixel_text_len(p: Pixel, o: RenderOptions)
    requires
        !o.capable,
    ensures
        pixel_text_spec(p, o).len() == 2,
{
}

/// Without color escapes a row of `w` cells renders as exactly `2 * w + 1`
/// characters: two columns per cell and the line terminator.
pub proof fn lemma_plain_row_len(w: int, px: Seq<Pixel>, y: int, o: RenderOptions)
    requires
        !o.capable,
        w >= 1,
    ensures
        row_text_spec(w, px, y, o).len() == 2 * w + 1,
{
    lemma_plain_row_prefix_len(w, px, y, w, o);
}

proof fn lemma_plain_row_prefix_len(w: int, px: Seq<Pixel>, y: int, n: int, o: RenderOptions)
    requires
        !o.capable,
        n >= 0,
    ensures
        row_prefix_spec(w, px, y, n, o).len() == 2 * n,
    decreases n,
{
    if n > 0 {
        lemma_plain_row_prefix_len(w, px, y, n - 1, o);
        lemma_plain_pixel_text_len(px[y * w + (n - 1)], o);
    }
}

/// Renders the rows `start` up to (excluding) `end`.
pub fn render_rows(g: &ImageGrid, start: u32, end: u32, o: RenderOptions) -> (out: String)
    requires
        g.wf(),
        start <= end,
        end <= g.height,
    ensures
        out@ == rows_text_spec(g.width as int, g.pixels@, start as int, end as int, o),
{
    let mut out = String::new();
    if g.grid_width() == 0 {
        proof {
            lemma_rows_text_zero_width(g.width as int, g.pixels@, start as int, end as int, o);
        }
        return out;
    }
    let mut y: u32 = start;
    while y < end
        invariant
            g.wf(),
            start <= y <= end,
            end <= g.height,
            g.width >= 1,
            out@ == rows_text_spec(g.width as int, g.pixels@, start as int, y as int, o),
        decreases end as int - y as int,
    {
        let mut x: u32 = 0;
        while x < g.grid_width()
            invariant
                g.wf(),
                start <= y < end,
                end <= g.height,
                g.width >= 1,
                x <= g.width,
                out@ == rows_text_spec(g.width as int, g.pixels@, start as int, y as int, o)
                    + row_prefix_spec(g.width as int, g.pixels@, y as int, x as int, o),
            decreases g.width as int - x as int,
        {
            let p = g.pixel(x, y);
            let c = make_cell(&p, o.colour, o.no_bg);
            push_cell_text(&mut out, c, o.capable);
            proof {
                assert(out@ =~= rows_text_spec(g.width as int, g.pixels@, start as int, y as int, o)
                    + row_prefix_spec(g.width as int, g.pixels@, y as int, x as int + 1, o));
            }
            x = x + 1;
        }
        out.push('\n');
        proof {
            lemma_rows_text_split(
                g.width as int,
                g.pixels@,
                start as int,
                y as int,
                y as int + 1,
                o,
            );
            assert(rows_text_spec(g.width as int, g.pixels@, y as int + 1, y as int + 1, o)
                =~= Seq::<char>::empty());
            assert(rows_text_spec(g.width as int, g.pixels@, y as int, y as int + 1, o)
                =~= row_text_spec(g.width as int, g.pixels@, y as int, o));
            assert(out@ =~= rows_text_spec(
                g.width as int,
                g.pixels@,
                start as int,
                y as int + 1,
                o,
            ));
        }
        y = y + 1;
    }
    out
}

/// Renders the whole grid in row-major order.
pub fn render_grid(g: &ImageGrid, o: RenderOptions) -> (out: String)
    requires
        g.wf(),
    ensures
        out@ == render_spec(*g, o),
{
    let h = g.grid_height();
    render_rows(g, 0, h, o)
}

/// Renders the grid as the worker variant does: the rows are cut into one
/// contiguous range per worker, each range is rendered on its own, and the
/// pieces are joined in range order. The result is proved equal to the
/// sequential rendering for every worker count.
pub fn render_partitioned(g: &ImageGrid, threads: u8, o: RenderOptions) -> (out: String)
    requires
        g.wf(),
        threads >= 1,
    ensures
        out@ == render_spec(*g, o),
{
    let h = g.grid_height();
    let parts = crate::geometry::row_partition(h, threads);
    let mut out = String::new();
    let mut i: usize = 0;
    let n = parts.len();
    while i < n
        invariant
            g.wf(),
            threads >= 1,
            n == parts@.len() == threads as int,
            i <= n,
            parts@[0].0 == 0,
            parts@[n as int - 1].1 == g.height,
            forall|j: int|
                0 <= j < n as int ==> (#[trigger] parts@[j]).0 <= parts@[j].1 <= g.height,
            forall|j: int| 0 <= j < n as int - 1 ==> (#[trigger] parts@[j]).1 == parts@[j + 1].0,
            out@ == rows_text_spec(
                g.width as int,
                g.pixels@,
                0,
                if i == 0 {
                    0
                } else {
                    parts@[i as int - 1].1 as int
                },
                o,
            ),
        decreases n as int - i as int,
    {
        let (s, e) = parts[i];
        let piece = render_rows(g, s, e, o);
        proof {
            lemma_rows_text_split(g.width as int, g.pixels@, 0, s as int, e as int, o);
        }
        crate::string_util::push_str_lit(&mut out, piece.as_str());
        i = i + 1;
    }
    proof {
        assert(out@ =~= render_spec(*g, o));
    }
    out
}

fn push_str_lit_two_spaces(out: &mut String)
    ensures
        final(out)@ == old(out)@ + seq![' ', ' '],
{
    proof {
        reveal_strlit("  ");
        assert("  "@ =~= seq![' ', ' ']);
    }
    push_str_lit(out, "  ");
}

fn push_str_lit_esc_open(out: &mut String)
    ensures
        final(out)@ == old(out)@ + seq!['\u{1b}', '[', '3', '8', ';', '2', ';'],
{
    proof {
        reveal_strlit("\u{1b}[38;2;");
        assert("\u{1b}[38;2;"@ =~= seq!['\u{1b}', '[', '3', '8', ';', '2', ';']);
    }
    push_str_lit(out, "\u{1b}[38;2;");
}

fn push_str_lit_esc_reset(out: &mut String)
    ensures
        final(out)@ == old(out)@ + esc_reset_spec(),
{
    proof {
        reveal_strlit("\u{1b}[0m");
        assert("\u{1b}[0m"@ =~= seq!['\u{1b}', '[', '0', 'm']);
    }
    push_str_lit(out, "\u{1b}[0m");
}

} // verus!
