use vstd::prelude::*;

verus! {

/// The three buttons of the pause overlay, left to right.
#[derive(Clone, Copy, Debug, PartialEq, Eq, Structural)]
pub enum PauseChoice {
    Back,
    Retry,
    Resume,
}

/// Which pause buttons are greyed out, left to right: retry in a mode that
/// forbids retrying, resume once the player is dead.
pub fn disabled_buttons(no_retry: bool, dead: bool) -> (res: [bool; 3])
    ensures
        res@ == seq![false, no_retry, dead],
{
    let res = [false, no_retry, dead];
    proof {
        assert(res@ =~= seq![false, no_retry, dead]);
    }
    res
}

/// The choice a tap on the pause overlay makes: `clicked` is the button's
/// offset from the middle one (-1, 0, 1); a greyed-out button makes none.
pub fn pause_choice(clicked: Option<i32>, no_retry: bool, dead: bool) -> (res: Option<PauseChoice>)
    ensures
        res == match clicked {
            Some(-1) => Some(PauseChoice::Back),
            Some(0) => if no_retry { None } else { Some(PauseChoice::Retry) },
            Some(1) => if dead { None } else { Some(PauseChoice::Resume) },
            _ => None::<PauseChoice>,
        },
{
    match clicked {
        Some(-1) => Some(PauseChoice::Back),
        Some(0) => if no_retry { None } else { Some(PauseChoice::Retry) },
        Some(1) => if dead { None } else { Some(PauseChoice::Resume) },
        _ => None,
    }
}

/// The size of the blurred backdrop: an eighth of the viewport, at least one
/// pixel each way.
pub fn blur_size(width: u32, height: u32) -> (res: (u32, u32))
    ensures
        res.0 == (if width / 8 >= 1 { width / 8 } else { 1 }),
        res.1 == (if height / 8 >= 1 { height / 8 } else { 1 }),
{
    let w = if width / 8 >= 1 { width / 8 } else { 1 };
    let h = if height / 8 >= 1 { height / 8 } else { 1 };
    (w, h)
}

/// `pixels` (rows of `row_len` bytes) with the order of its rows reversed,
/// as read back bottom-up from the frame buffer.
pub open spec fn rows_flipped(pixels: Seq<u8>, row_len: int, rows: int) -> Seq<u8> {
    Seq::new(pixels.len(), |i: int| pixels[(rows - 1 - i / row_len) * row_len + i % row_len])
}

/// Reverses the order of the `rows` rows of `row_len` bytes each.
pub fn flip_rows(pixels: &Vec<u8>, row_len: usize, rows: usize) -> (res: Vec<u8>)
    requires
        row_len > 0,
        pixels.len() == row_len * rows,
    ensures
        res@ == rows_flipped(pixels@, row_len as int, rows as int),
{
    let mut out: Vec<u8> = Vec::new();
    let mut y: usize = 0;
    while y < rows
        invariant
            row_len > 0,
            pixels.len() == row_len * rows,
            y <= rows,
            out.len() == y * row_len,
            forall|i: int| 0 <= i < out.len() ==> #[trigger] out@[i] == pixels@[(rows - 1 - i / row_len as int) * row_len + i % row_len as int],
        decreases rows - y,
    {
        let src_row = rows - 1 - y;
        proof {
            assert(src_row * row_len + row_len <= row_len * rows) by (nonlinear_arith)
                requires
                    src_row < rows,
            ;
        }
        let start = src_row * row_len;
        let mut x: usize = 0;
        while x < row_len
            invariant
                row_len > 0,
                pixels.len() == row_len * rows,
                y < rows,
                src_row == rows - 1 - y,
                start == src_row * row_len,
                start + row_len <= pixels.len(),
                x <= row_len,
                out.len() == y * row_len + x,
                forall|i: int| 0 <= i < out.len() ==> #[trigger] out@[i] == pixels@[(rows - 1 - i / row_len as int) * row_len + i % row_len as int],
            decreases row_len - x,
        {
            proof {
                let i = (y * row_len + x) as int;
                assert(i / row_len as int == y as int && i % row_len as int == x as int) by (nonlinear_arith)
                    requires
                        i == y * row_len + x,
                        x < row_len,
                        row_len > 0,
                ;
            }
            out.push(pixels[start + x]);
            x = x + 1;
        }
        proof {
            assert(out.len() == (y + 1) * row_len) by (nonlinear_arith)
                requires
                    out.len() == y * row_len + row_len,
            ;
        }
        y = y + 1;
    }
    proof {
        assert(out.len() == pixels.len()) by (nonlinear_arith)
            requires
                out.len() == rows * row_len,
                pixels.len() == row_len * rows,
        ;
        assert(out@ =~= rows_flipped(pixels@, row_len as int, rows as int));
    }
    out
}

/// Opaque RGBA bytes for RGB pixels: each pixel's three channels, then 255.
pub open spec fn rgba_opaque(rgb: Seq<[u8; 3]>) -> Seq<u8> {
    Seq::new(rgb.len() * 4, |i: int| if i % 4 == 3 { 255u8 } else { rgb[i / 4]@[i % 4] })
}

/// Expands RGB pixels to opaque RGBA bytes.
pub fn rgb_to_rgba(rgb: &Vec<[u8; 3]>) -> (res: Vec<u8>)
    requires
        rgb.len() * 4 <= usize::MAX,
    ensures
        res@ == rgba_opaque(rgb@),
{
    let mut out: Vec<u8> = Vec::new();
    let mut k: usize = 0;
    while k < rgb.len()
        invariant
            rgb.len() * 4 <= usize::MAX,
            k <= rgb.len(),
            out.len() == 4 * k,
            forall|i: int| 0 <= i < out.len() ==> #[trigger] out@[i] == (if i % 4 == 3 { 255u8 } else { rgb@[i / 4]@[i % 4] }),
        decreases rgb.len() - k,
    {
        let p = rgb[k];
        out.push(p[0]);
        out.push(p[1]);
        out.push(p[2]);
        out.push(255);
        proof {
            assert forall|i: int| 4 * k <= i < 4 * k + 4 implies #[trigger] out@[i] == (if i % 4 == 3 { 255u8 } else { rgb@[i / 4]@[i % 4] }) by {
                assert(i / 4 == k as int);
            }
        }
        k = k + 1;
    }
    proof {
        assert(out@ =~= rgba_opaque(rgb@));
    }
    out
}

} // verus!
