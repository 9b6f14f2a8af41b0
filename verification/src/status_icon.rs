//! The menu bar icon: the picture, and the coloured line along its lower edge that shows
//! whether the highlighter service is running.
use vstd::prelude::*;

verus! {

/// A picture in RGBA, row by row from the top, four bytes for each pixel.
#[derive(Debug, PartialEq, Eq)]
pub struct IconImage {
    pub rgba: Vec<u8>,
    pub width: u32,
    pub height: u32,
}

/// The largest number of pixels whose byte offsets all fit in 32 bits.
pub const MAX_PIXELS: u64 = 0x4000_0000;

/// Whether the bytes of every pixel of a picture are there, at offsets that fit in 32 bits.
pub open spec fn drawable(len: nat, width: u32, height: u32) -> bool {
    &&& width * height <= MAX_PIXELS
    &&& 4 * (width * height) <= len
}

impl IconImage {
    /// Whether every pixel of the picture can be drawn on.
    pub open spec fn wf(self) -> bool {
        drawable(self.rgba@.len(), self.width, self.height)
    }
}

/// The number of rows that the status line asks for: a fourteenth of the shorter side, and
/// no less than three.
pub open spec fn line_rows(width: u32, height: u32) -> int {
    let side = if height <= width { height as int } else { width as int };
    if side / 14 >= 3 {
        side / 14
    } else {
        3
    }
}

/// The first row of the status line; a line as tall as the picture begins at the top.
pub open spec fn line_start(width: u32, height: u32) -> int {
    if line_rows(width, height) <= height {
        height - line_rows(width, height)
    } else {
        0
    }
}

/// `rgba` with the bytes from `from` up to `to` painted in `color`, pixel by pixel.
pub open spec fn painted(rgba: Seq<u8>, from: int, to: int, color: Seq<u8>) -> Seq<u8> {
    Seq::new(rgba.len(), |i: int| if from <= i < to { color[i % 4] } else { rgba[i] })
}

/// `rgba` with the status line in `color`: the rows from the start of the line to the bottom,
/// over the whole width.
pub open spec fn with_status_line(
    rgba: Seq<u8>,
    width: u32,
    height: u32,
    color: Seq<u8>,
) -> Seq<u8> {
    painted(rgba, 4 * (line_start(width, height) * width), 4 * (height * width), color)
}

/// The colour of the status line.
pub open spec fn status_color(is_running: bool) -> Seq<u8> {
    if is_running {
        seq![34u8, 197u8, 94u8, 255u8]
    } else {
        seq![239u8, 68u8, 68u8, 255u8]
    }
}

/// The colour that stands for the state of the service: green while it is running, red
/// while it is not.
pub fn service_status_color(is_running: bool) -> (color: [u8; 4])
    ensures
        color@ == status_color(is_running),
{
    let color: [u8; 4] = match is_running {
        true => [34, 197, 94, 255],
        false => [239, 68, 68, 255],
    };
    assert(color@ =~= status_color(is_running));
    color
}

/// Paints the status line of a picture, and leaves every other byte as it is.
pub fn draw_status_line(rgba: &mut [u8], width: u32, height: u32, color: [u8; 4])
    requires
        drawable(old(rgba)@.len(), width, height),
    ensures
        final(rgba)@ == with_status_line(old(rgba)@, width, height, color@),
{
    let side: u32 = if height <= width { height } else { width };
    let line_height: u32 = if side / 14 >= 3 { side / 14 } else { 3 };
    let start_y: u32 = if line_height <= height { height - line_height } else { 0 };
    let ghost before = rgba@;
    let ghost from = 4 * (start_y * width);
    assert(painted(before, from, from, color@) =~= before);

    let mut y: u32 = start_y;
    while y < height
        invariant
            start_y <= y <= height,
            drawable(before.len(), width, height),
            from == 4 * (start_y * width),
            rgba@ == painted(before, from, 4 * (y * width), color@),
        decreases height - y,
    {
        let mut x: u32 = 0;
        while x < width
            invariant
                start_y <= y < height,
                x <= width,
                drawable(before.len(), width, height),
                from == 4 * (start_y * width),
                rgba@ == painted(before, from, 4 * (y * width + x), color@),
            decreases width - x,
        {
            proof {
                lemma_pixel_in_picture(x as int, y as int, width as int, height as int);
                lemma_rows_ordered(start_y as int, y as int, width as int);
            }
            let index: usize = ((y * width + x) * 4) as usize;
            let ghost drawn = rgba@;
            rgba[index] = color[0];
            rgba[index + 1] = color[1];
            rgba[index + 2] = color[2];
            rgba[index + 3] = color[3];
            assert(rgba@ =~= painted(before, from, 4 * (y * width + x + 1), color@)) by {
                assert(drawn == painted(before, from, index as int, color@));
                assert(index % 4 == 0);
            }
            x += 1;
        }
        proof {
            lemma_next_row(y as int, width as int);
        }
        y += 1;
    }
}

/// The icon for the state of the service: the picture with its status line painted.
pub fn menu_bar_icon(icon: IconImage, is_running: bool) -> (shown: IconImage)
    requires
        icon.wf(),
    ensures
        shown.width == icon.width,
        shown.height == icon.height,
        shown.rgba@ == with_status_line(
            icon.rgba@,
            icon.width,
            icon.height,
            status_color(is_running),
        ),
{
    let mut rgba = icon.rgba;
    draw_status_line(
        rgba.as_mut_slice(),
        icon.width,
        icon.height,
        service_status_color(is_running),
    );
    IconImage { rgba, width: icon.width, height: icon.height }
}

proof fn lemma_pixel_in_picture(x: int, y: int, width: int, height: int)
    by (nonlinear_arith)
    requires
        0 <= x < width,
        0 <= y < height,
    ensures
        0 <= y * width,
        y * width + x + 1 <= width * height,
{
}

proof fn lemma_rows_ordered(a: int, b: int, width: int)
    by (nonlinear_arith)
    requires
        0 <= a <= b,
        0 <= width,
    ensures
        0 <= a * width <= b * width,
{
}

proof fn lemma_next_row(y: int, width: int)
    by (nonlinear_arith)
    ensures
        (y + 1) * width == y * width + width,
{
}

/// Painting the line again in another colour gives the picture that painting it once in
/// that colour gives: the icon of a state does not depend on the states shown before.
pub proof fn law_status_line_repaints(
    rgba: Seq<u8>,
    width: u32,
    height: u32,
    first: Seq<u8>,
    second: Seq<u8>,
)
    ensures
        with_status_line(with_status_line(rgba, width, height, first), width, height, second)
            == with_status_line(rgba, width, height, second),
{
    assert(with_status_line(with_status_line(rgba, width, height, first), width, height, second)
        =~= with_status_line(rgba, width, height, second));
}

/// The line keeps the size of the picture, and every byte outside its rows.
pub proof fn law_status_line_frame(rgba: Seq<u8>, width: u32, height: u32, color: Seq<u8>)
    ensures
        with_status_line(rgba, width, height, color).len() == rgba.len(),
        forall|i: int|
            0 <= i < rgba.len() && !(4 * (line_start(width, height) * width) <= i < 4 * (height
                * width)) ==> with_status_line(rgba, width, height, color)[i] == rgba[i],
{
}

/// The icon of a running service and the icon of a stopped one differ in every pixel of the
/// line, wherever the picture has a row and a column.
pub proof fn law_icons_tell_states_apart(
    rgba: Seq<u8>,
    width: u32,
    height: u32,
    x: int,
    y: int,
)
    requires
        drawable(rgba.len(), width, height),
        0 <= x < width,
        line_start(width, height) <= y < height,
    ensures
        with_status_line(rgba, width, height, status_color(true))[4 * (y * width + x)] == 34,
        with_status_line(rgba, width, height, status_color(false))[4 * (y * width + x)] == 239,
{
    lemma_pixel_in_picture(x, y, width as int, height as int);
    lemma_rows_ordered(line_start(width, height), y, width as int);
    assert(height * width == width * height) by (nonlinear_arith);
    let i = 4 * (y * width + x);
    assert(0 <= i < rgba.len());
    assert(i % 4 == 0);
}

/// A pixel is painted exactly where its row is one of the three lowest, or so low that fourteen
/// times its distance from the bottom is no more than the shorter side; every other pixel stays
/// as it is, and so does whatever follows the pixels.
pub proof fn law_which_pixels_are_painted(
    rgba: Seq<u8>,
    width: u32,
    height: u32,
    color: Seq<u8>,
    x: int,
    y: int,
    channel: int,
)
    requires
        drawable(rgba.len(), width, height),
        0 <= x < width,
        0 <= y < height,
        0 <= channel < 4,
    ensures
        ({
            let byte = 4 * (y * width + x) + channel;
            let from_bottom = height - y;
            let painted_here = from_bottom <= 3 || (14 * from_bottom <= width && 14 * from_bottom
                <= height);
            with_status_line(rgba, width, height, color)[byte] == (if painted_here {
                color[channel]
            } else {
                rgba[byte]
            })
        }),
        with_status_line(rgba, width, height, color).len() == rgba.len(),
        forall|i: int|
            4 * (width * height) <= i < rgba.len() ==> #[trigger] with_status_line(
                rgba,
                width,
                height,
                color,
            )[i] == rgba[i],
{
    let start = line_start(width, height);
    let byte = 4 * (y * width + x) + channel;
    lemma_pixel_in_picture(x, y, width as int, height as int);
    assert(height * width == width * height) by (nonlinear_arith);
    assert(byte % 4 == channel);
    if y >= start {
        lemma_rows_ordered(start, y, width as int);
    } else {
        lemma_rows_ordered(y + 1, start, width as int);
        lemma_next_row(y, width as int);
    }
}

/// The line is green for a running service and red for one that is not, and opaque.
pub proof fn law_colors_of_the_states()
    ensures
        status_color(true) == seq![34u8, 197u8, 94u8, 255u8],
        status_color(false) == seq![239u8, 68u8, 68u8, 255u8],
{
}

/// A picture can be drawn on where it has no more than two to the thirty pixels, and four bytes
/// for each of them.
pub proof fn law_which_pictures_can_be_drawn_on(len: nat, width: u32, height: u32)
    ensures
        drawable(len, width, height) <==> width * height <= 0x4000_0000 && 4 * (width * height)
            <= len,
{
}

} // verus!
