//! A widget's own copy of its tile, and the content area inside its border.
use vstd::prelude::*;
use vstd::string::*;
use crate::app_config::DeviceTile;
use crate::ui::Band;

verus! {

/// Cells reserved on each side of a tile as a border.
pub const PADDING: u16 = 1;

/// The rectangle a widget occupies, in terminal cells.
#[derive(Clone, Copy, Debug, PartialEq, Eq, Structural)]
pub struct Frame {
    pub row: u16,
    pub col: u16,
    pub width: u16,
    pub height: u16,
}

/// The frame of a tile.
pub open spec fn frame_of(t: DeviceTile) -> Frame {
    Frame { row: t.row, col: t.col, width: t.width, height: t.height }
}

impl Frame {
    /// Whether anything is left inside the border.
    pub open spec fn has_content(self) -> bool {
        self.width > 2 * PADDING && self.height > 2 * PADDING
    }

    /// Columns inside the border (none when nothing is left).
    pub open spec fn content_width(self) -> nat {
        if self.has_content() {
            (self.width - 2 * PADDING) as nat
        } else {
            0
        }
    }

    /// Rows inside the border (none when nothing is left).
    pub open spec fn content_height(self) -> nat {
        if self.has_content() {
            (self.height - 2 * PADDING) as nat
        } else {
            0
        }
    }

    /// Whether the frame fits in the terminal's coordinate range.
    pub open spec fn fits(self) -> bool {
        self.row + self.height <= u16::MAX && self.col + self.width <= u16::MAX
    }

    /// The frame of `tile`.
    pub fn from_tile(tile: &DeviceTile) -> (r: Frame)
        ensures
            r == frame_of(*tile),
    {
        Frame { row: tile.row, col: tile.col, width: tile.width, height: tile.height }
    }

    /// Whether anything is left inside the border.
    pub fn content(&self) -> (r: bool)
        ensures
            r == self.has_content(),
    {
        self.width > 2 * PADDING && self.height > 2 * PADDING
    }
}

/// A buffer of one row per row of the tile: the first content lines, as
/// many as the tile has rows (the last ones dropped), then blank rows. A
/// frame with nothing inside its border gets only blank rows.
pub open spec fn framed_rows(frame: Frame, lines: Seq<Seq<char>>) -> Seq<Seq<char>> {
    Seq::new(
        frame.height as nat,
        |j: int|
            if frame.has_content() && j < lines.len() {
                lines[j]
            } else {
                Seq::empty()
            },
    )
}

/// The colour bands of the rows of `framed_rows(frame, lines)`, where
/// `bands` holds one per line: none for blank rows.
pub open spec fn framed_bands(frame: Frame, bands: Seq<Option<Band>>) -> Seq<Option<Band>> {
    Seq::new(
        frame.height as nat,
        |j: int|
            if frame.has_content() && j < bands.len() {
                bands[j]
            } else {
                None
            },
    )
}

/// `n` rows without a colour band.
pub open spec fn no_bands(n: nat) -> Seq<Option<Band>> {
    Seq::new(n, |j: int| None::<Band>)
}

/// The views of a buffer's rows.
pub open spec fn rows_view(rows: Seq<String>) -> Seq<Seq<char>> {
    rows.map_values(|s: String| s@)
}

/// The buffer of a fresh or just-moved widget: its header in the first row
/// when the frame has content, blank rows elsewhere.
pub fn header_buffer(frame: Frame, header: &str) -> (r: Vec<String>)
    ensures
        rows_view(r@) == framed_rows(frame, seq![header@]),
        r@.len() == frame.height,
{
    let content = frame.content();
    let mut r: Vec<String> = Vec::new();
    let mut i: u16 = 0;
    while i < frame.height
        invariant
            i <= frame.height,
            content == frame.has_content(),
            r@.len() == i,
            forall|k: int|
                0 <= k < r@.len() ==> (#[trigger] r@[k])@ == framed_rows(frame, seq![header@])[k],
        decreases frame.height - i,
    {
        if content && i == 0 {
            r.push(String::from_str(header));
        } else {
            r.push(String::new());
        }
        i = i + 1;
    }
    assert(rows_view(r@) =~= framed_rows(frame, seq![header@]));
    r
}

/// `n` rows without a colour band.
pub fn no_band_buffer(n: u16) -> (r: Vec<Option<Band>>)
    ensures
        r@ == no_bands(n as nat),
{
    let mut r: Vec<Option<Band>> = Vec::new();
    let mut i: u16 = 0;
    while i < n
        invariant
            i <= n,
            r@ == no_bands(i as nat),
        decreases n - i,
    {
        r.push(None);
        i = i + 1;
        assert(r@ =~= no_bands(i as nat));
    }
    r
}

} // verus!
