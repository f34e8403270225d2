//! The hex view engine: a scroll offset over a byte source, clamped to
//! the file's rows, and the frame of hex cells visible at that offset.

use vstd::prelude::*;
use crate::binary_file::BinaryFile;
use crate::hex_digits::byte_to_hex;
use crate::hex_digits::hex_digit_char;
use crate::layout::GUTTER_WIDTH;
use crate::layout::compute_layout;
use crate::layout::compute_max_row_offset;
use crate::layout::layout_bytes_per_row;
use crate::layout::lemma_row_count_bounds;
use crate::layout::max_row_offset;
use crate::layout::row_count;
use crate::layout::total_rows;

verus! {

/// One rendered byte: its two hex digit characters, high nibble first.
#[derive(Clone, Copy, PartialEq, Eq, Structural)]
pub struct HexCell {
    pub hi: char,
    pub lo: char,
}

/// One rendered row: the address of its first byte and one cell per
/// byte, truncated at end of file.
pub struct FrameRow {
    pub address: u64,
    pub cells: Vec<HexCell>,
}

/// A navigation command from the terminal surface.
#[derive(Clone, Copy, PartialEq, Eq, Structural)]
pub enum NavCommand {
    LineDown,
    LineUp,
    PageDown,
    PageUp,
}

/// The cell a byte is rendered as: its hex digits, high nibble first.
pub open spec fn cell_for(b: u8) -> HexCell {
    HexCell { hi: hex_digit_char(b as int / 16), lo: hex_digit_char(b as int % 16) }
}

/// How many cells a row starting at byte address `addr` holds: a full
/// `bpr`, or fewer on the last row of a file of `len` bytes.
pub open spec fn row_cell_count(addr: int, bpr: int, len: int) -> int {
    if len - addr < bpr {
        len - addr
    } else {
        bpr
    }
}

/// A correct row `i` of a frame scrolled to `off`: the address is the
/// row's first byte offset, and each cell renders the byte under it.
pub open spec fn frame_row_ok(bytes: Seq<u8>, off: int, bpr: int, i: int, row: FrameRow) -> bool {
    let addr = (off + i) * bpr;
    &&& row.address == addr
    &&& row.cells@.len() == row_cell_count(addr, bpr, bytes.len() as int)
    &&& forall|j: int|
        0 <= j < row.cells@.len() ==> row.cells@[j] == cell_for(bytes[addr + j])
}

/// One line-down step on a scroll offset clamped at `max`: advance by
/// one row, staying at `max` once reached.
pub open spec fn line_down_step(off: int, max: int) -> int {
    if off < max {
        off + 1
    } else {
        max
    }
}

/// `k` line-down steps from offset `off`, each clamped at `max`.
pub open spec fn line_down_iter(off: int, max: int, k: nat) -> int
    decreases k,
{
    if k == 0 {
        off
    } else {
        line_down_step(line_down_iter(off, max, (k - 1) as nat), max)
    }
}

/// Law: scrolling line-down repeatedly from the top converges to the
/// largest legal offset `max` and stays there; no number of steps ever
/// carries the offset past it.
pub proof fn lemma_line_down_converges(max: int, k: nat)
    requires
        0 <= max,
    ensures
        line_down_iter(0, max, k) == if k < max {
            k as int
        } else {
            max
        },
        line_down_iter(0, max, k) <= max,
    decreases k,
{
    if k > 0 {
        lemma_line_down_converges(max, (k - 1) as nat);
    }
}

/// The view engine: the byte source, the scroll offset (in rows), and
/// the viewport dimensions with the row width derived from them.
pub struct HexView {
    file: BinaryFile,
    row_offset: u64,
    viewport_rows: u16,
    viewport_cols: u16,
    bytes_per_row: u16,
}

impl HexView {
    /// The bytes of the file under view.
    pub closed spec fn contents(self) -> Seq<u8> {
        self.file@
    }

    /// The current scroll offset, in rows.
    pub closed spec fn offset(self) -> int {
        self.row_offset as int
    }

    /// The viewport height, in rows.
    pub closed spec fn vp_rows(self) -> int {
        self.viewport_rows as int
    }

    /// The viewport width, in columns.
    pub closed spec fn vp_cols(self) -> int {
        self.viewport_cols as int
    }

    /// Bytes laid out on each row.
    pub closed spec fn bpr(self) -> int {
        self.bytes_per_row as int
    }

    /// Rows the whole file takes at the current width.
    pub open spec fn total(self) -> int {
        row_count(self.contents().len() as int, self.bpr())
    }

    /// The largest legal scroll offset at the current width.
    pub open spec fn max_offset(self) -> int {
        max_row_offset(self.contents().len() as int, self.bpr())
    }

    /// Well-formedness: the row width is the one the viewport dictates,
    /// and the scroll offset never points past the last row.
    pub open spec fn wf(self) -> bool {
        &&& self.bpr() == layout_bytes_per_row(self.vp_cols(), GUTTER_WIDTH as int)
        &&& 0 <= self.offset() <= self.max_offset()
    }

    /// The viewport and file are unchanged; only the offset may move.
    pub open spec fn same_view(self, other: HexView) -> bool {
        &&& self.contents() == other.contents()
        &&& self.vp_rows() == other.vp_rows()
        &&& self.vp_cols() == other.vp_cols()
        &&& self.bpr() == other.bpr()
    }

    /// A fresh view of `file` in a viewport of the given dimensions,
    /// scrolled to the top.
    pub fn new(file: BinaryFile, viewport_rows: u16, viewport_cols: u16) -> (v: HexView)
        ensures
            v.wf(),
            v.contents() == file@,
            v.offset() == 0,
            v.vp_rows() == viewport_rows,
            v.vp_cols() == viewport_cols,
    {
        let bytes_per_row: u16 = compute_layout(viewport_cols, GUTTER_WIDTH);
        HexView { file, row_offset: 0, viewport_rows, viewport_cols, bytes_per_row }
    }

    /// The current scroll offset, in rows.
    pub fn row_offset(&self) -> (r: u64)
        ensures
            r == self.offset(),
    {
        self.row_offset
    }

    /// The viewport height, in rows.
    pub fn viewport_rows(&self) -> (r: u16)
        ensures
            r == self.vp_rows(),
    {
        self.viewport_rows
    }

    /// Bytes laid out on each row.
    pub fn bytes_per_row(&self) -> (r: u16)
        ensures
            r == self.bpr(),
    {
        self.bytes_per_row
    }

    /// The file length, in bytes.
    pub fn length(&self) -> (r: u64)
        ensures
            r == self.contents().len(),
    {
        self.file.length()
    }

    /// Adopts new viewport dimensions: recomputes the row width and
    /// reclamps the scroll offset, which a narrower or shorter viewport
    /// may have left past the new last row.
    pub fn set_viewport(&mut self, viewport_rows: u16, viewport_cols: u16)
        requires
            old(self).wf(),
        ensures
            final(self).wf(),
            final(self).contents() == old(self).contents(),
            final(self).vp_rows() == viewport_rows,
            final(self).vp_cols() == viewport_cols,
            final(self).offset() == if old(self).offset() <= final(self).max_offset() {
                old(self).offset()
            } else {
                final(self).max_offset()
            },
    {
        self.viewport_rows = viewport_rows;
        self.viewport_cols = viewport_cols;
        self.bytes_per_row = compute_layout(viewport_cols, GUTTER_WIDTH);
        let max: u64 = compute_max_row_offset(self.file.length(), self.bytes_per_row);
        if self.row_offset > max {
            self.row_offset = max;
        }
    }

    /// Scrolls one row down, staying at the last row once reached.
    pub fn scroll_line_down(&mut self)
        requires
            old(self).wf(),
        ensures
            final(self).wf(),
            old(self).same_view(*final(self)),
            final(self).offset() == line_down_step(old(self).offset(), old(self).max_offset()),
    {
        let max: u64 = compute_max_row_offset(self.file.length(), self.bytes_per_row);
        if self.row_offset < max {
            self.row_offset = self.row_offset + 1;
        } else {
            self.row_offset = max;
        }
    }

    /// Scrolls one row up, staying at the top once reached: at offset
    /// zero the call leaves the offset unchanged.
    pub fn scroll_line_up(&mut self)
        requires
            old(self).wf(),
        ensures
            final(self).wf(),
            old(self).same_view(*final(self)),
            final(self).offset() == if old(self).offset() == 0 {
                0int
            } else {
                old(self).offset() - 1
            },
    {
        if self.row_offset > 0 {
            self.row_offset = self.row_offset - 1;
        }
    }

    /// Scrolls `page_size` rows down, clamped to the last row.
    pub fn scroll_page_down(&mut self, page_size: u64)
        requires
            old(self).wf(),
        ensures
            final(self).wf(),
            old(self).same_view(*final(self)),
            final(self).offset() == if old(self).offset() + page_size
                <= old(self).max_offset() {
                old(self).offset() + page_size
            } else {
                old(self).max_offset()
            },
    {
        let max: u64 = compute_max_row_offset(self.file.length(), self.bytes_per_row);
        if self.row_offset < max && page_size <= max - self.row_offset {
            self.row_offset = self.row_offset + page_size;
        } else {
            self.row_offset = max;
        }
    }

    /// Scrolls `page_size` rows up, floored at the top.
    pub fn scroll_page_up(&mut self, page_size: u64)
        requires
            old(self).wf(),
        ensures
            final(self).wf(),
            old(self).same_view(*final(self)),
            final(self).offset() == if old(self).offset() >= page_size {
                old(self).offset() - page_size
            } else {
                0int
            },
    {
        if self.row_offset >= page_size {
            self.row_offset = self.row_offset - page_size;
        } else {
            self.row_offset = 0;
        }
    }

    /// How many rows a frame shows in a viewport `viewport_rows` high:
    /// the rows left from the scroll offset to the end of the file, or
    /// the full viewport, whichever is smaller.
    pub open spec fn visible_rows(self, viewport_rows: int) -> int {
        if self.total() - self.offset() < viewport_rows {
            self.total() - self.offset()
        } else {
            viewport_rows
        }
    }

    /// The frame visible at the current scroll position in a viewport
    /// `viewport_rows` high: one row per visible file row, each holding
    /// the address of its first byte and the hex cells of its bytes,
    /// with the last row of the file truncated at end of file. An empty
    /// file, or a degenerate zero-width layout, yields an empty frame.
    pub fn produce_frame(&self, viewport_rows: u16) -> (frame: Vec<FrameRow>)
        requires
            self.wf(),
        ensures
            frame@.len() == self.visible_rows(viewport_rows as int),
            forall|i: int|
                0 <= i < frame@.len() ==> frame_row_ok(
                    self.contents(),
                    self.offset(),
                    self.bpr(),
                    i,
                    #[trigger] frame@[i],
                ),
    {
        let length: u64 = self.file.length();
        let total: u64 = total_rows(length, self.bytes_per_row);
        let remaining: u64 = total - self.row_offset;
        let nrows: u64 = if remaining < viewport_rows as u64 {
            remaining
        } else {
            viewport_rows as u64
        };
        let mut frame: Vec<FrameRow> = Vec::new();
        let mut r: u64 = 0;
        while r < nrows
            invariant
                self.wf(),
                length == self.contents().len(),
                total == self.total(),
                nrows == self.visible_rows(viewport_rows as int),
                r <= nrows,
                frame@.len() == r,
                forall|i: int|
                    0 <= i < r ==> frame_row_ok(
                        self.contents(),
                        self.offset(),
                        self.bpr(),
                        i,
                        #[trigger] frame@[i],
                    ),
            decreases nrows - r,
        {
            proof {
                lemma_row_count_bounds(length as int, self.bpr());
                vstd::arithmetic::mul::lemma_mul_inequality(
                    self.offset() + r,
                    self.total() - 1,
                    self.bpr(),
                );
            }
            let address: u64 = (self.row_offset + r) * (self.bytes_per_row as u64);
            let cells_here: u64 = if length - address < self.bytes_per_row as u64 {
                length - address
            } else {
                self.bytes_per_row as u64
            };
            let mut cells: Vec<HexCell> = Vec::new();
            let mut j: u64 = 0;
            while j < cells_here
                invariant
                    self.wf(),
                    length == self.contents().len(),
                    address + cells_here <= length,
                    cells_here == row_cell_count(address as int, self.bpr(), length as int),
                    j <= cells_here,
                    cells@.len() == j,
                    forall|k: int|
                        0 <= k < j ==> #[trigger] cells@[k] == cell_for(
                            self.contents()[address + k],
                        ),
                decreases cells_here - j,
            {
                let b: u8 = self.file.byte_at(address + j);
                let pair: (char, char) = byte_to_hex(b);
                cells.push(HexCell { hi: pair.0, lo: pair.1 });
                j = j + 1;
            }
            frame.push(FrameRow { address, cells });
            r = r + 1;
        }
        frame
    }

    /// Applies one navigation command, with `page_size` rows to a page.
    pub fn apply(&mut self, command: NavCommand, page_size: u64)
        requires
            old(self).wf(),
        ensures
            final(self).wf(),
            old(self).same_view(*final(self)),
            final(self).offset() == match command {
                NavCommand::LineDown => line_down_step(
                    old(self).offset(),
                    old(self).max_offset(),
                ),
                NavCommand::LineUp => if old(self).offset() == 0 {
                    0int
                } else {
                    old(self).offset() - 1
                },
                NavCommand::PageDown => if old(self).offset() + page_size
                    <= old(self).max_offset() {
                    old(self).offset() + page_size
                } else {
                    old(self).max_offset()
                },
                NavCommand::PageUp => if old(self).offset() >= page_size {
                    old(self).offset() - page_size
                } else {
                    0int
                },
            },
    {
        match command {
            NavCommand::LineDown => self.scroll_line_down(),
            NavCommand::LineUp => self.scroll_line_up(),
            NavCommand::PageDown => self.scroll_page_down(page_size),
            NavCommand::PageUp => self.scroll_page_up(page_size),
        }
    }
}

} // verus!
