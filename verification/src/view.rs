//! The view state over the displayed dataset: cursor, viewport offset and
//! tick counter. Navigation clamps instead of failing, and the viewport
//! scrolls only as far as needed to keep the cursor visible.
use vstd::prelude::*;
use crate::dataset::DatasetHandle;

verus! {

/// Where a cursor coordinate lands after a clamped move by `delta` within
/// `count` positions: never outside `[0, count)`, and 0 when there are none.
pub open spec fn clamped(cur: int, delta: int, count: int) -> int {
    if count <= 0 {
        0
    } else if cur + delta < 0 {
        0
    } else if cur + delta >= count {
        count - 1
    } else {
        cur + delta
    }
}

/// Where the viewport offset lands after a cursor move: the minimal shift
/// that brings the cursor back into a window of `page` positions.
pub open spec fn scrolled(off: int, cur: int, page: int) -> int {
    if cur < off {
        cur
    } else if page > 0 && cur >= off + page {
        cur + 1 - page
    } else {
        off
    }
}

/// A cursor coordinate is valid for `count` positions.
pub open spec fn cursor_ok(cur: int, count: int) -> bool {
    if count == 0 {
        cur == 0
    } else {
        0 <= cur < count
    }
}

/// The cursor sits inside the window that starts at `off` and, when the
/// window has a known extent, does not run past it.
pub open spec fn window_ok(off: int, cur: int, page: int) -> bool {
    off <= cur && (page > 0 ==> cur < off + page)
}

/// Clamped move of one coordinate.
fn add_delta_clamped(cur: usize, delta: i64, count: usize) -> (r: usize)
    requires
        cursor_ok(cur as int, count as int),
    ensures
        r as int == clamped(cur as int, delta as int, count as int),
        cursor_ok(r as int, count as int),
{
    if count == 0 {
        0
    } else if delta >= 0 {
        let du: u64 = delta as u64;
        let room: u64 = (count - 1 - cur) as u64;
        if du <= room {
            cur + (du as usize)
        } else {
            count - 1
        }
    } else {
        let mag: u64 = ((-(delta + 1)) as u64) + 1;
        if mag <= (cur as u64) {
            cur - (mag as usize)
        } else {
            0
        }
    }
}

/// Minimal scroll of one viewport coordinate.
fn rescroll(off: usize, cur: usize, page: usize) -> (r: usize)
    ensures
        r as int == scrolled(off as int, cur as int, page as int),
        window_ok(r as int, cur as int, page as int),
{
    if cur < off {
        cur
    } else if page > 0 && cur - off >= page {
        cur - (page - 1)
    } else {
        off
    }
}

/// Law: for every delta, a clamped move lands inside `[0, count)`, and at
/// 0 when there are no positions at all.
pub proof fn lemma_clamped_in_bounds(cur: int, delta: int, count: int)
    requires
        cursor_ok(cur, count),
        count >= 0,
    ensures
        cursor_ok(clamped(cur, delta, count), count),
{
}

/// The whole effect of a clamped cursor move on the view state.
pub open spec fn moved(t: Tabular, dr: int, dc: int) -> Tabular {
    let cr = clamped(t.cursor_row as int, dr, t.dataset.row_count as int);
    let cc = clamped(t.cursor_col as int, dc, t.dataset.col_count as int);
    Tabular {
        cursor_row: cr as usize,
        cursor_col: cc as usize,
        offset_row: scrolled(t.offset_row as int, cr, t.page_rows as int) as usize,
        offset_col: scrolled(t.offset_col as int, cc, t.page_cols as int) as usize,
        ..t
    }
}

/// The browsing state over the currently displayed dataset.
pub struct Tabular {
    pub dataset: DatasetHandle,
    pub cursor_row: usize,
    pub cursor_col: usize,
    pub offset_row: usize,
    pub offset_col: usize,
    pub page_rows: usize,
    pub page_cols: usize,
    pub tick_count: u64,
}

impl Tabular {
    /// The cursor is inside the dataset's bounds (or pinned at 0 on an empty
    /// axis) and the viewport always shows it.
    pub open spec fn wf(self) -> bool {
        self.dataset.wf() && cursor_ok(self.cursor_row as int, self.dataset.row_count as int)
            && cursor_ok(self.cursor_col as int, self.dataset.col_count as int) && window_ok(
            self.offset_row as int,
            self.cursor_row as int,
            self.page_rows as int,
        ) && window_ok(self.offset_col as int, self.cursor_col as int, self.page_cols as int)
    }

    /// All parts that are not the tick counter.
    pub open spec fn same_but_tick(self, other: Tabular) -> bool {
        self.dataset == other.dataset && self.cursor_row == other.cursor_row
            && self.cursor_col == other.cursor_col && self.offset_row == other.offset_row
            && self.offset_col == other.offset_col && self.page_rows == other.page_rows
            && self.page_cols == other.page_cols
    }

    pub fn new(dataset: DatasetHandle) -> (r: Tabular)
        requires
            dataset.wf(),
        ensures
            r.wf(),
            r.dataset == dataset,
            r.cursor_row == 0 && r.cursor_col == 0,
            r.offset_row == 0 && r.offset_col == 0,
            r.page_rows == 0 && r.page_cols == 0,
            r.tick_count == 0,
    {
        Tabular {
            dataset,
            cursor_row: 0,
            cursor_col: 0,
            offset_row: 0,
            offset_col: 0,
            page_rows: 0,
            page_cols: 0,
            tick_count: 0,
        }
    }

    /// One periodic tick: only the tick counter advances (and stops at the
    /// numeric ceiling rather than wrapping).
    pub fn tick(&mut self)
        requires
            old(self).wf(),
        ensures
            final(self).wf(),
            final(self).same_but_tick(*old(self)),
            final(self).tick_count == if old(self).tick_count < u64::MAX {
                old(self).tick_count + 1
            } else {
                old(self).tick_count as int
            },
    {
        if self.tick_count < u64::MAX {
            self.tick_count = self.tick_count + 1;
        }
    }

    /// Moves the cursor by the given deltas, clamped into the dataset's
    /// bounds, then scrolls the viewport minimally so the cursor stays in
    /// view. Never fails, whatever the deltas.
    pub fn move_cursor(&mut self, delta_row: i64, delta_col: i64)
        requires
            old(self).wf(),
        ensures
            final(self).wf(),
            final(self).cursor_row as int == clamped(
                old(self).cursor_row as int,
                delta_row as int,
                old(self).dataset.row_count as int,
            ),
            final(self).cursor_col as int == clamped(
                old(self).cursor_col as int,
                delta_col as int,
                old(self).dataset.col_count as int,
            ),
            final(self).offset_row as int == scrolled(
                old(self).offset_row as int,
                final(self).cursor_row as int,
                old(self).page_rows as int,
            ),
            final(self).offset_col as int == scrolled(
                old(self).offset_col as int,
                final(self).cursor_col as int,
                old(self).page_cols as int,
            ),
            final(self).dataset == old(self).dataset,
            final(self).page_rows == old(self).page_rows,
            final(self).page_cols == old(self).page_cols,
            final(self).tick_count == old(self).tick_count,
            *final(self) == moved(*old(self), delta_row as int, delta_col as int),
    {
        let new_row: usize = add_delta_clamped(
            self.cursor_row,
            delta_row,
            self.dataset.row_count,
        );
        let new_col: usize = add_delta_clamped(
            self.cursor_col,
            delta_col,
            self.dataset.col_count,
        );
        self.cursor_row = new_row;
        self.cursor_col = new_col;
        self.offset_row = rescroll(self.offset_row, new_row, self.page_rows);
        self.offset_col = rescroll(self.offset_col, new_col, self.page_cols);
    }

    /// Swaps in a new dataset; cursor and viewport start over at the origin,
    /// since the shape may have changed.
    pub fn replace_dataset(&mut self, new_handle: DatasetHandle)
        requires
            old(self).wf(),
            new_handle.wf(),
        ensures
            final(self).wf(),
            final(self).dataset == new_handle,
            final(self).cursor_row == 0 && final(self).cursor_col == 0,
            final(self).offset_row == 0 && final(self).offset_col == 0,
            final(self).page_rows == old(self).page_rows,
            final(self).page_cols == old(self).page_cols,
            final(self).tick_count == old(self).tick_count,
    {
        self.dataset = new_handle;
        self.cursor_row = 0;
        self.cursor_col = 0;
        self.offset_row = 0;
        self.offset_col = 0;
    }

    /// Records the rendered window's extent and rescrolls so the cursor
    /// stays visible in the new window.
    pub fn set_page(&mut self, rows: usize, cols: usize)
        requires
            old(self).wf(),
        ensures
            final(self).wf(),
            final(self).dataset == old(self).dataset,
            final(self).cursor_row == old(self).cursor_row,
            final(self).cursor_col == old(self).cursor_col,
            final(self).page_rows == rows,
            final(self).page_cols == cols,
            final(self).offset_row as int == scrolled(
                old(self).offset_row as int,
                old(self).cursor_row as int,
                rows as int,
            ),
            final(self).offset_col as int == scrolled(
                old(self).offset_col as int,
                old(self).cursor_col as int,
                cols as int,
            ),
            final(self).tick_count == old(self).tick_count,
    {
        self.page_rows = rows;
        self.page_cols = cols;
        self.offset_row = rescroll(self.offset_row, self.cursor_row, rows);
        self.offset_col = rescroll(self.offset_col, self.cursor_col, cols);
    }
}

} // verus!
