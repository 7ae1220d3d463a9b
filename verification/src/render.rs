//! The renderer: a pure function from session state to the sequence of
//! draw operations for one frame.  The caller executes the operations
//! against a real terminal and flushes once, so a frame is never shown
//! half-drawn.

use vstd::prelude::*;

verus! {

/// One terminal write of a frame.  Rows and columns are 1-based.
#[derive(Clone, Copy, PartialEq, Eq, Structural, Debug)]
pub enum DrawOp {
    /// Clear the whole screen.
    ClearAll,
    /// Clear the line under the cursor.
    ClearLine,
    /// Move the cursor to (column, row).
    Goto(u16, u16),
    /// The fixed, emphasised search-prompt marker.
    PromptMarker,
    /// The literal contents of the search buffer.
    SearchText,
    /// The styled status/footer row.
    StatusBar,
    /// One visible host entry: its position in the visible list, and
    /// whether it is the one under the cursor (drawn with the selection
    /// marker and emphasis).
    Entry { index: usize, selected: bool },
}

/// First screen row that shows a host entry.
pub open spec fn first_entry_row() -> int {
    3
}

/// How many entries fit on a screen of `rows` rows: entries start at row 3
/// and must stay above the prompt row at `rows - 2`.
pub open spec fn max_entries(rows: u16) -> int {
    if rows >= 6 {
        rows - 5
    } else {
        0
    }
}

/// Draw operations for the visible entries `0 .. count`, two per entry:
/// position the cursor, then write the entry.
pub open spec fn entry_ops(selected: int, count: int) -> Seq<DrawOp>
    decreases count,
{
    if count <= 0 {
        Seq::<DrawOp>::empty()
    } else {
        entry_ops(selected, count - 1) + seq![
            DrawOp::Goto(1, (count + 2) as u16),
            DrawOp::Entry { index: (count - 1) as usize, selected: count - 1 == selected },
        ]
    }
}

/// The full frame for `visible_len` visible entries with the cursor on
/// `selected`: clear the screen, draw the prompt and status rows near the
/// bottom (each on a freshly cleared line), then the entries that fit.
/// A screen with fewer than three rows only gets cleared.
pub open spec fn frame_ops(visible_len: int, selected: int, rows: u16) -> Seq<DrawOp> {
    if rows < 3 {
        seq![DrawOp::ClearAll]
    } else {
        let shown = if visible_len < max_entries(rows) {
            visible_len
        } else {
            max_entries(rows)
        };
        seq![
            DrawOp::ClearAll,
            DrawOp::Goto(1, (rows - 2) as u16),
            DrawOp::ClearLine,
            DrawOp::PromptMarker,
            DrawOp::SearchText,
            DrawOp::Goto(1, (rows - 1) as u16),
            DrawOp::ClearLine,
            DrawOp::StatusBar,
        ] + entry_ops(selected, shown)
    }
}

/// Render one frame: the draw operations for `visible_len` visible
/// entries, the cursor on `selected`, on a terminal `rows` rows tall.
pub fn render(visible_len: usize, selected: usize, rows: u16) -> (ops: Vec<DrawOp>)
    ensures
        ops@ == frame_ops(visible_len as int, selected as int, rows),
{
    let mut ops: Vec<DrawOp> = Vec::new();
    ops.push(DrawOp::ClearAll);
    if rows < 3 {
        proof {
            assert(ops@ =~= frame_ops(visible_len as int, selected as int, rows));
        }
        return ops;
    }
    ops.push(DrawOp::Goto(1, rows - 2));
    ops.push(DrawOp::ClearLine);
    ops.push(DrawOp::PromptMarker);
    ops.push(DrawOp::SearchText);
    ops.push(DrawOp::Goto(1, rows - 1));
    ops.push(DrawOp::ClearLine);
    ops.push(DrawOp::StatusBar);
    let limit: usize = if rows >= 6 {
        (rows - 5) as usize
    } else {
        0
    };
    let shown: usize = if visible_len < limit {
        visible_len
    } else {
        limit
    };
    let ghost header = ops@;
    let mut i: usize = 0;
    while i < shown
        invariant
            shown <= limit,
            limit == max_entries(rows),
            rows >= 3,
            0 <= i <= shown,
            ops@ =~= header + entry_ops(selected as int, i as int),
        decreases shown - i,
    {
        ops.push(DrawOp::Goto(1, (i as u16) + 3));
        ops.push(
            DrawOp::Entry { index: i, selected: i == selected },
        );
        proof {
            assert(i + 2 <= rows - 3);
            assert(ops@ =~= header + entry_ops(selected as int, i + 1 as int));
        }
        i = i + 1;
    }
    proof {
        assert(ops@ =~= frame_ops(visible_len as int, selected as int, rows));
    }
    ops
}

} // verus!
