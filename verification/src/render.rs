//! Planning of one rendered frame as a sequence of terminal commands.
//!
//! The renderer itself does no I/O: it turns a scaled RGB buffer into the
//! exact list of drawing commands for one frame — reposition, clear, then for
//! each pixel in row-major order a set-background command and one space, with
//! a line break before each row after the first, and a single flush at the
//! end. The caller executes the commands against the real terminal.

use vstd::prelude::*;

verus! {

/// One terminal drawing command.
#[derive(Clone, Copy, Debug, PartialEq, Eq, Structural)]
pub enum Cmd {
    /// Move the cursor to the top-left corner.
    MoveHome,
    /// Clear the whole screen.
    ClearAll,
    /// Set the background colour for the next cell.
    SetBg { r: u8, g: u8, b: u8 },
    /// Emit one space: the cell painted with the current background.
    PutSpace,
    /// Move to the start of the next line.
    NextLine,
    /// Flush the output stream.
    Flush,
}

/// The bare command kinds, for counting commands regardless of their colour.
#[derive(Clone, Copy, Debug, PartialEq, Eq, Structural)]
pub enum CmdKind {
    MoveHome,
    ClearAll,
    SetBg,
    PutSpace,
    NextLine,
    Flush,
}

/// The kind of a command.
pub open spec fn kind_of(c: Cmd) -> CmdKind {
    match c {
        Cmd::MoveHome => CmdKind::MoveHome,
        Cmd::ClearAll => CmdKind::ClearAll,
        Cmd::SetBg { .. } => CmdKind::SetBg,
        Cmd::PutSpace => CmdKind::PutSpace,
        Cmd::NextLine => CmdKind::NextLine,
        Cmd::Flush => CmdKind::Flush,
    }
}

/// How many commands of kind `k` the sequence holds.
pub open spec fn count_kind(s: Seq<Cmd>, k: CmdKind) -> int
    decreases s.len(),
{
    if s.len() == 0 {
        0
    } else {
        count_kind(s.drop_last(), k) + if kind_of(s.last()) == k {
            1int
        } else {
            0int
        }
    }
}

/// The set-background command for pixel `p` of the buffer.
pub open spec fn set_bg_cmd(buf: Seq<u8>, p: int) -> Cmd {
    Cmd::SetBg { r: buf[3 * p], g: buf[3 * p + 1], b: buf[3 * p + 2] }
}

/// Commands for the first `k` cells of row `row`: one set-background and one
/// space per cell.
pub open spec fn row_cmds(buf: Seq<u8>, w: int, row: int, k: int) -> Seq<Cmd>
    decreases k,
{
    if k <= 0 {
        Seq::empty()
    } else {
        row_cmds(buf, w, row, k - 1) + seq![set_bg_cmd(buf, row * w + (k - 1)), Cmd::PutSpace]
    }
}

/// Commands for the first `r` rows: each row after the first is preceded by
/// one line break.
pub open spec fn rows_cmds(buf: Seq<u8>, w: int, r: int) -> Seq<Cmd>
    decreases r,
{
    if r <= 0 {
        Seq::empty()
    } else {
        rows_cmds(buf, w, r - 1) + (if r - 1 > 0 {
            seq![Cmd::NextLine]
        } else {
            Seq::empty()
        }) + row_cmds(buf, w, r - 1, w)
    }
}

/// The whole frame: reposition and clear, the grid row by row, one flush.
pub open spec fn spec_render(buf: Seq<u8>, w: int, h: int) -> Seq<Cmd> {
    seq![Cmd::MoveHome, Cmd::ClearAll] + rows_cmds(buf, w, h) + seq![Cmd::Flush]
}

/// Plan one frame: the exact command list that paints `buf` as a
/// `grid_w` x `grid_h` mosaic of background-coloured spaces.
#[verifier::loop_isolation(false)]
pub fn render_frame(buf: &Vec<u8>, grid_w: usize, grid_h: usize) -> (cmds: Vec<Cmd>)
    requires
        grid_w >= 1,
        buf@.len() == grid_w * grid_h * 3,
    ensures
        cmds@ == spec_render(buf@, grid_w as int, grid_h as int),
{
    assert(buf.len() <= usize::MAX);
    let mut cmds: Vec<Cmd> = Vec::new();
    cmds.push(Cmd::MoveHome);
    cmds.push(Cmd::ClearAll);
    assert(cmds@ =~= seq![Cmd::MoveHome, Cmd::ClearAll] + rows_cmds(buf@, grid_w as int, 0));
    let mut row: usize = 0;
    while row < grid_h
        invariant
            grid_w >= 1,
            row <= grid_h,
            buf@.len() == grid_w * grid_h * 3,
            cmds@ == seq![Cmd::MoveHome, Cmd::ClearAll] + rows_cmds(buf@, grid_w as int, row as int),
        decreases grid_h - row,
    {
        if row != 0 {
            cmds.push(Cmd::NextLine);
        }
        let ghost row_start = cmds@;
        let mut col: usize = 0;
        while col < grid_w
            invariant
                grid_w >= 1,
                row < grid_h,
                col <= grid_w,
                buf@.len() == grid_w * grid_h * 3,
                cmds@ == row_start + row_cmds(buf@, grid_w as int, row as int, col as int),
            decreases grid_w - col,
        {
            proof {
                assert(row * grid_w + col < grid_w * grid_h) by (nonlinear_arith)
                    requires
                        row < grid_h,
                        col < grid_w,
                        grid_w >= 1,
                ;
            }
            let p = row * grid_w + col;
            cmds.push(Cmd::SetBg { r: buf[3 * p], g: buf[3 * p + 1], b: buf[3 * p + 2] });
            cmds.push(Cmd::PutSpace);
            proof {
                assert(cmds@ =~= row_start + row_cmds(
                    buf@,
                    grid_w as int,
                    row as int,
                    col + 1,
                ));
            }
            col += 1;
        }
        proof {
            assert(cmds@ =~= seq![Cmd::MoveHome, Cmd::ClearAll] + rows_cmds(
                buf@,
                grid_w as int,
                row + 1,
            ));
        }
        row += 1;
    }
    cmds.push(Cmd::Flush);
    proof {
        assert(cmds@ =~= spec_render(buf@, grid_w as int, grid_h as int));
    }
    cmds
}

/// Counting distributes over concatenation.
proof fn lemma_count_concat(a: Seq<Cmd>, b: Seq<Cmd>, k: CmdKind)
    ensures
        count_kind(a + b, k) == count_kind(a, k) + count_kind(b, k),
    decreases b.len(),
{
    if b.len() == 0 {
        assert(a + b =~= a);
    } else {
        lemma_count_concat(a, b.drop_last(), k);
        assert((a + b).drop_last() =~= a + b.drop_last());
        assert((a + b).last() == b.last());
    }
}

/// The count in a one-command sequence.
proof fn lemma_count_one(a: Cmd, k: CmdKind)
    ensures
        count_kind(seq![a], k) == if kind_of(a) == k {
            1int
        } else {
            0int
        },
{
    assert(seq![a].drop_last() =~= Seq::<Cmd>::empty());
    assert(count_kind(Seq::<Cmd>::empty(), k) == 0);
    assert(seq![a].last() == a);
}

/// The count in a two-command sequence.
proof fn lemma_count_two(a: Cmd, b: Cmd, k: CmdKind)
    ensures
        count_kind(seq![a, b], k) == (if kind_of(a) == k {
            1int
        } else {
            0int
        }) + (if kind_of(b) == k {
            1int
        } else {
            0int
        }),
{
    lemma_count_one(a, k);
    assert(seq![a, b].drop_last() =~= seq![a]);
    assert(seq![a, b].last() == b);
}

/// One row of `k` cells plans exactly `k` set-background commands, `k`
/// spaces, and no line break.
proof fn lemma_row_counts(buf: Seq<u8>, w: int, row: int, k: int)
    requires
        k >= 0,
    ensures
        count_kind(row_cmds(buf, w, row, k), CmdKind::SetBg) == k,
        count_kind(row_cmds(buf, w, row, k), CmdKind::PutSpace) == k,
        count_kind(row_cmds(buf, w, row, k), CmdKind::NextLine) == 0,
        count_kind(row_cmds(buf, w, row, k), CmdKind::Flush) == 0,
    decreases k,
{
    if k > 0 {
        lemma_row_counts(buf, w, row, k - 1);
        let pre = row_cmds(buf, w, row, k - 1);
        let cell = seq![set_bg_cmd(buf, row * w + (k - 1)), Cmd::PutSpace];
        lemma_count_concat(pre, cell, CmdKind::SetBg);
        lemma_count_concat(pre, cell, CmdKind::PutSpace);
        lemma_count_concat(pre, cell, CmdKind::NextLine);
        lemma_count_concat(pre, cell, CmdKind::Flush);
        lemma_count_two(set_bg_cmd(buf, row * w + (k - 1)), Cmd::PutSpace, CmdKind::SetBg);
        lemma_count_two(set_bg_cmd(buf, row * w + (k - 1)), Cmd::PutSpace, CmdKind::PutSpace);
        lemma_count_two(set_bg_cmd(buf, row * w + (k - 1)), Cmd::PutSpace, CmdKind::NextLine);
        lemma_count_two(set_bg_cmd(buf, row * w + (k - 1)), Cmd::PutSpace, CmdKind::Flush);
    }
}

/// The first `r` rows plan exactly `r * w` set-background commands, as many
/// spaces, and `r - 1` line breaks (none when no row was planned).
proof fn lemma_rows_counts(buf: Seq<u8>, w: int, r: int)
    requires
        w >= 1,
        r >= 0,
    ensures
        count_kind(rows_cmds(buf, w, r), CmdKind::SetBg) == r * w,
        count_kind(rows_cmds(buf, w, r), CmdKind::PutSpace) == r * w,
        count_kind(rows_cmds(buf, w, r), CmdKind::NextLine) == if r == 0 {
            0int
        } else {
            r - 1
        },
        count_kind(rows_cmds(buf, w, r), CmdKind::Flush) == 0,
    decreases r,
{
    if r > 0 {
        lemma_rows_counts(buf, w, r - 1);
        lemma_row_counts(buf, w, r - 1, w);
        let brk = if r - 1 > 0 {
            seq![Cmd::NextLine]
        } else {
            Seq::<Cmd>::empty()
        };
        let tail = brk + row_cmds(buf, w, r - 1, w);
        assert(rows_cmds(buf, w, r) =~= rows_cmds(buf, w, r - 1) + tail);
        lemma_count_concat(rows_cmds(buf, w, r - 1), tail, CmdKind::SetBg);
        lemma_count_concat(rows_cmds(buf, w, r - 1), tail, CmdKind::PutSpace);
        lemma_count_concat(rows_cmds(buf, w, r - 1), tail, CmdKind::NextLine);
        lemma_count_concat(rows_cmds(buf, w, r - 1), tail, CmdKind::Flush);
        lemma_count_concat(brk, row_cmds(buf, w, r - 1, w), CmdKind::SetBg);
        lemma_count_concat(brk, row_cmds(buf, w, r - 1, w), CmdKind::PutSpace);
        lemma_count_concat(brk, row_cmds(buf, w, r - 1, w), CmdKind::NextLine);
        lemma_count_concat(brk, row_cmds(buf, w, r - 1, w), CmdKind::Flush);
        lemma_count_one(Cmd::NextLine, CmdKind::SetBg);
        lemma_count_one(Cmd::NextLine, CmdKind::PutSpace);
        lemma_count_one(Cmd::NextLine, CmdKind::NextLine);
        lemma_count_one(Cmd::NextLine, CmdKind::Flush);
        assert((r - 1) * w + w == r * w) by (nonlinear_arith);
    }
}

/// A planned frame holds exactly `w * h` set-background commands, each cell's
/// space with it, exactly `h - 1` line breaks, and exactly one flush.
pub proof fn lemma_render_counts(buf: Seq<u8>, w: int, h: int)
    requires
        w >= 1,
        h >= 1,
    ensures
        count_kind(spec_render(buf, w, h), CmdKind::SetBg) == w * h,
        count_kind(spec_render(buf, w, h), CmdKind::PutSpace) == w * h,
        count_kind(spec_render(buf, w, h), CmdKind::NextLine) == h - 1,
        count_kind(spec_render(buf, w, h), CmdKind::Flush) == 1,
{
    lemma_rows_counts(buf, w, h);
    let head = seq![Cmd::MoveHome, Cmd::ClearAll];
    let mid = rows_cmds(buf, w, h);
    let tail = seq![Cmd::Flush];
    lemma_count_concat(head, mid, CmdKind::SetBg);
    lemma_count_concat(head + mid, tail, CmdKind::SetBg);
    lemma_count_concat(head, mid, CmdKind::PutSpace);
    lemma_count_concat(head + mid, tail, CmdKind::PutSpace);
    lemma_count_concat(head, mid, CmdKind::NextLine);
    lemma_count_concat(head + mid, tail, CmdKind::NextLine);
    lemma_count_concat(head, mid, CmdKind::Flush);
    lemma_count_concat(head + mid, tail, CmdKind::Flush);
    lemma_count_two(Cmd::MoveHome, Cmd::ClearAll, CmdKind::SetBg);
    lemma_count_two(Cmd::MoveHome, Cmd::ClearAll, CmdKind::PutSpace);
    lemma_count_two(Cmd::MoveHome, Cmd::ClearAll, CmdKind::NextLine);
    lemma_count_two(Cmd::MoveHome, Cmd::ClearAll, CmdKind::Flush);
    lemma_count_one(Cmd::Flush, CmdKind::SetBg);
    lemma_count_one(Cmd::Flush, CmdKind::PutSpace);
    lemma_count_one(Cmd::Flush, CmdKind::NextLine);
    lemma_count_one(Cmd::Flush, CmdKind::Flush);
    assert(h * w == w * h) by (nonlinear_arith);
}

} // verus!
