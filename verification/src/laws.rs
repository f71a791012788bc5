//! Laws of the editing core, stated over the relations the operations
//! promise in their contracts and proved once and for all.

use vstd::prelude::*;

verus! {

use crate::buffer::buffer::{Buffer, Cursor, Mode};
use crate::buffer::error::Error;
use crate::buffer::manipulation::{
    char_added,
    char_removed,
    line_opened,
    sel_bottom,
    sel_top,
    visual_lines_after,
};
use crate::buffer::navigation::{clamp_int, cursor_moved};
use crate::keybinding::actions::NewLineDirection;

/// A purely vertical move followed by another one leaves the column at
/// `min(desired_x, line length)` of the row it landed on: re-clamping
/// is idempotent, so the remembered column survives any number of
/// vertical moves.
pub proof fn lemma_vertical_move_reclamps_column(b1: Buffer, b2: Buffer, b3: Buffer, dy: i32)
    requires
        b1.wf(),
        b1.mode == Mode::Normal || b1.mode == Mode::Visual,
        cursor_moved(b1, b2, 0, dy),
        cursor_moved(b2, b3, 0, 0),
    ensures
        b3.cursor.y == b2.cursor.y,
        b3.cursor.x == vstd::math::min(
            b1.cursor.desired_x as int,
            b1.lines()[b2.cursor.y as int].len() as int,
        ),
        b3.cursor.x == b2.cursor.x,
{
    assert(b2.cursor.y == clamp_int(b1.cursor.y + dy, 0, b1.content@.len() - 1));
    assert(0 <= b2.cursor.y < b1.content@.len());
    assert(b3.cursor.y == clamp_int(b2.cursor.y + 0, 0, b2.content@.len() - 1));
}

/// Inserting a character and removing it again at the resulting cursor
/// restores the content and the cursor: in insert mode `add_char` and
/// `remove_char` are inverse, at any position and for any character.
pub proof fn lemma_add_remove_char_restores(
    b1: Buffer,
    b2: Buffer,
    b3: Buffer,
    c: char,
    r1: Result<(), Error>,
    r2: Result<(), Error>,
)
    requires
        b1.wf(),
        b1.mode == Mode::Insert,
        char_added(b1, b2, c, r1),
        char_removed(b2, b3, r2),
    ensures
        b3.lines() == b1.lines(),
        b3.cursor == b1.cursor,
        b3.mode == Mode::Insert,
{
    let y = b1.cursor.y as int;
    let x = b1.cursor.x as int;
    let added = b1.lines().update(y, b1.lines()[y].insert(x, c));
    assert(b2.lines() == added);
    assert(b2.cursor.x == x + 1);
    assert(b3.lines() == added.update(y, added[y].remove(x + 1 - 1)));
    assert(added[y].remove(x) =~= b1.lines()[y]);
    assert(added.update(y, added[y].remove(x)) =~= b1.lines());
}

/// Splitting a line and deleting backwards at the start of the new line
/// joins it back: in insert mode `new_line` under and `remove_char` at
/// the fresh line's start restore the content and the cursor, for any
/// split offset.  (Only the viewport may differ: the split slides it
/// after the cursor, the join does not slide it back.)
pub proof fn lemma_split_join_restores(b1: Buffer, b2: Buffer, b3: Buffer, r2: Result<(), Error>)
    requires
        b1.wf(),
        b1.mode == Mode::Insert,
        line_opened(b1, b2, NewLineDirection::Under),
        char_removed(b2, b3, r2),
    ensures
        b3.lines() == b1.lines(),
        b3.cursor.x == b1.cursor.x,
        b3.cursor.y == b1.cursor.y,
        b3.mode == Mode::Insert,
{
    let y = b1.cursor.y as int;
    let k = b1.cursor.x as int;
    let line = b1.lines()[y];
    let split = b1.lines().update(y, line.take(k)).insert(y + 1, line.skip(k));
    assert(b2.lines() == split);
    assert(b2.cursor.y == y + 1 && b2.cursor.x == 0);
    assert(split[y] == line.take(k));
    assert(split[y + 1] == line.skip(k));
    assert(b3.lines() == split.remove(y + 1).update(y, split[y + 1 - 1] + split[y + 1]));
    assert(line.take(k) + line.skip(k) =~= line);
    assert(split.remove(y + 1).update(y, split[y] + split[y + 1]) =~= b1.lines());
    assert(b3.cursor.x == split[y + 1 - 1].len());
}

/// One normal-mode forward delete as `remove_char` promises it: the
/// character under the cursor goes, and the cursor steps left only when
/// it would otherwise fall past the end of the shortened line.  The
/// pair is (line, cursor column).
pub open spec fn forward_delete(line: Seq<char>, x: int) -> (Seq<char>, int) {
    if x < line.len() {
        let shorter = line.remove(x);
        if shorter.len() > 0 && x >= shorter.len() - 1 && x > 0 {
            (shorter, x - 1)
        } else {
            (shorter, x)
        }
    } else if x == line.len() && line.len() > 0 {
        (line, x - 1)
    } else {
        (line, x)
    }
}

/// `n` normal-mode forward deletes in a row.
pub open spec fn forward_deletes(line: Seq<char>, x: int, n: nat) -> (Seq<char>, int)
    decreases n,
{
    if n == 0 {
        (line, x)
    } else {
        let prev = forward_deletes(line, x, (n - 1) as nat);
        forward_delete(prev.0, prev.1)
    }
}

/// `forward_delete` is exactly what one normal-mode `remove_char` does
/// to the cursor's line and column on an editable buffer.
pub proof fn lemma_forward_delete_is_remove_char(pre: Buffer, post: Buffer, r: Result<(), Error>)
    requires
        pre.wf(),
        pre.mode == Mode::Normal,
        pre.state.mutable,
        char_removed(pre, post, r),
    ensures
        post.cursor.y == pre.cursor.y,
        post.lines() == pre.lines().update(
            pre.cursor.y as int,
            forward_delete(pre.lines()[pre.cursor.y as int], pre.cursor.x as int).0,
        ),
        post.cursor.x == forward_delete(pre.lines()[pre.cursor.y as int], pre.cursor.x as int).1,
{
    let y = pre.cursor.y as int;
    let line = pre.lines()[y];
    if pre.cursor.x >= line.len() {
        assert(pre.lines().update(y, line) =~= pre.lines());
        assert(post.lines() =~= pre.lines());
    }
}

/// As long as the deleted span stops short of the line end, `n`
/// forward deletes at `a` remove exactly the `n` characters starting at
/// `a`; the cursor can drift left only on the very last delete, and
/// only when the span ends on the line's second-to-last character.
proof fn lemma_forward_deletes_span(line: Seq<char>, a: int, n: nat)
    requires
        0 <= a,
        a + n < line.len(),
    ensures
        forward_deletes(line, a, n).0 =~= line.take(a) + line.skip(a + n),
        forward_deletes(line, a, n).1 == a || (forward_deletes(line, a, n).1 == a - 1 && a + n
            == line.len() - 1),
    decreases n,
{
    if n == 0 {
        assert(line.take(a) + line.skip(a) =~= line);
    } else {
        lemma_forward_deletes_span(line, a, (n - 1) as nat);
        let prev = forward_deletes(line, a, (n - 1) as nat);
        assert(prev.0 == line.take(a) + line.skip(a + n - 1));
        assert(prev.1 == a);
        assert(prev.0.remove(a) =~= line.take(a) + line.skip(a + n));
    }
}

/// Deleting a one-line visual selection `[a, b]` produces the same line
/// as `b - a + 1` repeated normal-mode forward deletes at column `a`,
/// as long as the selection stops short of the line end.  (A selection
/// reaching the line end is excluded: there the repeated deletes let
/// the cursor drift left, and a selection of the whole line removes the
/// line itself.)
pub proof fn lemma_visual_single_line_matches_deletes(
    lines: Seq<Seq<char>>,
    top: Cursor,
    bottom: Cursor,
)
    requires
        top.y == bottom.y < lines.len(),
        top.x <= bottom.x,
        bottom.x < lines[top.y as int].len() - 1,
    ensures
        visual_lines_after(lines, top, bottom) == lines.update(
            top.y as int,
            forward_deletes(lines[top.y as int], top.x as int, (bottom.x - top.x + 1) as nat).0,
        ),
{
    let line = lines[top.y as int];
    let a = top.x as int;
    let n = (bottom.x - top.x + 1) as nat;
    lemma_forward_deletes_span(line, a, n);
    assert(visual_lines_after(lines, top, bottom) == lines.update(
        top.y as int,
        line.take(a) + line.skip(bottom.x + 1),
    ));
    assert(forward_deletes(line, a, n).0 =~= line.take(a) + line.skip(bottom.x + 1));
}

/// A visual selection that spans several lines collapses the selected
/// range to exactly one line: the untouched prefix of the first
/// selected line followed by the untouched suffix of the last.
pub proof fn lemma_visual_multi_line_collapses(
    lines: Seq<Seq<char>>,
    anchor: Cursor,
    cursor: Cursor,
)
    requires
        sel_top(anchor, cursor).y < sel_bottom(anchor, cursor).y,
        sel_bottom(anchor, cursor).y < lines.len(),
        sel_top(anchor, cursor).x <= lines[sel_top(anchor, cursor).y as int].len(),
    ensures
        ({
            let top = sel_top(anchor, cursor);
            let bottom = sel_bottom(anchor, cursor);
            let first = lines[top.y as int];
            let last = lines[bottom.y as int];
            let suffix_from = if bottom.x + 1 <= last.len() {
                bottom.x + 1
            } else {
                last.len() as int
            };
            let after = visual_lines_after(lines, top, bottom);
            &&& after.len() == lines.len() - (bottom.y - top.y)
            &&& after[top.y as int] == first.take(top.x as int) + last.skip(suffix_from)
        }),
{
    let top = sel_top(anchor, cursor);
    let bottom = sel_bottom(anchor, cursor);
    let after = visual_lines_after(lines, top, bottom);
    assert(after[top.y as int] == lines.take(top.y as int).push(
        lines[top.y as int].take(top.x as int) + lines[bottom.y as int].skip(
            if bottom.x + 1 <= lines[bottom.y as int].len() {
                bottom.x + 1
            } else {
                lines[bottom.y as int].len() as int
            },
        ),
    )[top.y as int]);
}

} // verus!
