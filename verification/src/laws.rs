//! Laws of the history and of the session, proved over their mathematical models.

use vstd::prelude::*;
use crate::geometry::Point;
use crate::history::{all_valid, HistoryModel};
use crate::item::ItemModel;
use crate::input::{pressed_tools, CanvasInput, FrameInput, Shortcuts, ToolbarEvent};
use crate::model::AppModel;
use crate::seq_lemmas::{lemma_filter_count, lemma_filter_same, lemma_filter_twice};
use crate::tool::{
    crossings, passthrough_after, passthrough_edge, path_commands, tool_after, PlatformCommand,
    Tool,
};

verus! {

/// Committing valid items to any history appends them in order; unless there was nothing to
/// commit, the redo stack ends up empty.
pub proof fn law_commit_all(start: HistoryModel, commits: Seq<ItemModel>)
    requires
        all_valid(commits),
    ensures
        start.commit_all(commits).items == start.items + commits,
        start.commit_all(commits).redo == if commits.len() == 0 {
            start.redo
        } else {
            Seq::empty()
        },
    decreases commits.len(),
{
    if commits.len() > 0 {
        law_commit_all(start, commits.drop_last());
    }
}

/// Undoing `count` times, with at least that many items committed, removes the last `count`
/// items and puts them on the redo stack in the order of their removal: the most recently
/// committed first, the most recently undone last.
pub proof fn law_undo_times(start: HistoryModel, count: nat)
    requires
        count <= start.items.len(),
    ensures
        start.undo_times(count).items == start.items.take(start.items.len() - count),
        start.undo_times(count).redo == start.redo + start.items.skip(
            start.items.len() - count,
        ).reverse(),
    decreases count,
{
    if count > 0 {
        law_undo_times(start, (count - 1) as nat);
    }
}

/// Commits followed by undos. After the valid items `commits` (C1 to Cn) are committed to
/// `start` and undo is called `count` (k, at most n) times, the committed items are those of
/// `start` followed by C1 to C(n-k), and the redo stack holds Cn, C(n-1), down to C(n-k+1), in
/// that order, on top of nothing: the commits emptied whatever `start` held there (where
/// nothing was committed, and so nothing undone, the redo stack is that of `start`).
pub proof fn law_commits_then_undos(start: HistoryModel, commits: Seq<ItemModel>, count: nat)
    requires
        all_valid(commits),
        count <= commits.len(),
    ensures
        start.commit_all(commits).undo_times(count).items == start.items + commits.take(
            commits.len() - count,
        ),
        start.commit_all(commits).undo_times(count).redo == (if commits.len() == 0 {
            start.redo
        } else {
            Seq::empty()
        }) + commits.skip(commits.len() - count).reverse(),
{
    law_commit_all(start, commits);
    law_undo_times(start.commit_all(commits), count);
}

/// Redo after undo restores the history exactly, both the committed items and the redo stack.
/// The one case left out is a history with nothing committed and something to redo: there
/// undo does nothing and redo then brings an item back.
pub proof fn law_undo_then_redo(h: HistoryModel)
    requires
        h.items.len() > 0 || h.redo.len() == 0,
    ensures
        h.undo().redo() == h,
{
    if h.items.len() > 0 {
        assert(h.items.drop_last().push(h.items.last()) =~= h.items);
        assert(h.redo.push(h.items.last()).drop_last() =~= h.redo);
    }
}

/// Undo after redo restores the history exactly. The one case left out is a history with
/// nothing to redo and something committed: there redo does nothing and undo then removes an
/// item.
pub proof fn law_redo_then_undo(h: HistoryModel)
    requires
        h.redo.len() > 0 || h.items.len() == 0,
    ensures
        h.redo().undo() == h,
{
    if h.redo.len() > 0 {
        assert(h.redo.drop_last().push(h.redo.last()) =~= h.redo);
        assert(h.items.push(h.redo.last()).drop_last() =~= h.items);
    }
}

/// Undo and redo only move the boundary between the committed and the undone items: the
/// timeline, which lists the committed items and then the undone ones in the order of their
/// commits, stays as it is, and the boundary moves by one item where there is one to move.
pub proof fn law_timeline_kept(h: HistoryModel)
    ensures
        h.undo().timeline() == h.timeline(),
        h.redo().timeline() == h.timeline(),
        h.items.len() > 0 ==> h.undo().items.len() == h.items.len() - 1,
        h.items.len() == 0 ==> h.undo() == h,
        h.redo.len() > 0 ==> h.redo().items.len() == h.items.len() + 1,
        h.redo.len() == 0 ==> h.redo() == h,
{
}

/// Committing a valid item after any number of undos leaves nothing to redo: the item lies on
/// top of what the undos left, and redo then changes nothing.
pub proof fn law_commit_clears_redo(h: HistoryModel, count: nat, item: ItemModel)
    requires
        item.valid(),
    ensures
        h.undo_times(count).commit(item).redo == Seq::<ItemModel>::empty(),
        h.undo_times(count).commit(item).items == h.undo_times(count).items.push(item),
        h.undo_times(count).commit(item).redo() == h.undo_times(count).commit(item),
{
}

/// An invalid item (a stroke of fewer than two points, a polygon of fewer than three
/// vertices, a line without thickness) is never stored: committing it changes nothing.
pub proof fn law_invalid_commit_discarded(h: HistoryModel, item: ItemModel)
    requires
        !item.valid(),
    ensures
        h.commit(item) == h,
{
}

/// Every operation of the history keeps it free of malformed items.
pub proof fn law_history_stays_valid(h: HistoryModel, item: ItemModel, center: Point, radius: u32)
    requires
        h.wf(),
    ensures
        h.commit(item).wf(),
        h.undo().wf(),
        h.redo().wf(),
        h.clear().wf(),
        h.erase(center, radius).wf(),
{
    lemma_erase_keeps_valid(h.items, center, radius);
}

/// What the eraser leaves of valid items are valid items.
proof fn lemma_erase_keeps_valid(items: Seq<ItemModel>, center: Point, radius: u32)
    requires
        all_valid(items),
    ensures
        all_valid(items.filter(|item: ItemModel| !item.hit(center, radius))),
{
    let miss = |item: ItemModel| !item.hit(center, radius);
    let left = items.filter(miss);
    assert forall|i: int| 0 <= i < left.len() implies (#[trigger] left[i]).valid() by {
        items.lemma_filter_contains_rev(miss, left[i]);
    }
}

/// The eraser removes exactly the items it touches. Of the committed items, those with a
/// constituent point within the radius of `center` (the rim included) are gone, each as often
/// as it occurred; every other item is still there, as often as before. The redo stack is
/// untouched.
pub proof fn law_erase_exact(h: HistoryModel, center: Point, radius: u32, item: ItemModel)
    ensures
        h.erase(center, radius).redo == h.redo,
        h.erase(center, radius).items.to_multiset().count(item) == if item.hit(center, radius) {
            0
        } else {
            h.items.to_multiset().count(item)
        },
        h.erase(center, radius).items.contains(item) <==> h.items.contains(item) && !item.hit(
            center,
            radius,
        ),
{
    broadcast use vstd::seq_lib::group_to_multiset_ensures;

    let miss = |it: ItemModel| !it.hit(center, radius);
    lemma_filter_count(h.items, miss, item);
}

/// What the eraser leaves does not depend on the order of the items: two histories with the
/// same committed items in any order are left with the same items, and erasing a list is
/// erasing its parts.
pub proof fn law_erase_any_order(a: HistoryModel, b: HistoryModel, center: Point, radius: u32)
    ensures
        a.items.to_multiset() == b.items.to_multiset() ==> a.erase(
            center,
            radius,
        ).items.to_multiset() == b.erase(center, radius).items.to_multiset(),
        (HistoryModel { items: a.items + b.items, redo: a.redo }).erase(center, radius).items
            == a.erase(center, radius).items + b.erase(center, radius).items,
{
    let miss = |it: ItemModel| !it.hit(center, radius);
    if a.items.to_multiset() == b.items.to_multiset() {
        let left = a.items.filter(miss).to_multiset();
        let right = b.items.filter(miss).to_multiset();
        assert forall|x: ItemModel| left.count(x) == right.count(x) by {
            lemma_filter_count(a.items, miss, x);
            lemma_filter_count(b.items, miss, x);
        }
    }
    Seq::filter_distributes_over_add(a.items, b.items, miss);
}

/// Eraser samples do not interfere: a second sample at the same place removes nothing more,
/// and two samples remove the same items in either order.
pub proof fn law_erase_samples(
    h: HistoryModel,
    center: Point,
    radius: u32,
    other_center: Point,
    other_radius: u32,
)
    ensures
        h.erase(center, radius).erase(center, radius) == h.erase(center, radius),
        h.erase(center, radius).erase(other_center, other_radius) == h.erase(
            other_center,
            other_radius,
        ).erase(center, radius),
{
    let miss = |item: ItemModel| !item.hit(center, radius);
    let other_miss = |item: ItemModel| !item.hit(other_center, other_radius);
    lemma_filter_twice(h.items, miss, miss);
    lemma_filter_same(h.items, |x: ItemModel| miss(x) && miss(x), miss);
    lemma_filter_twice(h.items, miss, other_miss);
    lemma_filter_twice(h.items, other_miss, miss);
    lemma_filter_same(
        h.items,
        |x: ItemModel| miss(x) && other_miss(x),
        |x: ItemModel| other_miss(x) && miss(x),
    );
}

/// A tool change owes a passthrough command exactly when it crosses between the mouse tool
/// and another tool, and the command then carries the setting of the new tool. A change that
/// stays on one side owes nothing.
pub proof fn law_passthrough_edge(from: Tool, to: Tool)
    ensures
        passthrough_edge(from, to) is Some <==> ((from == Tool::Mouse) != (to == Tool::Mouse)),
        passthrough_edge(from, to) is Some ==> passthrough_edge(from, to)
            == Some(PlatformCommand::SetPassthrough(to == Tool::Mouse)),
{
}

/// Along any sequence of tool changes there is exactly one passthrough command for each
/// change that crosses between the mouse tool and another tool and none for the others; and a
/// platform that starts in step with the first tool and carries the commands out is in step
/// with the last.
pub proof fn law_passthrough_once_per_crossing(from: Tool, path: Seq<Tool>)
    ensures
        path_commands(from, path).len() == crossings(from, path),
        passthrough_after(from.passthrough(), path_commands(from, path)) == tool_after(
            from,
            path,
        ).passthrough(),
    decreases path.len(),
{
    if path.len() > 0 {
        let front = path.drop_last();
        law_passthrough_once_per_crossing(from, front);
        let before = path_commands(from, front);
        match passthrough_edge(tool_after(from, front), path.last()) {
            Some(command) => {
            },
            None => {},
        }
    }
}

/// A frame of keyboard shortcuts selects the tools whose keys were pressed in the order pen,
/// polygon, text, mouse, eraser. It owes one command for each of these changes that crosses
/// between the mouse tool and another tool; carried out, the commands leave the platform in
/// step with the tool that ends up active.
pub proof fn law_shortcuts_keep_passthrough_in_step(s: AppModel, keys: Shortcuts)
    ensures
        s.handle_shortcuts(keys).tool == tool_after(s.tool, pressed_tools(keys)),
        s.shortcut_commands(keys).len() == crossings(s.tool, pressed_tools(keys)),
        passthrough_after(s.passthrough(), s.shortcut_commands(keys)) == s.handle_shortcuts(
            keys,
        ).passthrough(),
{
    let pen = if keys.pen { seq![Tool::Pen] } else { Seq::empty() };
    let polygon = if keys.polygon { seq![Tool::Polygon] } else { Seq::empty() };
    let text = if keys.text { seq![Tool::Text] } else { Seq::empty() };
    let mouse = if keys.mouse { seq![Tool::Mouse] } else { Seq::empty() };
    let eraser = if keys.eraser { seq![Tool::Eraser] } else { Seq::empty() };
    law_passthrough_once_per_crossing(s.tool, pressed_tools(keys));
}

/// Clear empties the committed items, the redo stack, the pen stroke in progress and the
/// open polygon at once, and leaves the settings alone.
pub proof fn law_clear_empties_everything(s: AppModel)
    ensures
        s.clear().history.items.len() == 0,
        s.clear().history.redo.len() == 0,
        s.clear().drawing.len() == 0,
        s.clear().polygon_points.len() == 0,
        s.clear().tool == s.tool,
        s.clear().palette == s.palette,
        s.clear().active_color == s.active_color,
        s.clear().thickness == s.thickness,
        s.clear().eraser_size == s.eraser_size,
        s.clear().text_draft == s.text_draft,
{
}

/// A pen drag that ends with fewer than two points in the buffer commits nothing, and the
/// finish signal on fewer than three vertices changes nothing at all.
pub proof fn law_short_gestures_commit_nothing(s: AppModel, input: CanvasInput)
    ensures
        s.pen_buffer(input).len() < 2 ==> s.pen_input(input).history == s.history,
        s.polygon_points.len() < 3 ==> s.finish_polygon() == s,
{
}

/// A click under the polygon tool adds its position to the one open polygon and commits
/// nothing; only the finish signal commits, and it commits the vertices in click order as a
/// single polygon.
pub proof fn law_polygon_clicks_extend(s: AppModel, input: CanvasInput)
    requires
        s.wf(),
        s.tool == Tool::Polygon,
    ensures
        s.draw_canvas(input).history == s.history,
        input.clicked && input.pointer is Some ==> s.draw_canvas(input).polygon_points
            == s.polygon_points.push(input.pointer->0),
        !(input.clicked && input.pointer is Some) ==> s.draw_canvas(input) == s,
        s.polygon_points.len() >= 3 ==> s.finish_polygon().history.items
            == s.history.items.push(s.open_polygon())
            && s.finish_polygon().history.redo.len() == 0
            && s.finish_polygon().polygon_points.len() == 0,
{
}

/// Every transition of the session keeps it well formed; in particular no transition stores
/// a stroke of fewer than two points or a polygon of fewer than three vertices.
pub proof fn law_session_stays_valid(s: AppModel, input: FrameInput, event: ToolbarEvent)
    requires
        s.wf(),
    ensures
        s.handle_shortcuts(input.keys).wf(),
        s.draw_canvas(input.canvas).wf(),
        s.update(input).wf(),
        s.toolbar(event).wf(),
{
    lemma_canvas_stays_valid(s, input.canvas);
    lemma_canvas_stays_valid(s.handle_shortcuts(input.keys), input.canvas);
}

/// Pointer input on the canvas keeps the session well formed.
proof fn lemma_canvas_stays_valid(s: AppModel, input: CanvasInput)
    requires
        s.wf(),
    ensures
        s.draw_canvas(input).wf(),
{
    if input.pointer is Some {
        lemma_erase_keeps_valid(s.history.items, input.pointer->0, s.eraser_size);
    }
}

} // verus!
