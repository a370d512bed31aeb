//! The navigation tree: which nodes are on screen (collapsed nodes hide their children), the
//! compact prefix each row starts with, which rows a scrolled viewport shows and how their
//! labels are clipped, and how the mouse wheel moves the selection and the scroll.
use vstd::prelude::*;

use crate::command::string_views;
use crate::repo_config::contains_string;
use crate::tui::bios_combo::sat_sub;
use crate::tui::bios_textbox::Area;
use crate::tui::text_marquee::{
    LabelMarquee, MarqueeModel, MARQUEE_PAUSE_MS, clip_right, clip_window, overflow_of, spec_advance,
    spec_clip_right, spec_clip_window,
};
use crate::tui::width::{str_width, unicode_str_width};

verus! {

/// A node of the tree, with what drawing it reads: its id (the key of its collapsed state),
/// its label, the key its label scroll follows, and whether it is disabled.
#[derive(Debug)]
pub struct TreeItem {
    pub id: String,
    pub label: String,
    pub path_key: String,
    pub disabled: bool,
    pub children: Vec<TreeItem>,
}

/// Selection and scroll of the tree, and the ids of the collapsed nodes.
#[derive(Debug)]
pub struct TreeViewState {
    pub collapsed: Vec<String>,
    pub selected_index: usize,
    pub scroll: u16,
}

/// A node on screen: what it shows, whether it is the last of its siblings, and that flag for
/// each of its ancestors from the root down.
#[derive(Debug)]
pub struct FlatRow {
    pub id: String,
    pub label: String,
    pub path_key: String,
    pub disabled: bool,
    pub has_children: bool,
    pub is_last: bool,
    pub parent_is_last: Vec<bool>,
}

/// The ghost view of a `FlatRow`.
pub struct FlatModel {
    pub id: Seq<char>,
    pub label: Seq<char>,
    pub path_key: Seq<char>,
    pub disabled: bool,
    pub has_children: bool,
    pub is_last: bool,
    pub parent_is_last: Seq<bool>,
}

impl FlatRow {
    pub open spec fn model(&self) -> FlatModel {
        FlatModel {
            id: self.id@,
            label: self.label@,
            path_key: self.path_key@,
            disabled: self.disabled,
            has_children: self.has_children,
            is_last: self.is_last,
            parent_is_last: self.parent_is_last@,
        }
    }
}

/// The models of `rows`.
pub open spec fn flat_models(rows: Seq<FlatRow>) -> Seq<FlatModel> {
    rows.map_values(|r: FlatRow| r.model())
}

/// The ids of the collapsed nodes.
pub open spec fn collapsed_ids(state: TreeViewState) -> Seq<Seq<char>> {
    string_views(state.collapsed@)
}

/// The row of `item` itself.
pub open spec fn row_of(item: TreeItem, is_last: bool, parents: Seq<bool>) -> FlatModel {
    FlatModel {
        id: item.id@,
        label: item.label@,
        path_key: item.path_key@,
        disabled: item.disabled,
        has_children: item.children@.len() > 0,
        is_last,
        parent_is_last: parents,
    }
}

/// The rows of `item` and, unless it is collapsed, of its children below it.
pub open spec fn item_rows(item: TreeItem, is_last: bool, parents: Seq<bool>, collapsed: Seq<Seq<char>>) -> Seq<FlatModel>
    decreases item, 0int,
{
    let own = seq![row_of(item, is_last, parents)];
    if item.children@.len() > 0 && !collapsed.contains(item.id@) {
        own + level_rows(item.children@, item.children@.len() as int, parents.push(is_last), collapsed)
    } else {
        own
    }
}

/// The rows of the first `k` of the siblings `items`, in order, the last sibling of `items`
/// marked as such.
pub open spec fn level_rows(items: Seq<TreeItem>, k: int, parents: Seq<bool>, collapsed: Seq<Seq<char>>) -> Seq<FlatModel>
    decreases items, k,
{
    if k <= 0 || k > items.len() {
        Seq::empty()
    } else {
        level_rows(items, k - 1, parents, collapsed) + item_rows(items[k - 1], k - 1 == items.len() - 1, parents, collapsed)
    }
}

/// The rows on screen for the roots `nodes`: a pre-order walk that skips the children of
/// collapsed nodes.
pub open spec fn visible_rows(nodes: Seq<TreeItem>, collapsed: Seq<Seq<char>>) -> Seq<FlatModel> {
    level_rows(nodes, nodes.len() as int, Seq::empty(), collapsed)
}

/// Append to `result` the rows on screen of the siblings `nodes` whose ancestors' last-sibling
/// flags are `parents`.
fn flatten_nodes(nodes: &Vec<TreeItem>, state: &TreeViewState, parents: &Vec<bool>, result: &mut Vec<FlatRow>)
    ensures
        flat_models(final(result)@) == flat_models(old(result)@) + level_rows(
            nodes@,
            nodes@.len() as int,
            parents@,
            collapsed_ids(*state),
        ),
    decreases nodes@,
{
    let count = nodes.len();
    let mut idx: usize = 0;
    while idx < count
        invariant
            count == nodes@.len(),
            idx <= count,
            flat_models(result@) == flat_models(old(result)@) + level_rows(nodes@, idx as int, parents@, collapsed_ids(*state)),
        decreases count - idx,
    {
        let node = &nodes[idx];
        let is_last = idx == count - 1;
        let ghost before = result@;
        let row = FlatRow {
            id: node.id.clone(),
            label: node.label.clone(),
            path_key: node.path_key.clone(),
            disabled: node.disabled,
            has_children: node.children.len() > 0,
            is_last,
            parent_is_last: parents.clone(),
        };
        assert(row.parent_is_last@ =~= parents@);
        assert(row.model() == row_of(*node, is_last, parents@));
        result.push(row);
        assert(flat_models(result@) =~= flat_models(before).push(row_of(*node, is_last, parents@)));
        if node.children.len() > 0 && !contains_string(&state.collapsed, node.id.as_str()) {
            let mut next = parents.clone();
            next.push(is_last);
            assert(next@ =~= parents@.push(is_last));
            flatten_nodes(&node.children, state, &next, result);
        }
        assert(level_rows(nodes@, idx + 1, parents@, collapsed_ids(*state)) == level_rows(nodes@, idx as int, parents@, collapsed_ids(*state))
            + item_rows(nodes@[idx as int], idx == nodes@.len() - 1, parents@, collapsed_ids(*state)));
        idx += 1;
    }
}

/// The rows on screen for the roots `nodes`.
pub fn flatten_visible(nodes: &Vec<TreeItem>, state: &TreeViewState) -> (r: Vec<FlatRow>)
    ensures
        flat_models(r@) == visible_rows(nodes@, collapsed_ids(*state)),
{
    let mut result: Vec<FlatRow> = Vec::new();
    let parents: Vec<bool> = Vec::new();
    assert(parents@ =~= Seq::<bool>::empty());
    assert(flat_models(result@) =~= Seq::<FlatModel>::empty());
    flatten_nodes(nodes, state, &parents, &mut result);
    assert(flat_models(result@) =~= visible_rows(nodes@, collapsed_ids(*state)));
    result
}

/// The strings the tree draws before a label: connectors for each ancestor and for the node
/// itself, and the chevrons of collapsed and expanded nodes.
#[derive(Debug, Clone, Copy)]
pub struct TreeGlyphs {
    pub connector_branch: &'static str,
    pub connector_last: &'static str,
    pub connector_vertical: &'static str,
    pub connector_space: &'static str,
    pub collapsed_icon: &'static str,
    pub expanded_icon: &'static str,
}

/// Width of the expand/collapse chevron column, drawn in place of a chevron for a leaf.
pub const CHEVRON_SPACER: &'static str = "  ";

/// The compact file-explorer style: every connector is two blank columns, and chevrons mark
/// collapsed and expanded nodes.
pub open spec fn compact_glyphs() -> TreeGlyphs {
    TreeGlyphs {
        connector_branch: "  ",
        connector_last: "  ",
        connector_vertical: "  ",
        connector_space: "  ",
        collapsed_icon: "▶ ",
        expanded_icon: "▼ ",
    }
}

/// The glyphs of the compact style (see `compact_glyphs`).
pub fn tree_glyphs() -> (r: TreeGlyphs)
    ensures
        r == compact_glyphs(),
{
    TreeGlyphs {
        connector_branch: "  ",
        connector_last: "  ",
        connector_vertical: "  ",
        connector_space: "  ",
        collapsed_icon: "▶ ",
        expanded_icon: "▼ ",
    }
}

/// One connector per ancestor: blank under an ancestor that was the last of its siblings, a
/// vertical line otherwise.
pub open spec fn spec_connectors(g: TreeGlyphs, parents: Seq<bool>) -> Seq<char>
    decreases parents.len(),
{
    if parents.len() == 0 {
        Seq::empty()
    } else {
        spec_connectors(g, parents.drop_last()) + if parents.last() {
            g.connector_space@
        } else {
            g.connector_vertical@
        }
    }
}

/// What a row draws before its label: the ancestors' connectors, then for a node with children
/// its own connector and its chevron (collapsed or expanded), for a leaf the blank chevron
/// column.
pub open spec fn spec_prefix(g: TreeGlyphs, row: FlatModel, collapsed: Seq<Seq<char>>) -> Seq<char> {
    spec_connectors(g, row.parent_is_last) + if row.has_children {
        (if row.is_last {
            g.connector_last@
        } else {
            g.connector_branch@
        }) + if collapsed.contains(row.id) {
            g.collapsed_icon@
        } else {
            g.expanded_icon@
        }
    } else {
        CHEVRON_SPACER@
    }
}

/// The prefix of `row` drawn with `glyphs` (see `spec_prefix`).
pub fn build_prefix(glyphs: &TreeGlyphs, row: &FlatRow, state: &TreeViewState) -> (r: String)
    ensures
        r@ == spec_prefix(*glyphs, row.model(), collapsed_ids(*state)),
{
    let mut prefix = String::new();
    let mut i: usize = 0;
    assert(row.parent_is_last@.take(0) =~= Seq::<bool>::empty());
    while i < row.parent_is_last.len()
        invariant
            i <= row.parent_is_last@.len(),
            prefix@ == spec_connectors(*glyphs, row.parent_is_last@.take(i as int)),
        decreases row.parent_is_last.len() - i,
    {
        let connector = if row.parent_is_last[i] {
            glyphs.connector_space
        } else {
            glyphs.connector_vertical
        };
        assert(row.parent_is_last@.take(i + 1).drop_last() =~= row.parent_is_last@.take(i as int));
        prefix.append(connector);
        i += 1;
    }
    assert(row.parent_is_last@.take(i as int) =~= row.parent_is_last@);
    if row.has_children {
        let connector = if row.is_last {
            glyphs.connector_last
        } else {
            glyphs.connector_branch
        };
        prefix.append(connector);
        let icon = if contains_string(&state.collapsed, row.id.as_str()) {
            glyphs.collapsed_icon
        } else {
            glyphs.expanded_icon
        };
        prefix.append(icon);
    } else {
        prefix.append(CHEVRON_SPACER);
    }
    prefix
}

/// How many rows the tree shows when fully scrolled through.
pub fn visible_count(nodes: &Vec<TreeItem>, state: &TreeViewState) -> (r: usize)
    ensures
        r == visible_rows(nodes@, collapsed_ids(*state)).len(),
{
    flatten_visible(nodes, state).len()
}

/// The scroll that shows row `selected` in a viewport of `viewport_height` rows: scrolled up
/// to it when it is above, down so that it is the last row when it is below, unchanged when it
/// is in view.
pub open spec fn spec_ensure_visible(selected: usize, scroll: u16, viewport_height: usize) -> u16 {
    if selected < scroll {
        selected as u16
    } else if selected >= scroll + viewport_height {
        (selected - viewport_height + 1) as u16
    } else {
        scroll
    }
}

fn scroll_into_view(selected: usize, scroll: u16, viewport_height: usize) -> (r: u16)
    ensures
        r == spec_ensure_visible(selected, scroll, viewport_height),
{
    if selected < scroll as usize {
        selected as u16
    } else if selected - scroll as usize >= viewport_height {
        let d: usize = selected - viewport_height;
        let t: u16 = #[verifier::truncate] (d as u16);
        let r: u16 = if t == u16::MAX {
            0
        } else {
            t + 1
        };
        assert(r == (d + 1) as u16) by (bit_vector)
            requires
                t == d as u16,
                r == (if t == 0xffffu16 {
                    0u16
                } else {
                    (t + 1) as u16
                }),
        ;
        r
    } else {
        scroll
    }
}

impl TreeViewState {
    /// Scroll so that the selected row is inside a viewport of `viewport_height` rows (see
    /// `spec_ensure_visible`).
    pub fn ensure_visible(&mut self, viewport_height: usize)
        requires
            old(self).scroll + viewport_height <= usize::MAX,
        ensures
            final(self).scroll == spec_ensure_visible(old(self).selected_index, old(self).scroll, viewport_height),
            final(self).selected_index == old(self).selected_index,
            final(self).collapsed@ == old(self).collapsed@,
    {
        self.scroll = scroll_into_view(self.selected_index, self.scroll, viewport_height);
    }
}

/// The kind of a mouse event over the tree.
#[derive(Debug, Clone, Copy, PartialEq, Eq, Structural)]
pub enum MouseWheel {
    ScrollUp,
    ScrollDown,
    Other,
}

/// Whether the cell `(column, row)` lies in `area`.
pub open spec fn in_area(area: Area, column: u16, row: u16) -> bool {
    &&& area.width != 0
    &&& area.height != 0
    &&& area.x <= column < area.x + area.width
    &&& area.y <= row < area.y + area.height
}

/// Selection and scroll after a wheel step over a tree of `count` visible rows in a viewport
/// of `height` rows: up scrolls up one row, or once at the top moves the selection up; down
/// scrolls down one row while rows are hidden below, or then moves the selection down; either
/// way the selection is then scrolled into view, with the row count taken as the viewport.
pub open spec fn spec_wheel(selected: usize, scroll: u16, count: usize, height: u16, up: bool) -> (usize, u16) {
    let (sel, sc) = if up {
        if scroll > 0 {
            (selected, (scroll - 1) as u16)
        } else if selected > 0 {
            ((selected - 1) as usize, scroll)
        } else {
            (selected, scroll)
        }
    } else {
        let max_scroll = (if count > height {
            count - height
        } else {
            0
        }) as u16;
        if scroll < max_scroll {
            (selected, (scroll + 1) as u16)
        } else if selected + 1 < count {
            ((selected + 1) as usize, scroll)
        } else {
            (selected, scroll)
        }
    };
    (sel, spec_ensure_visible(sel, sc, count))
}

/// A wheel step keeps the selection on a row of the tree and scrolls it into view: with fewer
/// rows than the scroll offset can count, the selected row stays below the row count and at or
/// after the scroll offset.
pub proof fn law_wheel_keeps_selection_in_view(selected: usize, scroll: u16, count: usize, height: u16, up: bool)
    requires
        selected < count,
        count <= u16::MAX,
    ensures
        spec_wheel(selected, scroll, count, height, up).0 < count,
        spec_wheel(selected, scroll, count, height, up).1 <= spec_wheel(selected, scroll, count, height, up).0,
{
}

/// Handle a mouse event at `(column, row)` over the tree drawn in `inner`: a wheel step inside
/// the area over a non-empty tree moves the view (see `spec_wheel`) and is consumed; anything
/// else leaves the view as it is.
pub fn handle_tree_wheel(
    widget: &mut TreeViewState,
    nodes: &Vec<TreeItem>,
    inner: Area,
    column: u16,
    row: u16,
    kind: MouseWheel,
) -> (r: bool)
    requires
        inner.x + inner.width <= u16::MAX,
        inner.y + inner.height <= u16::MAX,
    ensures
        r == (in_area(inner, column, row) && visible_rows(nodes@, collapsed_ids(*old(widget))).len() > 0 && kind
            != MouseWheel::Other),
        r ==> (final(widget).selected_index, final(widget).scroll) == spec_wheel(
            old(widget).selected_index,
            old(widget).scroll,
            visible_rows(nodes@, collapsed_ids(*old(widget))).len() as usize,
            inner.height,
            kind == MouseWheel::ScrollUp,
        ),
        !r ==> final(widget).selected_index == old(widget).selected_index && final(widget).scroll == old(widget).scroll,
        final(widget).collapsed@ == old(widget).collapsed@,
{
    if inner.width == 0 || inner.height == 0 || column < inner.x || column >= inner.x + inner.width || row < inner.y
        || row >= inner.y + inner.height {
        return false;
    }
    let count = visible_count(nodes, widget);
    if count == 0 {
        return false;
    }
    match kind {
        MouseWheel::ScrollUp => {
            if widget.scroll > 0 {
                widget.scroll = widget.scroll - 1;
            } else if widget.selected_index > 0 {
                widget.selected_index = widget.selected_index - 1;
            }
            widget.scroll = scroll_into_view(widget.selected_index, widget.scroll, count);
            true
        },
        MouseWheel::ScrollDown => {
            let height = inner.height as usize;
            let max_scroll = (if count > height {
                count - height
            } else {
                0
            }) as u16;
            if widget.scroll < max_scroll {
                widget.scroll = widget.scroll + 1;
            } else if widget.selected_index < count - 1 {
                widget.selected_index = widget.selected_index + 1;
            }
            widget.scroll = scroll_into_view(widget.selected_index, widget.scroll, count);
            true
        },
        MouseWheel::Other => false,
    }
}

/// One row of the tree as drawn: its line, whether it is selected (highlighted across the row)
/// and disabled, the prefix drawn at the left edge, and the label with the column it starts at
/// (none when the prefix leaves no room).
#[derive(Debug)]
pub struct TreeRowPaint {
    pub y: u16,
    pub selected: bool,
    pub disabled: bool,
    pub prefix: String,
    pub label: Option<(u16, String)>,
}

/// The ghost view of a `TreeRowPaint`.
pub struct TreeRowModel {
    pub y: u16,
    pub selected: bool,
    pub disabled: bool,
    pub prefix: Seq<char>,
    pub label: Option<(u16, Seq<char>)>,
}

impl TreeRowPaint {
    pub open spec fn model(&self) -> TreeRowModel {
        TreeRowModel {
            y: self.y,
            selected: self.selected,
            disabled: self.disabled,
            prefix: self.prefix@,
            label: match self.label {
                Some((x, text)) => Some((x, text@)),
                None => None,
            },
        }
    }
}

/// The columns left for the label of `row` in an area `width` columns wide.
pub open spec fn row_label_cols(width: u16, row: FlatModel, collapsed: Seq<Seq<char>>) -> usize {
    sat_sub(width, unicode_str_width(spec_prefix(compact_glyphs(), row, collapsed)) as u16) as usize
}

/// The marquee offset the selected `row` is painted at (see `spec_advance`).
pub open spec fn row_offset(m: MarqueeModel, width: u16, row: FlatModel, collapsed: Seq<Seq<char>>, now: u64) -> usize {
    spec_advance(m, row.path_key, overflow_of(row.label, row_label_cols(width, row, collapsed)), now).1
}

/// How many rows a viewport of `height` rows scrolled by `scroll` shows of `count`.
pub open spec fn shown_rows(height: u16, count: nat, scroll: u16) -> nat {
    if scroll >= count {
        0
    } else if count - scroll < height {
        (count - scroll) as nat
    } else {
        height as nat
    }
}

/// Row `i` of the viewport showing `row`: the selected row's label scrolls by `offset` columns
/// when it overflows, any other label is cut with an ellipsis.
pub open spec fn spec_tree_row(
    area: Area,
    row: FlatModel,
    i: int,
    selected: bool,
    collapsed: Seq<Seq<char>>,
    offset: usize,
) -> TreeRowModel {
    let prefix = spec_prefix(compact_glyphs(), row, collapsed);
    let lw = row_label_cols(area.width, row, collapsed);
    TreeRowModel {
        y: (area.y + i) as u16,
        selected,
        disabled: row.disabled,
        prefix,
        label: if lw == 0 {
            None
        } else {
            Some(
                (
                    (area.x + (unicode_str_width(prefix) as u16)) as u16,
                    if !selected {
                        spec_clip_right(row.label, lw)
                    } else if unicode_str_width(row.label) > lw {
                        spec_clip_window(row.label, offset, lw)
                    } else {
                        row.label
                    },
                ),
            )
        },
    }
}

/// Whether the selected row is drawn with a label among the first `n` rows of the viewport,
/// so that its marquee steps.
pub open spec fn selection_scrolls(area: Area, rows: Seq<FlatModel>, state: TreeViewState, n: nat) -> bool {
    &&& state.scroll <= state.selected_index < state.scroll + n
    &&& row_label_cols(area.width, rows[state.selected_index as int], collapsed_ids(state)) > 0
}

/// The rows of the tree drawn in `area` at time `now` (milliseconds): the visible rows from the
/// scroll offset on, one per line, each with its prefix and its label clipped to what is left
/// of the line; the selected row's overflowing label scrolls with `marquee`, which steps once
/// when that row is drawn with a label and is left alone otherwise.
pub fn clipped_tree_rows(
    area: Area,
    nodes: &Vec<TreeItem>,
    state: &TreeViewState,
    marquee: &mut LabelMarquee,
    now: u64,
) -> (r: Vec<TreeRowPaint>)
    requires
        area.x + area.width <= u16::MAX,
        area.y + area.height <= u16::MAX,
        now + MARQUEE_PAUSE_MS <= u64::MAX,
    ensures
        ({
            let rows = visible_rows(nodes@, collapsed_ids(*state));
            let n = if area.width == 0 || area.height == 0 {
                0
            } else {
                shown_rows(area.height, rows.len(), state.scroll)
            };
            &&& r@.len() == n
            &&& forall|i: int|
                0 <= i < n ==> #[trigger] r@[i].model() == spec_tree_row(
                    area,
                    rows[state.scroll + i],
                    i,
                    state.scroll + i == state.selected_index,
                    collapsed_ids(*state),
                    row_offset(old(marquee)@, area.width, rows[state.scroll + i], collapsed_ids(*state), now),
                )
            &&& final(marquee)@ == if selection_scrolls(area, rows, *state, n) {
                spec_advance(
                    old(marquee)@,
                    rows[state.selected_index as int].path_key,
                    overflow_of(
                        rows[state.selected_index as int].label,
                        row_label_cols(area.width, rows[state.selected_index as int], collapsed_ids(*state)),
                    ),
                    now,
                ).0
            } else {
                old(marquee)@
            }
        }),
{
    let mut out: Vec<TreeRowPaint> = Vec::new();
    if area.width == 0 || area.height == 0 {
        return out;
    }
    let glyphs = tree_glyphs();
    let flat_nodes = flatten_visible(nodes, state);
    let count = flat_nodes.len();
    if count == 0 {
        return out;
    }
    let ghost rows = visible_rows(nodes@, collapsed_ids(*state));
    let ghost c = collapsed_ids(*state);
    let ghost m0 = marquee@;
    let scroll = state.scroll as usize;
    let n: usize = if scroll >= count {
        0
    } else if count - scroll < area.height as usize {
        count - scroll
    } else {
        area.height as usize
    };
    let mut row_idx: usize = 0;
    while row_idx < n
        invariant
            flat_models(flat_nodes@) == rows,
            rows == visible_rows(nodes@, collapsed_ids(*state)),
            c == collapsed_ids(*state),
            count == rows.len(),
            scroll == state.scroll,
            n == shown_rows(area.height, rows.len(), state.scroll),
            n <= area.height,
            n == 0 || scroll + n <= count,
            area.width > 0,
            glyphs == compact_glyphs(),
            area.x + area.width <= u16::MAX,
            area.y + area.height <= u16::MAX,
            now + MARQUEE_PAUSE_MS <= u64::MAX,
            row_idx <= n,
            out@.len() == row_idx,
            forall|i: int|
                0 <= i < row_idx ==> #[trigger] out@[i].model() == spec_tree_row(
                    area,
                    rows[state.scroll + i],
                    i,
                    state.scroll + i == state.selected_index,
                    c,
                    row_offset(m0, area.width, rows[state.scroll + i], c, now),
                ),
            marquee@ == if selection_scrolls(area, rows, *state, row_idx as nat) {
                spec_advance(
                    m0,
                    rows[state.selected_index as int].path_key,
                    overflow_of(rows[state.selected_index as int].label, row_label_cols(area.width, rows[state.selected_index as int], c)),
                    now,
                ).0
            } else {
                m0
            },
        decreases n - row_idx,
    {
        let k = scroll + row_idx;
        let flat = &flat_nodes[k];
        assert(flat.model() == rows[k as int]);
        let is_selected = k == state.selected_index;
        let prefix = build_prefix(&glyphs, flat, state);
        let prefix_width = str_width(prefix.as_str());
        let pw16: u16 = #[verifier::truncate] (prefix_width as u16);
        let label_width: usize = if area.width >= pw16 {
            (area.width - pw16) as usize
        } else {
            0
        };
        assert(label_width == row_label_cols(area.width, rows[k as int], c));
        let y = area.y + row_idx as u16;
        if label_width == 0 {
            out.push(TreeRowPaint { y, selected: is_selected, disabled: flat.disabled, prefix, label: None });
        } else {
            let text = flat.label.as_str();
            let clipped = if is_selected {
                let offset = marquee.advance(flat.path_key.as_str(), text, label_width, now);
                if str_width(text) > label_width {
                    clip_window(text, offset, label_width)
                } else {
                    text.to_owned()
                }
            } else {
                clip_right(text, label_width)
            };
            let x = area.x + pw16;
            out.push(TreeRowPaint { y, selected: is_selected, disabled: flat.disabled, prefix, label: Some((x, clipped)) });
        }
        assert(out@[row_idx as int].model() == spec_tree_row(
            area,
            rows[state.scroll + row_idx],
            row_idx as int,
            state.scroll + row_idx == state.selected_index,
            c,
            row_offset(m0, area.width, rows[state.scroll + row_idx], c, now),
        ));
        row_idx += 1;
    }
    out
}

} // verus!
