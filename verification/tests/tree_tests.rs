use drot::tui::bios_textbox::Area;
use drot::tui::scrollable_tree::{
    MouseWheel, TreeItem, TreeViewState, build_prefix, clipped_tree_rows, flatten_visible, handle_tree_wheel,
    tree_glyphs, visible_count,
};
use drot::tui::text_marquee::LabelMarquee;

fn item(id: &str, label: &str, children: Vec<TreeItem>) -> TreeItem {
    TreeItem {
        id: id.to_owned(),
        label: label.to_owned(),
        path_key: format!("key/{id}"),
        disabled: id == "b",
        children,
    }
}

fn sample_tree() -> Vec<TreeItem> {
    vec![
        item("a", "Alpha", vec![item("a1", "Alpha one", Vec::new()), item("a2", "Alpha two", Vec::new())]),
        item("b", "Beta", Vec::new()),
    ]
}

fn state(collapsed: &[&str], selected_index: usize, scroll: u16) -> TreeViewState {
    TreeViewState { collapsed: collapsed.iter().map(|s| s.to_string()).collect(), selected_index, scroll }
}

#[test]
fn collapsed_nodes_hide_their_children() {
    let nodes = sample_tree();
    let open = flatten_visible(&nodes, &state(&[], 0, 0));
    let ids: Vec<&str> = open.iter().map(|row| row.id.as_str()).collect();
    assert_eq!(ids, vec!["a", "a1", "a2", "b"]);
    assert!(!open[0].is_last);
    assert!(open[2].is_last);
    assert_eq!(open[1].parent_is_last, vec![false]);
    assert!(open[3].is_last);

    let closed = flatten_visible(&nodes, &state(&["a"], 0, 0));
    let ids: Vec<&str> = closed.iter().map(|row| row.id.as_str()).collect();
    assert_eq!(ids, vec!["a", "b"]);
    assert_eq!(visible_count(&nodes, &state(&["a"], 0, 0)), 2);
    assert_eq!(visible_count(&nodes, &state(&[], 0, 0)), 4);
    assert_eq!(visible_count(&Vec::new(), &state(&[], 0, 0)), 0);
}

#[test]
fn prefixes_use_compact_connectors_and_chevrons() {
    let nodes = sample_tree();
    let glyphs = tree_glyphs();
    let open_state = state(&[], 0, 0);
    let rows = flatten_visible(&nodes, &open_state);
    assert_eq!(build_prefix(&glyphs, &rows[0], &open_state), "  ▼ ");
    assert_eq!(build_prefix(&glyphs, &rows[1], &open_state), "    ");
    assert_eq!(build_prefix(&glyphs, &rows[3], &open_state), "  ");

    let closed_state = state(&["a"], 0, 0);
    let rows = flatten_visible(&nodes, &closed_state);
    assert_eq!(build_prefix(&glyphs, &rows[0], &closed_state), "  ▶ ");
}

#[test]
fn viewport_rows_clip_labels_and_scroll_the_selected_one() {
    let nodes = sample_tree();
    let view = state(&[], 1, 1);
    let mut marquee = LabelMarquee::new(0);
    let area = Area { x: 2, y: 5, width: 9, height: 2 };
    let rows = clipped_tree_rows(area, &nodes, &view, &mut marquee, 0);

    assert_eq!(rows.len(), 2);
    assert_eq!(rows[0].y, 5);
    assert!(rows[0].selected);
    assert_eq!(rows[0].prefix, "    ");
    // The selected label overflows its five columns by four: the marquee starts at the left.
    assert_eq!(rows[0].label, Some((6, "Alpha".to_owned())));
    assert_eq!(rows[1].y, 6);
    assert!(!rows[1].selected);
    assert_eq!(rows[1].label, Some((6, "Alph…".to_owned())));

    let tall = Area { x: 0, y: 0, width: 9, height: 10 };
    let all = clipped_tree_rows(tall, &nodes, &state(&[], 0, 0), &mut marquee, 0);
    assert_eq!(all.len(), 4);
    assert!(all[3].disabled);
    assert_eq!(all[3].label, Some((2, "Beta".to_owned())));

    let narrow = Area { x: 0, y: 0, width: 4, height: 1 };
    let none = clipped_tree_rows(narrow, &nodes, &state(&[], 0, 0), &mut marquee, 0);
    assert_eq!(none[0].label, None);

    let empty = Area { x: 0, y: 0, width: 0, height: 3 };
    assert!(clipped_tree_rows(empty, &nodes, &view, &mut marquee, 0).is_empty());
    assert!(clipped_tree_rows(tall, &nodes, &state(&[], 0, 9), &mut marquee, 0).is_empty());
}

#[test]
fn wheel_moves_scroll_then_selection() {
    let nodes = sample_tree();
    let inner = Area { x: 0, y: 0, width: 10, height: 10 };

    let mut view = state(&[], 0, 0);
    assert!(handle_tree_wheel(&mut view, &nodes, inner, 1, 1, MouseWheel::ScrollDown));
    assert_eq!((view.selected_index, view.scroll), (1, 0));

    assert!(handle_tree_wheel(&mut view, &nodes, inner, 1, 1, MouseWheel::ScrollUp));
    assert_eq!((view.selected_index, view.scroll), (0, 0));

    let mut scrolled = state(&[], 3, 2);
    assert!(handle_tree_wheel(&mut scrolled, &nodes, inner, 0, 0, MouseWheel::ScrollUp));
    assert_eq!((scrolled.selected_index, scrolled.scroll), (3, 1));

    let short = Area { x: 0, y: 0, width: 10, height: 2 };
    let mut top = state(&[], 0, 0);
    assert!(handle_tree_wheel(&mut top, &nodes, short, 0, 0, MouseWheel::ScrollDown));
    // Scrolling hides the selection, which pulls the view back to it.
    assert_eq!((top.selected_index, top.scroll), (0, 0));

    assert!(!handle_tree_wheel(&mut view, &nodes, inner, 10, 1, MouseWheel::ScrollDown));
    assert!(!handle_tree_wheel(&mut view, &nodes, inner, 1, 1, MouseWheel::Other));
    assert!(!handle_tree_wheel(&mut view, &Vec::new(), inner, 1, 1, MouseWheel::ScrollDown));
    assert_eq!((view.selected_index, view.scroll), (0, 0));
}

#[test]
fn ensure_visible_scrolls_to_the_selection() {
    let mut view = state(&[], 7, 0);
    view.ensure_visible(3);
    assert_eq!(view.scroll, 5);
    view.selected_index = 2;
    view.ensure_visible(3);
    assert_eq!(view.scroll, 2);
    view.ensure_visible(3);
    assert_eq!(view.scroll, 2);
}
