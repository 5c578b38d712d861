use rustwlc::handle::{text_from_native, WlcOutput, WlcView};
use rustwlc::types::{Geometry, Point, Size};

#[test]
fn root_is_not_a_window() {
    let root = WlcView::root();
    assert!(root.is_root());
    assert!(!root.is_window());
}

#[test]
fn zero_handle_is_the_root() {
    let view = WlcView::from_native(0);
    assert!(view.is_root());
    assert!(!view.is_window());
    assert_eq!(view, WlcView::root());
}

#[test]
fn nonzero_handles_are_windows() {
    for handle in [1usize, 2, 7, usize::MAX] {
        let view = WlcView::from_native(handle);
        assert!(view.is_window());
        assert!(!view.is_root());
    }
}

#[test]
fn root_conversion_round_trip() {
    assert_eq!(WlcView::root().as_output().as_view(), WlcView::root());
}

#[test]
fn conversion_round_trip_keeps_the_handle() {
    let view = WlcView::from_native(42);
    assert_eq!(view.as_output().as_view(), view);
    assert_eq!(view.as_output(), WlcOutput::from_native(42));

    let output = WlcOutput::from_native(9000);
    assert_eq!(output.as_view().as_output(), output);
    assert_eq!(output.as_view(), WlcView::from_native(9000));
}

#[test]
fn from_conversions_keep_the_handle() {
    let view = WlcView::from_native(13);
    assert_eq!(WlcOutput::from(view), WlcOutput::from_native(13));
    let output = WlcOutput::from_native(14);
    assert_eq!(WlcView::from(output), WlcView::from_native(14));
}

#[test]
fn native_handle_round_trip() {
    assert_eq!(WlcView::from_native(5).native_handle(), 5);
    assert_eq!(WlcOutput::from_native(6).native_handle(), 6);
    assert_eq!(WlcView::root().native_handle(), 0);
}

#[test]
fn output_list_is_empty_on_null() {
    let outputs = WlcOutput::list_from_native(None);
    assert!(outputs.is_empty());
}

#[test]
fn output_list_is_empty_on_zero_count() {
    let outputs = WlcOutput::list_from_native(Some(Vec::new()));
    assert!(outputs.is_empty());
}

#[test]
fn output_list_wraps_handles_in_order() {
    let outputs = WlcOutput::list_from_native(Some(vec![1, 2, 3]));
    assert_eq!(
        outputs,
        vec![
            WlcOutput::from_native(1),
            WlcOutput::from_native(2),
            WlcOutput::from_native(3),
        ]
    );
}

#[test]
fn view_stack_is_empty_on_null() {
    let views = WlcOutput::views_from_native(None);
    assert!(views.is_empty());
}

#[test]
fn view_stack_is_read_in_snapshot_order() {
    // A view whose handle the snapshot reports at position 0 — the "back"
    // position after a send-to-back — is at position 0 of the result.
    let views = WlcOutput::views_from_native(Some(vec![7, 8, 9]));
    assert_eq!(views[0], WlcView::from_native(7));
    assert_eq!(views[1], WlcView::from_native(8));
    assert_eq!(views[2], WlcView::from_native(9));
    assert_eq!(views.len(), 3);
}

#[test]
fn same_snapshot_reads_to_the_same_stack() {
    let first = WlcOutput::views_from_native(Some(vec![4, 2, 6]));
    let second = WlcOutput::views_from_native(Some(vec![4, 2, 6]));
    assert_eq!(first, second);
}

#[test]
fn stack_marshal_round_trip() {
    let stack = vec![
        WlcView::from_native(11),
        WlcView::from_native(3),
        WlcView::from_native(8),
    ];
    let handles = WlcOutput::stack_for_native(&stack);
    assert_eq!(handles, vec![11, 3, 8]);
    let reread = WlcOutput::views_from_native(Some(handles));
    assert_eq!(reread, stack);
}

#[test]
fn set_views_outcome_maps_acceptance() {
    assert_eq!(WlcOutput::set_views_outcome(true), Ok(()));
    assert_eq!(
        WlcOutput::set_views_outcome(false),
        Err("Could not set views on output")
    );
}

#[test]
fn text_is_empty_on_null() {
    assert_eq!(text_from_native(None), String::new());
}

#[test]
fn text_passes_through() {
    assert_eq!(text_from_native(Some(String::from("term"))), "term");
    assert_eq!(text_from_native(Some(String::from("WLC-1"))), "WLC-1");
}

#[test]
fn geometry_is_absent_on_null() {
    assert_eq!(WlcView::geometry_from_native(None), None);
}

#[test]
fn absent_geometry_is_distinct_from_zero_sized() {
    let zero_sized = Geometry::zeroed();
    let read = WlcView::geometry_from_native(Some(zero_sized));
    assert_eq!(read, Some(zero_sized));
    assert_ne!(read, None);
}

#[test]
fn geometry_value_passes_through() {
    let geometry = Geometry {
        origin: Point { x: -10, y: 20 },
        size: Size { w: 640, h: 480 },
    };
    assert_eq!(WlcView::geometry_from_native(Some(geometry)), Some(geometry));
}

#[test]
fn zeroed_geometry_is_the_zero_sentinel() {
    let geometry = Geometry::zeroed();
    assert_eq!(geometry.origin.x, 0);
    assert_eq!(geometry.origin.y, 0);
    assert_eq!(geometry.size.w, 0);
    assert_eq!(geometry.size.h, 0);
}

#[test]
fn focus_none_clears_output_focus() {
    assert_eq!(WlcOutput::focus_target(None), 0);
}

#[test]
fn focus_some_targets_that_output() {
    let output = WlcOutput::from_native(3);
    assert_eq!(WlcOutput::focus_target(Some(&output)), 3);
}

#[test]
fn focusing_the_root_view_targets_no_window() {
    // The root view's handle value is 0, the same value that clears focus.
    assert_eq!(WlcView::root().native_handle(), 0);
}

#[test]
fn close_request_guards_the_root() {
    assert_eq!(WlcView::root().close_request(), None);
    assert_eq!(WlcView::from_native(7).close_request(), Some(7));
}
