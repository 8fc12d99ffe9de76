use cursor_hover::events::HoverEvents;
use cursor_hover::events::TextHoverIn;
use cursor_hover::events::TextHoverOut;
use cursor_hover::geometry::WidgetGeometry;
use cursor_hover::geometry::WorldPoint;
use cursor_hover::plugin::CursorPlugin;
use cursor_hover::plugin::CursorPluginDisabled;
use cursor_hover::reconciler::CursorIconKind;
use cursor_hover::reconciler::CursorMarker;
use cursor_hover::reconciler::DisplaySurface;
use cursor_hover::reconciler::InputActivity;
use cursor_hover::reconciler::change_cursor;
use cursor_hover::relay::UiInteraction;
use cursor_hover::relay::UiWidgetChange;

fn quiet() -> InputActivity {
    InputActivity { text_changed: false, mouse_motion: false, mouse_button_pressed: false }
}

fn surface(marker: Option<CursorMarker>, visible: bool) -> Option<DisplaySurface> {
    Some(DisplaySurface { marker, cursor_visible: visible })
}

fn text_marker() -> CursorMarker {
    CursorMarker { icon: CursorIconKind::Text }
}

fn events_in() -> HoverEvents {
    let mut q = HoverEvents::new();
    q.send_in(TextHoverIn);
    q
}

fn events_out() -> HoverEvents {
    let mut q = HoverEvents::new();
    q.send_out(TextHoverOut);
    q
}

#[test]
fn hover_in_attaches_the_default_marker() {
    let mut s = surface(None, true);
    change_cursor(&mut s, &events_in(), &quiet());
    assert_eq!(s.unwrap().marker, Some(text_marker()));
}

#[test]
fn marker_attach_is_idempotent() {
    let already = CursorMarker { icon: CursorIconKind::Crosshair };
    let mut s = surface(Some(already), true);
    change_cursor(&mut s, &events_in(), &quiet());
    // Attaching over an attached marker keeps the very marker that was there.
    assert_eq!(s.unwrap().marker, Some(already));
}

#[test]
fn hover_out_removes_the_marker() {
    let mut s = surface(Some(text_marker()), true);
    change_cursor(&mut s, &events_out(), &quiet());
    assert_eq!(s.unwrap().marker, None);
}

#[test]
fn marker_remove_is_idempotent() {
    let mut s = surface(None, true);
    change_cursor(&mut s, &events_out(), &quiet());
    assert_eq!(s.unwrap().marker, None);
}

#[test]
fn hover_in_wins_over_hover_out_in_the_same_tick() {
    let mut q = HoverEvents::new();
    q.send_out(TextHoverOut);
    q.send_in(TextHoverIn);
    let mut s = surface(None, true);
    change_cursor(&mut s, &q, &quiet());
    assert_eq!(s.unwrap().marker, Some(text_marker()));
}

#[test]
fn text_change_hides_the_pointer() {
    let mut s = surface(None, true);
    let input = InputActivity { text_changed: true, mouse_motion: false, mouse_button_pressed: false };
    change_cursor(&mut s, &HoverEvents::new(), &input);
    assert!(!s.unwrap().cursor_visible);
}

#[test]
fn motion_and_clicks_reveal_the_pointer() {
    let mut s = surface(None, false);
    let motion = InputActivity { text_changed: false, mouse_motion: true, mouse_button_pressed: false };
    change_cursor(&mut s, &HoverEvents::new(), &motion);
    assert!(s.unwrap().cursor_visible);

    let mut s2 = surface(None, false);
    let click = InputActivity { text_changed: false, mouse_motion: false, mouse_button_pressed: true };
    change_cursor(&mut s2, &HoverEvents::new(), &click);
    assert!(s2.unwrap().cursor_visible);
}

#[test]
fn motion_wins_over_text_change_in_the_same_tick() {
    let mut s = surface(None, true);
    let input = InputActivity { text_changed: true, mouse_motion: true, mouse_button_pressed: false };
    change_cursor(&mut s, &HoverEvents::new(), &input);
    assert!(s.unwrap().cursor_visible);
}

#[test]
fn quiet_tick_leaves_the_surface_alone() {
    let mut s = surface(Some(text_marker()), false);
    change_cursor(&mut s, &HoverEvents::new(), &quiet());
    assert_eq!(s, surface(Some(text_marker()), false));
}

#[test]
fn missing_surface_is_a_silent_no_op() {
    let mut s: Option<DisplaySurface> = None;
    let input = InputActivity { text_changed: true, mouse_motion: true, mouse_button_pressed: true };
    change_cursor(&mut s, &events_in(), &input);
    assert_eq!(s, None);
}

#[test]
fn scenario_text_change_then_click() {
    let mut s = surface(None, true);
    let tick1 = InputActivity { text_changed: true, mouse_motion: false, mouse_button_pressed: false };
    change_cursor(&mut s, &HoverEvents::new(), &tick1);
    assert!(!s.unwrap().cursor_visible);
    let tick2 = InputActivity { text_changed: false, mouse_motion: false, mouse_button_pressed: true };
    change_cursor(&mut s, &HoverEvents::new(), &tick2);
    assert!(s.unwrap().cursor_visible);
}

#[test]
fn scenario_ui_hover_to_idle_removes_the_marker() {
    let mut plugin = CursorPlugin::new();
    let widgets: Vec<WidgetGeometry> = Vec::new();
    let changes = vec![UiWidgetChange { interaction: UiInteraction::Idle, source: 1 }];
    let text_widgets = vec![1u64];
    let mut s = surface(Some(text_marker()), true);
    let q = plugin.tick(None, true, &None, &widgets, &changes, &text_widgets, &quiet(), &mut s);
    assert_eq!(q.ins_len(), 0);
    assert_eq!(q.outs_len(), 1);
    assert_eq!(s.unwrap().marker, None);

    // The same leave with no marker attached: the removal branch is a no-op.
    let mut bare = surface(None, true);
    plugin.tick(None, true, &None, &widgets, &changes, &text_widgets, &quiet(), &mut bare);
    assert_eq!(bare.unwrap().marker, None);
}

#[test]
fn scenario_full_tick_enter_then_leave() {
    let mut plugin = CursorPlugin::new();
    let widgets = vec![WidgetGeometry {
        center_x: 0,
        center_y: 0,
        half_width: 10,
        half_height: 10,
        visible: true,
    }];
    let changes: Vec<UiWidgetChange> = Vec::new();
    let text_widgets: Vec<u64> = Vec::new();
    let mut s = surface(None, true);

    let enter = plugin.tick(
        None,
        true,
        &Some(WorldPoint { x: 5, y: 5 }),
        &widgets,
        &changes,
        &text_widgets,
        &quiet(),
        &mut s,
    );
    assert_eq!(enter.ins_len(), 1);
    assert_eq!(enter.outs_len(), 0);
    assert_eq!(s.unwrap().marker, Some(text_marker()));

    let leave = plugin.tick(
        None,
        true,
        &Some(WorldPoint { x: 20, y: 20 }),
        &widgets,
        &changes,
        &text_widgets,
        &quiet(),
        &mut s,
    );
    assert_eq!(leave.ins_len(), 0);
    assert_eq!(leave.outs_len(), 1);
    assert_eq!(s.unwrap().marker, None);
}

#[test]
fn disabled_plugin_does_nothing() {
    let mut plugin = CursorPlugin::new();
    let widgets = vec![WidgetGeometry {
        center_x: 0,
        center_y: 0,
        half_width: 10,
        half_height: 10,
        visible: true,
    }];
    let changes = vec![UiWidgetChange { interaction: UiInteraction::Idle, source: 1 }];
    let text_widgets = vec![1u64];
    let mut s = surface(Some(text_marker()), false);
    let input = InputActivity { text_changed: true, mouse_motion: true, mouse_button_pressed: true };
    let q = plugin.tick(
        Some(CursorPluginDisabled),
        true,
        &Some(WorldPoint { x: 5, y: 5 }),
        &widgets,
        &changes,
        &text_widgets,
        &input,
        &mut s,
    );
    assert_eq!(q.ins_len(), 0);
    assert_eq!(q.outs_len(), 0);
    assert_eq!(s, surface(Some(text_marker()), false));
}

#[test]
fn missing_surface_skips_the_hit_test_but_not_the_relay() {
    let mut plugin = CursorPlugin::new();
    let widgets = vec![WidgetGeometry {
        center_x: 0,
        center_y: 0,
        half_width: 10,
        half_height: 10,
        visible: true,
    }];
    let changes = vec![UiWidgetChange { interaction: UiInteraction::Hovered, source: 1 }];
    let text_widgets = vec![1u64];
    let mut s: Option<DisplaySurface> = None;
    let q = plugin.tick(
        None,
        true,
        &Some(WorldPoint { x: 5, y: 5 }),
        &widgets,
        &changes,
        &text_widgets,
        &quiet(),
        &mut s,
    );
    // The detector held back (no surface), the relay still ran.
    assert_eq!(q.ins_len(), 1);
    assert_eq!(q.outs_len(), 0);
    assert_eq!(s, None);
}

#[test]
fn hidden_widget_is_skipped_by_the_tick() {
    let mut plugin = CursorPlugin::new();
    let widgets = vec![WidgetGeometry {
        center_x: 0,
        center_y: 0,
        half_width: 10,
        half_height: 10,
        visible: false,
    }];
    let changes: Vec<UiWidgetChange> = Vec::new();
    let text_widgets: Vec<u64> = Vec::new();
    let mut s = surface(None, true);
    let q = plugin.tick(
        None,
        true,
        &Some(WorldPoint { x: 0, y: 0 }),
        &widgets,
        &changes,
        &text_widgets,
        &quiet(),
        &mut s,
    );
    assert_eq!(q.ins_len(), 0);
    assert_eq!(q.outs_len(), 0);
    assert_eq!(s.unwrap().marker, None);
}
