use easytk::component::{hides_window, tick};
use easytk::dialog::{
    choice_file_request, choice_files_request, chosen_file, chosen_files, home_var,
    selection_indices, ChooserKind, CHOOSE_MANY_TITLE, CHOOSE_ONE_TITLE,
};
use easytk::layout::{relayout, ChildSizes, Cursor, Fixed, Orientation, Splitter, WidgetEvent, LINE};
use easytk::settings::{FontId, FontSpec, Platform, Settings, COURIER_BOLD};
use easytk::text::{count_lines, escape_menu_text, menu_items};
use easytk::update::{
    choice_active, plan_activation, plan_choice_items, plan_entry, plan_frame, plan_index,
    plan_input, plan_text_display, plan_text_editor, scroll_line, TextPlan,
};

fn column(flex_h: i32) -> Splitter {
    Splitter {
        orientation: Orientation::Column,
        margin: 0,
        handle_w: 50,
        handle_h: 3,
        flex_w: 50,
        flex_h,
    }
}

fn row(flex_w: i32) -> Splitter {
    Splitter {
        orientation: Orientation::Row,
        margin: 0,
        handle_w: 3,
        handle_h: 50,
        flex_w,
        flex_h: 50,
    }
}

#[test]
fn column_drag_near_half_gives_room_to_last_child() {
    // lead 3, room 97, middle 48
    let s = column(100);
    assert_eq!(s.drag(0, 10), Some(Fixed { first: 0, last: 90 }));
    assert_eq!(s.drag(0, 3), Some(Fixed { first: 0, last: 97 }));
    assert_eq!(s.drag(0, 47), Some(Fixed { first: 0, last: 53 }));
}

#[test]
fn column_drag_far_half_gives_room_to_first_child() {
    let s = column(100);
    assert_eq!(s.drag(0, 48), Some(Fixed { first: 48, last: 0 }));
    assert_eq!(s.drag(0, 97), Some(Fixed { first: 97, last: 0 }));
}

#[test]
fn drag_outside_zones_changes_nothing() {
    let s = column(100);
    assert_eq!(s.drag(0, 98), None);
    assert_eq!(s.drag(0, 2), None);
    assert_eq!(s.drag(0, -5), None);
    let r = row(100);
    assert_eq!(r.drag(98, 0), None);
    assert_eq!(r.drag(1, 0), None);
}

#[test]
fn row_middle_belongs_to_near_zone() {
    let r = row(100);
    assert_eq!(r.drag(48, 0), Some(Fixed { first: 0, last: 52 }));
    assert_eq!(r.drag(49, 0), Some(Fixed { first: 49, last: 0 }));
    // a column puts the middle in the far zone
    let c = column(100);
    assert_eq!(c.drag(0, 48), Some(Fixed { first: 48, last: 0 }));
}

#[test]
fn drag_uses_margin_and_axis() {
    let s = Splitter {
        orientation: Orientation::Row,
        margin: 5,
        handle_w: 4,
        handle_h: 900,
        flex_w: 214,
        flex_h: 900,
    };
    // lead 14, room 200, middle 100; y is ignored in a row
    assert_eq!(s.drag(13, 500), None);
    assert_eq!(s.drag(14, 500), Some(Fixed { first: 0, last: 200 }));
    assert_eq!(s.drag(101, -7), Some(Fixed { first: 101, last: 0 }));
    assert_eq!(s.drag(200, 0), Some(Fixed { first: 200, last: 0 }));
    assert_eq!(s.drag(201, 0), None);
}

#[test]
fn drag_zones_cover_the_whole_track() {
    let s = column(100);
    for y in 3..=97 {
        let f = s.drag(0, y).unwrap();
        assert!(f.first == 0 || f.last == 0);
    }
}

#[test]
fn listen_answers() {
    let c = column(100);
    let r = c.listen(WidgetEvent::Enter, 0, 0);
    assert!(r.handled);
    assert_eq!(r.cursor, Some(Cursor::NS));
    assert_eq!(row(100).listen(WidgetEvent::Enter, 0, 0).cursor, Some(Cursor::WE));
    let r = c.listen(WidgetEvent::Leave, 0, 0);
    assert!(r.handled);
    assert_eq!(r.cursor, Some(Cursor::Arrow));
    let r = c.listen(WidgetEvent::Push, 0, 0);
    assert!(r.handled && !r.redraw && r.fixed.is_none() && r.cursor.is_none());
    let r = c.listen(WidgetEvent::Drag, 0, 10);
    assert!(r.handled && r.redraw);
    assert_eq!(r.fixed, Some(Fixed { first: 0, last: 90 }));
    let r = c.listen(WidgetEvent::Drag, 0, 99);
    assert!(r.handled && r.redraw && r.fixed.is_none());
    let r = c.listen(WidgetEvent::Other, 0, 0);
    assert!(!r.handled && !r.redraw && r.fixed.is_none() && r.cursor.is_none());
    assert!(!c.listen(WidgetEvent::Resize, 0, 0).handled);
}

#[test]
fn relayout_follows_longer_side() {
    let r = relayout(WidgetEvent::Resize, 3, 100, 200);
    assert!(r.handled);
    assert_eq!(r.orientation, Some(Orientation::Column));
    assert_eq!(relayout(WidgetEvent::Resize, 3, 200, 100).orientation, Some(Orientation::Row));
    assert_eq!(relayout(WidgetEvent::Resize, 3, 150, 150).orientation, Some(Orientation::Row));
    let reset = Some(ChildSizes { first: 0, handle: LINE, last: 0 });
    assert_eq!(relayout(WidgetEvent::Resize, 3, 100, 200).sizes, reset);
    let r = relayout(WidgetEvent::Resize, 2, 100, 200);
    assert!(r.handled);
    assert_eq!(r.orientation, None);
    assert_eq!(r.sizes, None);
    let r = relayout(WidgetEvent::Drag, 3, 100, 200);
    assert!(!r.handled);
    assert_eq!(r.orientation, None);
    assert_eq!(r.sizes, None);
    assert_eq!(LINE, 3);
}

#[test]
fn counts_lines_as_std_does() {
    for s in ["", "a", "a\n", "a\nb", "\n", "\n\n", "a\r\nb\r\n", "ä\nö\nü", "x\n\ny"] {
        assert_eq!(count_lines(s), s.lines().count(), "{:?}", s);
    }
    assert_eq!(count_lines(""), 0);
    assert_eq!(count_lines("one\ntwo\nthree"), 3);
    assert_eq!(count_lines("one\ntwo\n"), 2);
}

#[test]
fn line_counts_add_after_a_line_feed() {
    let a = "one\ntwo\n";
    let b = "three\nfour";
    let ab = format!("{}{}", a, b);
    assert_eq!(count_lines(&ab), count_lines(a) + count_lines(b));
}

#[test]
fn escapes_slashes() {
    assert_eq!(escape_menu_text("a/b"), "a\\/b");
    assert_eq!(escape_menu_text("//"), "\\/\\/");
    assert_eq!(escape_menu_text("plain"), "plain");
    assert_eq!(escape_menu_text(""), "");
}

#[test]
fn menu_string_joins_and_escapes() {
    let items = vec!["x/y".to_string(), "z".to_string(), "/home/me".to_string()];
    assert_eq!(menu_items(&items), "x\\/y|z|\\/home\\/me");
    assert_eq!(menu_items(&vec![]), "");
    assert_eq!(menu_items(&vec!["one".to_string()]), "one");
    // the separators stay as they are: it is the items escaped one by one, joined
    let escaped: Vec<String> = items.iter().map(|s| escape_menu_text(s)).collect();
    assert_eq!(menu_items(&items), escaped.join("|"));
}

#[test]
fn text_display_plans() {
    let hi = "hi".to_string();
    assert_eq!(
        plan_text_display(&None, &String::new()),
        TextPlan { install_buffer: true, set_text: false }
    );
    assert_eq!(plan_text_display(&None, &hi), TextPlan { install_buffer: true, set_text: true });
    assert_eq!(
        plan_text_display(&Some("ho".to_string()), &hi),
        TextPlan { install_buffer: false, set_text: true }
    );
    assert_eq!(
        plan_text_display(&Some(hi.clone()), &hi),
        TextPlan { install_buffer: false, set_text: false }
    );
    assert_eq!(scroll_line("a\nb\n"), 2);
    assert_eq!(scroll_line("a\nb\nc"), 3);
}

#[test]
fn text_update_settles() {
    let value = "new text".to_string();
    let first = plan_text_display(&Some("old".to_string()), &value);
    assert!(first.set_text);
    // the buffer now holds the value: a second update does nothing
    let second = plan_text_display(&Some(value.clone()), &value);
    assert_eq!(second, TextPlan { install_buffer: false, set_text: false });
}

#[test]
fn text_editor_plans() {
    let hi = "hi".to_string();
    assert_eq!(
        plan_text_editor(true, &None, &hi),
        TextPlan { install_buffer: false, set_text: false }
    );
    assert_eq!(plan_text_editor(false, &None, &hi), TextPlan { install_buffer: true, set_text: true });
    assert_eq!(
        plan_text_editor(false, &Some(hi.clone()), &hi),
        TextPlan { install_buffer: false, set_text: false }
    );
}

#[test]
fn input_and_entry_plans() {
    let a = "a".to_string();
    let b = "b".to_string();
    assert!(plan_input(false, &a, &b));
    assert!(!plan_input(true, &a, &b));
    assert!(!plan_input(false, &a, &a));
    assert!(plan_entry(false));
    assert!(!plan_entry(true));
}

#[test]
fn choice_plans() {
    let items = vec!["a/b".to_string(), "c".to_string()];
    let p = plan_choice_items(2, &items);
    assert!(!p.clear);
    assert_eq!(p.add, None);
    let p = plan_choice_items(0, &items);
    assert!(p.clear);
    assert_eq!(p.add, Some("a\\/b|c".to_string()));
    let p = plan_choice_items(3, &vec![]);
    assert!(p.clear);
    assert_eq!(p.add, None);
    assert!(choice_active(2));
    assert!(!choice_active(0));
    assert!(!choice_active(-1));
    assert_eq!(plan_index(1, 1), None);
    assert_eq!(plan_index(1, 4), Some(4));
}

#[test]
fn activation_plans() {
    assert_eq!(plan_activation(true, true), None);
    assert_eq!(plan_activation(false, false), None);
    assert_eq!(plan_activation(true, false), Some(false));
    assert_eq!(plan_activation(false, true), Some(true));
}

#[test]
fn frame_plans() {
    let p = plan_frame(&None, 14, None, 14);
    assert!(!p.tooltip_changed && p.tooltip.is_none() && p.label_size.is_none());
    let p = plan_frame(&None, 14, Some("tip".to_string()), 20);
    assert!(p.tooltip_changed);
    assert_eq!(p.tooltip, Some("tip".to_string()));
    assert_eq!(p.label_size, Some(20));
    // a tooltip that goes away changes, but nothing is set
    let p = plan_frame(&Some("tip".to_string()), 14, None, 14);
    assert!(p.tooltip_changed);
    assert_eq!(p.tooltip, None);
    let p = plan_frame(&Some("tip".to_string()), 14, Some("tip".to_string()), 12);
    assert!(!p.tooltip_changed);
    assert_eq!(p.label_size, Some(12));
}

#[test]
fn default_settings_resolve() {
    let c = Settings::default().config(Platform::Other);
    assert!(matches!(c.font, FontSpec::Id(FontId(COURIER_BOLD))));
    assert_eq!(c.font_size, 14);
    assert_eq!((c.width, c.height), (400, 640));
    assert_eq!((c.min_width, c.min_height), (400, 640));
    assert_eq!(c.xclass, "FLTK");
    assert_eq!(c.label, "FLTK");
    assert!(!c.fullscreen);
    assert_eq!(c.icon, None);
}

#[test]
fn given_settings_win() {
    let s = Settings {
        fullscreen: true,
        size: Some((800, 600)),
        font_size: Some(18),
        font: Some(FontId(2)),
        xclass: Some("io.gitlab.kbit.rust"),
        icon: Some("<svg/>".to_string()),
    };
    let c = s.config(Platform::Other);
    assert!(matches!(c.font, FontSpec::Id(FontId(2))));
    assert_eq!(c.font_size, 18);
    assert_eq!((c.width, c.height), (800, 600));
    assert_eq!((c.min_width, c.min_height), (800, 600));
    assert_eq!(c.xclass, "io.gitlab.kbit.rust");
    assert_eq!(c.label, "io.gitlab.kbit.rust");
    assert!(c.fullscreen);
    assert_eq!(c.icon, Some("<svg/>".to_string()));
    // on Windows the font is looked up by name whatever the settings say
    let w = s.config(Platform::Windows);
    assert!(matches!(w.font, FontSpec::Named("BCascadia Mono")));
    let partial = Settings { xclass: Some("app"), ..Default::default() };
    let c = partial.config(Platform::Windows);
    assert_eq!(c.xclass, "app");
    assert_eq!(c.font_size, 14);
}

#[test]
fn dialog_requests() {
    assert_eq!(home_var(Platform::Windows), "HOMEPATH");
    assert_eq!(home_var(Platform::Other), "HOME");
    let r = choice_file_request("", Platform::Other);
    assert_eq!(r.kind, ChooserKind::Directory);
    assert_eq!(r.home_var, "HOME");
    assert_eq!(r.title, CHOOSE_ONE_TITLE);
    let r = choice_file_request("*.txt", Platform::Windows);
    assert_eq!(r.kind, ChooserKind::Create);
    assert_eq!(r.home_var, "HOMEPATH");
    let r = choice_files_request(Platform::Other);
    assert_eq!(r.kind, ChooserKind::Multi);
    assert_eq!(r.title, CHOOSE_MANY_TITLE);
}

#[test]
fn dialog_answers() {
    assert_eq!(chosen_file(0, Some("a".to_string())), None);
    assert_eq!(chosen_file(1, Some("a".to_string())), Some("a".to_string()));
    assert_eq!(chosen_file(2, None), None);
    assert_eq!(selection_indices(3), vec![1, 2, 3]);
    assert_eq!(selection_indices(0), Vec::<i32>::new());
    assert_eq!(selection_indices(-2), Vec::<i32>::new());
    assert_eq!(chosen_files(0, vec![]), None);
    assert_eq!(
        chosen_files(3, vec![Some("a".to_string()), None, Some("c".to_string())]),
        Some(vec!["a".to_string(), "c".to_string()])
    );
    assert_eq!(chosen_files(-1, vec![]), Some(vec![]));
}

#[test]
fn ticks() {
    assert!(!tick(None::<i32>, |_| panic!("no message, no handler")));
    assert!(tick(Some(5), |m| m > 3));
    assert!(!tick(Some(2), |m| m > 3));
    let mut model = 0;
    let refresh = tick(Some(7), |m| {
        model += m;
        true
    });
    assert!(refresh);
    assert_eq!(model, 7);
    assert!(hides_window(WidgetEvent::Close));
    assert!(!hides_window(WidgetEvent::Resize));
}

#[test]
fn square_splitter_resizes_to_row_and_resets_sizes() {
    let first = relayout(WidgetEvent::Resize, 3, 100, 100);
    assert!(first.handled);
    assert_eq!(first.orientation, Some(Orientation::Row));
    assert_eq!(first.sizes, Some(ChildSizes { first: 0, handle: 3, last: 0 }));
    // a second resize of the unchanged box answers the same
    assert_eq!(relayout(WidgetEvent::Resize, 3, 100, 100), first);
    assert!(!relayout(WidgetEvent::Push, 3, 100, 100).handled);
}

#[test]
fn frame_update_settles_on_repeat() {
    let p = plan_frame(&Some("old".to_string()), 14, Some("new".to_string()), 18);
    assert!(p.tooltip_changed && p.label_size.is_some());
    // the frame now shows "new" at size 18: updating again runs no callback
    let q = plan_frame(&Some("new".to_string()), 18, Some("new".to_string()), 18);
    assert!(!q.tooltip_changed && q.label_size.is_none());
    // a tooltip taken away stays, and the next update runs the callback again
    let r = plan_frame(&Some("new".to_string()), 18, None, 18);
    assert!(r.tooltip_changed && r.tooltip.is_none() && r.label_size.is_none());
}
