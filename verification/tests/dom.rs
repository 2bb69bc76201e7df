use raxon::core_types::{Color, Point};
use raxon::dom::event::{Event, EventKind, GesturePhase, PointerId, TextSelection};
use raxon::dom::mutation::{
    Callback, FontStyle, KeyboardDismissMode, MenuItem, Role, Stroke, TextAlign, TextDecoration,
    TextSpan, Transform, WidgetId,
};

#[test]
fn widget_ids_round_trip_through_u64() {
    let bits = 0x1234_5678_9abc_def0u64;
    let id = WidgetId::from_u64(bits);
    assert_eq!(id.to_u64(), bits);
    assert_eq!(id.raw(), 0x1234_5678);
    assert_eq!(WidgetId::from_u64(id.to_u64()), id);
}

#[test]
fn events_report_kind_and_target() {
    let id = WidgetId::from_u64(3);
    let tap = Event::Tap { target: id };
    assert_eq!(tap.kind(), EventKind::Tap);
    assert_eq!(tap.target(), Some(id));
    let pan = Event::PanChanged {
        target: id,
        translation: Point { x: 0, y: 0 },
        velocity: Point { x: 0, y: 0 },
        phase: GesturePhase::Began,
    };
    assert_eq!(pan.kind(), EventKind::Pan);
    assert_eq!(pan.target(), Some(id));
    assert_eq!(Event::BackPressed.kind(), EventKind::BackPressed);
    assert_eq!(Event::BackPressed.target(), None);
    assert_eq!(Event::DeepLink { url: "x://y".to_string() }.target(), None);
    let down = Event::PointerDown { target: id, position: Point { x: 1, y: 2 }, pointer: PointerId(9) };
    assert_eq!(down.target(), Some(id));
    assert_eq!(TextSelection::caret(4), TextSelection { start: 4, end: 4 });
}

#[test]
fn labels_spell_the_variant_names() {
    assert_eq!(Role::Plain.label(), "None");
    assert_eq!(Role::Header.label(), "Header");
    assert_eq!(KeyboardDismissMode::Manual.label(), "None");
    assert_eq!(TextDecoration::UnderlineDouble.label(), "UnderlineDouble");
    assert_eq!(TextAlign::default(), TextAlign::Start);
    assert_eq!(Role::default(), Role::Plain);
    assert_eq!(FontStyle::default(), FontStyle::Normal);
}

#[test]
fn builders_set_one_field_each() {
    let span = TextSpan::new("x").italic().underline().strikethrough().font_size(16.0f32.to_bits()).letter_spacing(1);
    assert_eq!(span.text, "x");
    assert!(span.italic && span.underline && span.strikethrough && !span.bold);
    assert_eq!(span.font_size, Some(16.0f32.to_bits()));
    assert_eq!(span.letter_spacing, Some(1));
    assert_eq!(span.color, None);

    let t = Transform::identity().scale(2).rotate(3).translate(4, 5);
    assert_eq!(t, Transform { translate_x: 4, translate_y: 5, scale_x: 2, scale_y: 2, rotate: 3 });
    assert_eq!(Transform::default(), Transform::identity());
    assert_eq!(Transform::identity().scale_y, 1.0f32.to_bits());
    assert_eq!(Transform::identity().scale_xy(6, 7).scale_y, 7);

    let item = MenuItem::new("Share", Callback(1));
    assert_eq!(item.icon, None);
    assert!(!item.destructive);
    assert_eq!(item.action, Callback(1));
    assert_eq!(Stroke::new(2, Color::rgb(1, 1, 1)).width, 2);
}
