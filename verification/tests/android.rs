use raxon::android::{
    color_to_argb, frame_command, widget_key, AndroidBackend, AndroidCommand, AndroidCommandBatch,
    AndroidPlatformRequest, AndroidViewClass, AndroidWireAttribute, AndroidWireCommand,
    AndroidWireMenuItem, AndroidWirePlatformRequest, android_wire_attribute,
};
use raxon::core_types::{Color, Point, Rect, Size};
use raxon::dom::mutation::{
    Attribute, Callback, GestureKind, HapticStyle, LinearGradient, LocalNotification, MenuItem,
    Mutation, Role, Shadow, TextSpan, WidgetId, WidgetKind,
};

#[test]
fn maps_widget_kinds_to_android_classes() {
    assert_eq!(
        AndroidViewClass::from_widget_kind(WidgetKind::Text).class_name(),
        "android.widget.TextView"
    );
    assert_eq!(
        AndroidViewClass::from_widget_kind(WidgetKind::LazyList).class_name(),
        "androidx.recyclerview.widget.RecyclerView"
    );
}

#[test]
fn converts_backdrop_to_android_argb() {
    let command = AndroidCommand::from_mutation(Mutation::SetBackdrop {
        color: Color::rgba(0x11, 0x22, 0x33, 0x44),
    });

    assert_eq!(command, AndroidCommand::SetBackdrop { argb: 0x4411_2233 });
}

#[test]
fn stack_and_view_share_a_frame_layout() {
    assert_eq!(AndroidViewClass::from_widget_kind(WidgetKind::View), AndroidViewClass::FrameLayout);
    assert_eq!(AndroidViewClass::from_widget_kind(WidgetKind::Stack), AndroidViewClass::FrameLayout);
    assert_eq!(AndroidViewClass::from_widget_kind(WidgetKind::TextArea), AndroidViewClass::EditText);
    assert_eq!(
        AndroidViewClass::SegmentedControl.class_name(),
        "com.google.android.material.button.MaterialButtonToggleGroup"
    );
}

#[test]
fn widget_keys_pack_slot_and_generation() {
    let id = WidgetId::from_u64(0x0000_0007_0000_0003);
    assert_eq!(id.raw(), 7);
    assert_eq!(widget_key(id), 0x0000_0007_0000_0003);
    assert_eq!(color_to_argb(Color::rgb(1, 2, 3)), 0xff01_0203);
}

#[test]
fn mutations_become_host_commands() {
    let parent = WidgetId::from_u64(1 << 32);
    let child = WidgetId::from_u64((2 << 32) | 5);
    assert_eq!(
        AndroidCommand::from_mutation(Mutation::Create { id: child, kind: WidgetKind::Button }),
        AndroidCommand::Create { id: (2 << 32) | 5, class: AndroidViewClass::Button }
    );
    assert_eq!(
        AndroidCommand::from_mutation(Mutation::InsertChild { parent, index: 3, child }),
        AndroidCommand::InsertChild { parent: 1 << 32, child: (2 << 32) | 5, index: 3 }
    );
    assert_eq!(
        AndroidCommand::from_mutation(Mutation::RequestLocation),
        AndroidCommand::Request(AndroidPlatformRequest::StartLocation)
    );
    assert_eq!(
        AndroidCommand::from_mutation(Mutation::StopLocationUpdates),
        AndroidCommand::Request(AndroidPlatformRequest::StopLocation)
    );
    assert_eq!(
        AndroidCommand::from_mutation(Mutation::RequestFocus { id: child }),
        AndroidCommand::Request(AndroidPlatformRequest::RequestFocus { id: (2 << 32) | 5 })
    );
    let rect = Rect {
        origin: Point { x: 1.0f32.to_bits(), y: 2.0f32.to_bits() },
        size: Size::new(3.0f32.to_bits(), 4.0f32.to_bits()),
    };
    assert_eq!(
        frame_command(child, rect),
        AndroidCommand::SetFrame {
            id: (2 << 32) | 5,
            x: 1.0f32.to_bits(),
            y: 2.0f32.to_bits(),
            width: 3.0f32.to_bits(),
            height: 4.0f32.to_bits(),
        }
    );
}

#[test]
fn wire_form_names_enums_and_packs_colors() {
    assert_eq!(
        AndroidWireCommand::from_command(AndroidCommand::Create {
            id: 9,
            class: AndroidViewClass::TextView,
        }),
        AndroidWireCommand::Create { id: 9, class_name: "android.widget.TextView".to_string() }
    );
    assert_eq!(
        AndroidWireCommand::from_command(AndroidCommand::AddGesture { id: 1, gesture: GestureKind::DoubleTap }),
        AndroidWireCommand::AddGesture { id: 1, gesture: "DoubleTap".to_string() }
    );
    assert_eq!(
        AndroidWireCommand::from_command(AndroidCommand::Haptic { style: HapticStyle::Selection }),
        AndroidWireCommand::Haptic { style: "Selection".to_string() }
    );
    assert_eq!(
        android_wire_attribute(Attribute::TextColor(Color::rgb(1, 2, 3))),
        AndroidWireAttribute::TextColor(0xff01_0203)
    );
    assert_eq!(
        android_wire_attribute(Attribute::AccessibilityRole(Role::Plain)),
        AndroidWireAttribute::AccessibilityRole("None".to_string())
    );
    assert_eq!(
        android_wire_attribute(Attribute::OnPressIn(Callback(4))),
        AndroidWireAttribute::EventListener { event: "press_in".to_string() }
    );
    assert_eq!(
        android_wire_attribute(Attribute::ItemCount(12)),
        AndroidWireAttribute::ItemCount(12)
    );
    assert_eq!(
        android_wire_attribute(Attribute::DrawList(Vec::new())),
        AndroidWireAttribute::Unsupported { name: "draw_list".to_string() }
    );
    assert_eq!(
        android_wire_attribute(Attribute::Shadow(Shadow {
            color: Color::rgba(0, 0, 0, 0x80),
            radius: 4,
            dx: 1,
            dy: 2,
        })),
        AndroidWireAttribute::Shadow { color_argb: 0x8000_0000, radius: 4, dx: 1, dy: 2 }
    );
    let gradient = LinearGradient::vertical(vec![Color::rgb(255, 0, 0), Color::rgb(0, 0, 255)]);
    assert_eq!(
        android_wire_attribute(Attribute::Gradient(gradient)),
        AndroidWireAttribute::Gradient {
            colors_argb: vec![0xffff_0000, 0xff00_00ff],
            start_x: 0.5f32.to_bits(),
            start_y: 0.0f32.to_bits(),
            end_x: 0.5f32.to_bits(),
            end_y: 1.0f32.to_bits(),
        }
    );
    let menu = vec![MenuItem::new("Delete", Callback(7)).icon("trash").destructive()];
    assert_eq!(
        android_wire_attribute(Attribute::ContextMenu(menu)),
        AndroidWireAttribute::ContextMenu(vec![AndroidWireMenuItem {
            title: "Delete".to_string(),
            icon: Some("trash".to_string()),
            destructive: true,
        }])
    );
    match android_wire_attribute(Attribute::RichText(vec![TextSpan::new("hi").bold().color(Color::rgb(0, 0, 0))])) {
        AndroidWireAttribute::RichText(spans) => {
            assert_eq!(spans.len(), 1);
            assert_eq!(spans[0].text, "hi");
            assert!(spans[0].bold);
            assert_eq!(spans[0].color_argb, Some(0xff00_0000));
        }
        other => panic!("unexpected {other:?}"),
    }
}

#[test]
fn platform_requests_carry_their_payload() {
    let notification = LocalNotification {
        id: "n1".to_string(),
        title: "Hi".to_string(),
        body: "There".to_string(),
        delay_seconds: 5,
    };
    assert_eq!(
        AndroidWirePlatformRequest::from(AndroidPlatformRequest::ScheduleNotification(notification)),
        AndroidWirePlatformRequest::ScheduleNotification {
            id: "n1".to_string(),
            title: "Hi".to_string(),
            body: "There".to_string(),
            delay_seconds: 5,
        }
    );
    assert_eq!(
        AndroidWirePlatformRequest::from(AndroidPlatformRequest::PresentMediaPicker { max_selection: 3 }),
        AndroidWirePlatformRequest::PresentMediaPicker { max_selection: 3 }
    );
}

#[test]
fn backend_queues_and_drains_in_order() {
    let mut backend = AndroidBackend::new();
    let id = WidgetId::from_u64(1);
    backend.apply(Mutation::Create { id, kind: WidgetKind::Text });
    backend.apply(Mutation::SetAttribute { id, attr: Attribute::Text("Hello".to_string()) });
    backend.apply(Mutation::SetRoot { id });

    let batch = backend.drain_command_batch();
    assert_eq!(batch.len(), 3);
    assert_eq!(
        batch.commands[0],
        AndroidWireCommand::Create { id: 1, class_name: "android.widget.TextView".to_string() }
    );
    assert_eq!(
        batch.commands[1],
        AndroidWireCommand::SetAttribute { id: 1, attr: AndroidWireAttribute::Text("Hello".to_string()) }
    );
    assert_eq!(batch.commands[2], AndroidWireCommand::SetRoot { id: 1 });
    assert!(backend.drain_commands().is_empty());
    assert!(backend.drain_command_batch().is_empty());
    assert!(AndroidCommandBatch::from_commands(Vec::new()).is_empty());
}

#[test]
fn distinct_colors_pack_to_distinct_words() {
    let colors = [
        Color::rgba(1, 2, 3, 4),
        Color::rgba(4, 3, 2, 1),
        Color::rgba(1, 2, 4, 3),
        Color::rgb(0, 0, 0),
    ];
    for (i, a) in colors.iter().enumerate() {
        for (j, b) in colors.iter().enumerate() {
            assert_eq!(i == j, color_to_argb(*a) == color_to_argb(*b));
        }
    }
    assert_eq!(Color::rgba(0x11, 0x22, 0x33, 0x44).to_argb_u32(), 0x4411_2233);
}
