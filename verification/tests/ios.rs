use raxon::dom::mutation::{
    HapticStyle, ImageResizeMode, KeyboardDismissMode, KeyboardType, LayoutDirection,
    ReturnKeyType, Role, StatusBarStyle, TextDecoration, TextStyle,
};
use raxon::ios::{
    ui_accessibility_traits, ui_content_mode, ui_haptic, ui_keyboard_dismiss_mode,
    ui_keyboard_type, ui_return_key_type, ui_semantic_content_attribute, ui_status_bar_style,
    ui_text_decoration, ui_text_style_name, UiHaptic,
};
use raxon::dom::event::{Event, Lifecycle, TextSelection};
use raxon::dom::mutation::{
    Callback, ImageErrorCallback, ImageLoadCallback, PermissionKind, PermissionStatus,
    ScrollCallback, SwipeDirection, WidgetId,
};
use raxon::ios::{
    apns_device_token_hex, battery_charging_from_state, clear_accessibility_action_payloads, clear_image_handlers,
    clear_interaction_handlers, clear_scroll_handlers, clear_text_input_state,
    complete_ios_media_load, drain_tick_events, handle_accessibility_custom_action,
    handle_press_recognized, handle_scroll_begin, handle_scroll_did_scroll, handle_scroll_end,
    handle_swipe_recognized, handle_tap, handle_text_changed, handle_value_changed,
    ios_network_status_from_flags, mark_image_error, mark_image_loaded,
    permission_from_av_status, permission_from_location_status,
    permission_from_notification_status, permission_from_photo_status,
    poll_ios_network_status_if_due, queue_app_lifecycle, queue_media_cancel,
    queue_media_result, queue_permission_result, record_frame,
    register_accessibility_action_payload, request_ios_permission, set_image_on_error,
    set_image_on_load, set_swipe_handler, set_text_max_length, should_allow_text_edit,
    swipe_direction_bits, update_press_handlers, update_scroll_handlers, AccessibilityActions,
    FrameTimes, ImageHandlerTable, IosPending, MediaLoadState, MotionReading, NetworkPoll,
    PollCadence, PressHandlerTable, PressState, ScrollHandlerTable, SwipeHandlerTable,
    TextInputLimits,
};
use raxon::runtime::{use_permission, DeviceState, NetworkStatus};

#[test]
fn reachability_flags_decode_to_a_network_status() {
    assert_eq!(ios_network_status_from_flags(0), NetworkStatus::Offline);
    assert_eq!(ios_network_status_from_flags(0x2), NetworkStatus::WiFi);
    assert_eq!(ios_network_status_from_flags(0x2 | 0x40000), NetworkStatus::Cellular);
    assert_eq!(ios_network_status_from_flags(0x2 | 0x4), NetworkStatus::Offline);
    assert_eq!(ios_network_status_from_flags(0x2 | 0x4 | 0x20), NetworkStatus::WiFi);
    assert_eq!(ios_network_status_from_flags(0x2 | 0x4 | 0x8 | 0x10), NetworkStatus::Offline);
    assert_eq!(ios_network_status_from_flags(0x40000), NetworkStatus::Offline);
}

#[test]
fn authorization_codes_decode_per_framework() {
    assert_eq!(permission_from_av_status(0), PermissionStatus::NotDetermined);
    assert_eq!(permission_from_av_status(3), PermissionStatus::Granted);
    assert_eq!(permission_from_av_status(4), PermissionStatus::Unknown);
    assert_eq!(permission_from_location_status(4), PermissionStatus::Granted);
    assert_eq!(permission_from_location_status(1), PermissionStatus::Restricted);
    assert_eq!(permission_from_photo_status(4), PermissionStatus::Limited);
    assert_eq!(permission_from_photo_status(-1), PermissionStatus::Unknown);
    assert_eq!(permission_from_notification_status(1), PermissionStatus::Denied);
    assert_eq!(permission_from_notification_status(3), PermissionStatus::Granted);
    assert_eq!(permission_from_notification_status(5), PermissionStatus::Unknown);
    assert_eq!(swipe_direction_bits(SwipeDirection::Right), 1);
    assert_eq!(swipe_direction_bits(SwipeDirection::Down), 8);
    assert!(battery_charging_from_state(2));
    assert!(battery_charging_from_state(3));
    assert!(!battery_charging_from_state(1));
}

#[test]
fn polls_are_due_every_sixty_ticks_and_report_changes_only() {
    let mut cadence = PollCadence::new();
    let due: Vec<bool> = (0..121).map(|_| cadence.due()).collect();
    assert!(due[0] && due[60] && due[120]);
    assert_eq!(due.iter().filter(|d| **d).count(), 3);

    let mut poll = NetworkPoll::new();
    assert_eq!(poll_ios_network_status_if_due(&mut poll, || NetworkStatus::WiFi), Some(NetworkStatus::WiFi));
    for _ in 1..60 {
        assert_eq!(poll_ios_network_status_if_due(&mut poll, || NetworkStatus::Offline), None);
    }
    assert_eq!(poll_ios_network_status_if_due(&mut poll, || NetworkStatus::WiFi), None);
    for _ in 1..60 {
        poll_ios_network_status_if_due(&mut poll, || NetworkStatus::WiFi);
    }
    assert_eq!(poll_ios_network_status_if_due(&mut poll, || NetworkStatus::Cellular), Some(NetworkStatus::Cellular));
}

#[test]
fn text_edits_respect_the_input_limit() {
    let mut limits = TextInputLimits::new();
    assert!(should_allow_text_edit(&limits, 7, 100, 0, 0, 50));
    set_text_max_length(&mut limits, 7, 5);
    assert!(should_allow_text_edit(&limits, 7, 3, 3, 0, 2));
    assert!(!should_allow_text_edit(&limits, 7, 3, 3, 0, 3));
    assert!(should_allow_text_edit(&limits, 7, 5, 1, 2, 2));
    assert!(should_allow_text_edit(&limits, 7, 5, 4, 10, 1));
    assert!(!should_allow_text_edit(&limits, 7, 5, 9, 3, 1));
    assert!(!should_allow_text_edit(&limits, 7, 0, 0, 0, usize::MAX));
    clear_text_input_state(&mut limits, 7);
    assert!(should_allow_text_edit(&limits, 7, 3, 3, 0, 3));
}

#[test]
fn image_callbacks_observe_loads_before_and_after_install() {
    let mut images = ImageHandlerTable::new();
    assert_eq!(mark_image_loaded(&mut images, 1), None);
    assert_eq!(set_image_on_load(&mut images, 1, ImageLoadCallback(10)), Some(ImageLoadCallback(10)));
    assert_eq!(set_image_on_error(&mut images, 1, ImageErrorCallback(11)), None);
    assert_eq!(
        mark_image_error(&mut images, 1, "decode".to_string()),
        Some((ImageErrorCallback(11), "decode".to_string()))
    );
    assert_eq!(set_image_on_load(&mut images, 1, ImageLoadCallback(12)), None);
    assert_eq!(
        set_image_on_error(&mut images, 1, ImageErrorCallback(13)),
        Some((ImageErrorCallback(13), "decode".to_string()))
    );
    assert_eq!(mark_image_loaded(&mut images, 1), Some(ImageLoadCallback(12)));
    clear_image_handlers(&mut images, 1);
    assert_eq!(mark_image_loaded(&mut images, 1), None);
}

#[test]
fn press_out_fires_only_after_a_press_in() {
    let mut press = PressHandlerTable::new();
    let mut swipe = SwipeHandlerTable::new();
    assert_eq!(handle_press_recognized(&mut press, 3, PressState::Began), None);
    update_press_handlers(&mut press, 3, |mut h| {
        h.on_press_in = Some(Callback(1));
        h
    });
    update_press_handlers(&mut press, 3, |mut h| {
        h.on_press_out = Some(Callback(2));
        h
    });
    assert_eq!(handle_press_recognized(&mut press, 3, PressState::Finished), None);
    assert_eq!(handle_press_recognized(&mut press, 3, PressState::Began), Some(Callback(1)));
    assert_eq!(handle_press_recognized(&mut press, 3, PressState::Other), None);
    assert_eq!(handle_press_recognized(&mut press, 3, PressState::Finished), Some(Callback(2)));
    assert_eq!(handle_press_recognized(&mut press, 3, PressState::Finished), None);

    set_swipe_handler(&mut swipe, 3, SwipeDirection::Left, Callback(5));
    set_swipe_handler(&mut swipe, 3, SwipeDirection::Up, Callback(6));
    assert_eq!(handle_swipe_recognized(&swipe, 3, 2), Some(Callback(5)));
    assert_eq!(handle_swipe_recognized(&swipe, 3, 4), Some(Callback(6)));
    assert_eq!(handle_swipe_recognized(&swipe, 3, 1), None);
    assert_eq!(handle_swipe_recognized(&swipe, 3, 3), None);
    assert_eq!(handle_swipe_recognized(&swipe, 4, 2), None);
    clear_interaction_handlers(&mut press, &mut swipe, 3);
    assert_eq!(handle_swipe_recognized(&swipe, 3, 2), None);
    assert_eq!(handle_press_recognized(&mut press, 3, PressState::Began), None);
}

#[test]
fn scroll_samples_reset_at_drag_boundaries() {
    let mut scroll = ScrollHandlerTable::new();
    assert_eq!(handle_scroll_did_scroll(&mut scroll, 9, 0, 0, 100), None);
    update_scroll_handlers(&mut scroll, 9, |mut h| {
        h.on_scroll = Some(ScrollCallback(1));
        h.on_begin = Some(Callback(2));
        h.on_end = Some(Callback(3));
        h
    });
    let first = handle_scroll_did_scroll(&mut scroll, 9, 10, 20, 100).expect("registered");
    assert_eq!(first.callback, Some(ScrollCallback(1)));
    assert_eq!(first.previous_offset, None);
    let second = handle_scroll_did_scroll(&mut scroll, 9, 30, 40, 200).expect("registered");
    assert_eq!(second.previous_offset.map(|p| (p.x, p.y)), Some((10, 20)));
    assert_eq!(second.previous_instant, Some(100));
    assert_eq!(handle_scroll_end(&mut scroll, 9), Some(Callback(3)));
    let third = handle_scroll_did_scroll(&mut scroll, 9, 50, 60, 300).expect("registered");
    assert_eq!(third.previous_offset, None);
    assert_eq!(handle_scroll_begin(&mut scroll, 9), Some(Callback(2)));
    clear_scroll_handlers(&mut scroll, 9);
    assert_eq!(handle_scroll_begin(&mut scroll, 9), None);
}

#[test]
fn accessibility_actions_route_to_their_view() {
    let mut actions = AccessibilityActions::new();
    let view = WidgetId::from_u64((2u64 << 32) | 1);
    let other = WidgetId::from_u64((3u64 << 32) | 1);
    register_accessibility_action_payload(&mut actions, 100, view.to_u64(), "Delete".to_string());
    register_accessibility_action_payload(&mut actions, 101, other.to_u64(), "Share".to_string());
    register_accessibility_action_payload(&mut actions, 102, view.to_u64(), "Archive".to_string());
    assert_eq!(
        handle_accessibility_custom_action(&actions, 100),
        Some(Event::AccessibilityAction { target: view, action: "Delete".to_string() })
    );
    register_accessibility_action_payload(&mut actions, 100, view.to_u64(), "Remove".to_string());
    assert_eq!(
        handle_accessibility_custom_action(&actions, 100),
        Some(Event::AccessibilityAction { target: view, action: "Remove".to_string() })
    );
    clear_accessibility_action_payloads(&mut actions, view.to_u64());
    assert_eq!(handle_accessibility_custom_action(&actions, 100), None);
    assert_eq!(handle_accessibility_custom_action(&actions, 102), None);
    assert_eq!(
        handle_accessibility_custom_action(&actions, 101),
        Some(Event::AccessibilityAction { target: other, action: "Share".to_string() })
    );
    assert_eq!(handle_accessibility_custom_action(&actions, 7), None);
}

#[test]
fn widget_events_carry_the_tagged_view() {
    let id = WidgetId::from_u64((5u64 << 32) | 2);
    assert_eq!(handle_tap(id.to_u64()), Event::Tap { target: id });
    assert_eq!(
        handle_value_changed(id.to_u64(), 0.5f64.to_bits()),
        Event::ValueChanged { target: id, value: 0.5f64.to_bits() }
    );
    assert_eq!(
        handle_text_changed(id.to_u64(), "héllo".to_string()),
        Event::TextChanged { target: id, value: "héllo".to_string(), selection: TextSelection::caret(6) }
    );
}

#[test]
fn media_picks_complete_when_every_item_has_loaded() {
    let mut pending = IosPending::new();
    let mut pick = MediaLoadState { remaining: 3, images: Vec::new() };
    complete_ios_media_load(&mut pick, &mut pending, Some(vec![1, 2]));
    complete_ios_media_load(&mut pick, &mut pending, None);
    assert!(pending.media_results.is_empty());
    complete_ios_media_load(&mut pick, &mut pending, Some(vec![3]));
    assert_eq!(pending.media_results, vec![vec![vec![1, 2], vec![3]]]);
    assert_eq!(pending.media_cancels, 0);

    let mut empty = MediaLoadState { remaining: 1, images: Vec::new() };
    complete_ios_media_load(&mut empty, &mut pending, None);
    assert_eq!(pending.media_cancels, 1);
    assert_eq!(pending.media_results.len(), 1);
}

#[test]
fn a_tick_dispatches_pending_results_in_order() {
    let mut pending = IosPending::new();
    let mut device = DeviceState::new();
    assert_eq!(use_permission(&mut device, PermissionKind::Camera), PermissionStatus::Unknown);
    let scanner = WidgetId::from_u64((1u64 << 32) | 1);
    pending.documents.push(vec![("a.txt".to_string(), vec![7])]);
    queue_media_cancel(&mut pending);
    pending.motion.push(MotionReading {
        accel_x: Some(1),
        accel_y: None,
        accel_z: None,
        gyro_x: None,
        gyro_y: None,
        gyro_z: Some(2),
    });
    pending.location_denied = true;
    pending.locations.push((10, 20, 30));
    queue_permission_result(&mut pending, PermissionKind::Camera, PermissionStatus::Granted);
    assert!(!request_ios_permission(&mut pending, PermissionKind::Motion));
    assert!(request_ios_permission(&mut pending, PermissionKind::Photos));
    pending.biometric.push((false, Some("cancelled".to_string())));
    queue_app_lifecycle(&mut pending, Lifecycle::Backgrounded);
    pending.deep_links.push("app://orders/1".to_string());
    pending.qr.push((scanner.to_u64(), "hello".to_string()));
    queue_media_result(&mut pending, vec![vec![9]]);

    let events = drain_tick_events(&mut pending, &mut device, Some(NetworkStatus::Cellular));
    assert_eq!(
        events,
        vec![
            Event::QrDetected { target: scanner, value: "hello".to_string() },
            Event::DeepLink { url: "app://orders/1".to_string() },
            Event::AppLifecycle(Lifecycle::Backgrounded),
            Event::BiometricResult { success: false, error: Some("cancelled".to_string()) },
            Event::PermissionChanged { permission: PermissionKind::Camera, status: PermissionStatus::Granted },
            Event::PermissionChanged { permission: PermissionKind::Motion, status: PermissionStatus::Granted },
            Event::LocationUpdated { latitude: 10, longitude: 20, accuracy: 30 },
            Event::LocationDenied,
            Event::NetworkStatusChanged { status: NetworkStatus::Cellular },
            Event::MotionUpdated {
                accel_x: Some(1),
                accel_y: None,
                accel_z: None,
                gyro_x: None,
                gyro_y: None,
                gyro_z: Some(2),
            },
            Event::MediaPicked { images: vec![vec![9]] },
            Event::MediaPickerCancelled,
            Event::DocumentPicked { files: vec![("a.txt".to_string(), vec![7])] },
        ]
    );
    assert_eq!(use_permission(&mut device, PermissionKind::Camera), PermissionStatus::Granted);
    assert!(drain_tick_events(&mut pending, &mut device, None).is_empty());
}

#[test]
fn the_frame_rate_counts_frames_of_the_last_second() {
    let mut frames = FrameTimes::new();
    assert_eq!(record_frame(&mut frames, 0), 1);
    assert_eq!(record_frame(&mut frames, 500_000_000), 2);
    assert_eq!(record_frame(&mut frames, 1_000_000_000), 3);
    assert_eq!(record_frame(&mut frames, 1_000_000_001), 3);
    assert_eq!(record_frame(&mut frames, 3_000_000_000), 1);
}

#[test]
fn device_tokens_are_sent_as_lower_case_hex() {
    assert_eq!(apns_device_token_hex(&[0x00, 0xab, 0x1f, 0xf0]), Some("00ab1ff0".to_string()));
    assert_eq!(apns_device_token_hex(&[]), None);
}

#[test]
fn uikit_codes_follow_the_platform_constants() {
    assert_eq!(ui_accessibility_traits(Role::Plain), 0);
    assert_eq!(ui_accessibility_traits(Role::Search), 1 << 10);
    assert_eq!(ui_accessibility_traits(Role::Header), 1 << 15);
    assert_eq!(ui_content_mode(ImageResizeMode::Center), 4);
    assert_eq!(ui_content_mode(ImageResizeMode::Repeat), 0);
    assert_eq!(ui_keyboard_dismiss_mode(KeyboardDismissMode::Interactive), 2);
    assert_eq!(ui_return_key_type(ReturnKeyType::Search), 8);
    assert_eq!(ui_return_key_type(ReturnKeyType::Done), 9);
    assert_eq!(ui_keyboard_type(KeyboardType::Email), 7);
    assert_eq!(ui_keyboard_type(KeyboardType::DecimalPad), 8);
    assert_eq!(ui_semantic_content_attribute(LayoutDirection::Rtl), 4);
    assert_eq!(ui_status_bar_style(StatusBarStyle::Dark), 3);
    assert_eq!(ui_text_style_name(TextStyle::LargeTitle), "UICTFontTextStyleLargeTitle");
    assert_eq!(ui_text_style_name(TextStyle::Caption2), "UIFontTextStyleCaption2");
    assert_eq!(ui_text_decoration(TextDecoration::UnderlineDouble), (9, 0));
    assert_eq!(ui_text_decoration(TextDecoration::Strikethrough), (0, 1));
    assert_eq!(ui_haptic(HapticStyle::Selection), UiHaptic::Selection);
    assert_eq!(ui_haptic(HapticStyle::Warning), UiHaptic::Notification(1));
    assert_eq!(ui_haptic(HapticStyle::Heavy), UiHaptic::Impact(2));
}
