use raxon::assoc::StringMap;
use raxon::core_types::{Color, ColorScheme, EdgeInsets};
use raxon::dom::event::Lifecycle;
use raxon::dom::mutation::{HapticStyle, LayoutDirection, LocalNotification, Mutation, PermissionKind, PermissionStatus};
use raxon::runtime::{
    authenticate_biometric, cancel_notification, check_permission, clear_push_token,
    clear_ui_state, current_frame, debounce, haptic, layout_direction_for_locale,
    normalize_locale_tag, open_external_url, present_document_picker, register_background_task,
    register_for_push, request_permission, restore_ui_state, save_ui_state,
    schedule_background_task, schedule_notification, set_app_badge, set_backdrop, set_clipboard,
    set_torch, share_text, start_location, start_motion, stop_location, stop_motion, throttle,
    update_app_lifecycle, update_battery, update_network_status, update_permission,
    update_push_token, update_safe_area_insets, update_system_locale, use_app_lifecycle,
    use_battery_charging, use_battery_level, use_color_scheme, use_frame_counter, use_high_contrast,
    use_network_status, use_permission, use_push_token, use_safe_area_insets, use_system_locale,
    Appearance, Backdrop, DeviceState, FrameClock, NetworkStatus, PendingRequests,
};

#[test]
fn a_frame_emits_queued_requests_in_order_then_nothing() {
    let mut p = PendingRequests::new();
    set_app_badge(&mut p, 3);
    open_external_url(&mut p, "https://x.test");
    haptic(&mut p, HapticStyle::Light);
    haptic(&mut p, HapticStyle::Success);
    start_motion(&mut p, true, false);
    start_location(&mut p);
    cancel_notification(&mut p, "n1");
    schedule_notification(&mut p, LocalNotification {
        id: "n2".to_string(),
        title: "t".to_string(),
        body: "b".to_string(),
        delay_seconds: 0,
    });
    check_permission(&mut p, PermissionKind::Camera);
    request_permission(&mut p, PermissionKind::Photos);
    authenticate_biometric(&mut p, "unlock");
    present_document_picker(&mut p, vec!["public.pdf".to_string()]);
    stop_location(&mut p);
    stop_motion(&mut p);
    register_background_task(&mut p, "sync");
    schedule_background_task(&mut p, "sync", 60.0f64.to_bits());
    set_clipboard(&mut p, "copy");
    share_text(&mut p, "share");
    set_torch(&mut p, false);
    set_torch(&mut p, true);
    register_for_push(&mut p);

    let out = p.drain();
    assert_eq!(
        out,
        vec![
            Mutation::Haptic { style: HapticStyle::Light },
            Mutation::Haptic { style: HapticStyle::Success },
            Mutation::PresentDocumentPicker { types: vec!["public.pdf".to_string()] },
            Mutation::ScheduleNotification(LocalNotification {
                id: "n2".to_string(),
                title: "t".to_string(),
                body: "b".to_string(),
                delay_seconds: 0,
            }),
            Mutation::CancelNotification { id: "n1".to_string() },
            Mutation::AuthenticateBiometric { reason: "unlock".to_string() },
            Mutation::CheckPermission { permission: PermissionKind::Camera },
            Mutation::RequestPermission { permission: PermissionKind::Photos },
            Mutation::StartLocation,
            Mutation::StopLocation,
            Mutation::StartMotion { accelerometer: true, gyroscope: false },
            Mutation::StopMotion,
            Mutation::RegisterBackgroundTask { identifier: "sync".to_string() },
            Mutation::ScheduleBackgroundTask { identifier: "sync".to_string(), earliest_seconds: 60.0f64.to_bits() },
            Mutation::SetClipboard { text: "copy".to_string() },
            Mutation::ShareText { text: "share".to_string() },
            Mutation::OpenExternalUrl { url: "https://x.test".to_string() },
            Mutation::SetTorch { on: true },
            Mutation::RegisterForPushNotifications,
            Mutation::SetAppBadge { count: 3 },
        ]
    );
    assert!(p.drain().is_empty());
}

#[test]
fn readings_land_only_once_observed() {
    let mut d = DeviceState::new();
    update_network_status(&mut d, NetworkStatus::WiFi);
    assert_eq!(use_network_status(&mut d), NetworkStatus::Unknown);
    update_network_status(&mut d, NetworkStatus::Cellular);
    assert_eq!(use_network_status(&mut d), NetworkStatus::Cellular);

    assert_eq!(use_app_lifecycle(&mut d), Lifecycle::Resumed);
    update_app_lifecycle(&mut d, Lifecycle::Backgrounded);
    assert_eq!(use_app_lifecycle(&mut d), Lifecycle::Backgrounded);

    update_permission(&mut d, PermissionKind::Camera, PermissionStatus::Granted);
    assert_eq!(use_permission(&mut d, PermissionKind::Camera), PermissionStatus::Unknown);
    update_permission(&mut d, PermissionKind::Camera, PermissionStatus::Denied);
    assert_eq!(use_permission(&mut d, PermissionKind::Camera), PermissionStatus::Denied);
    assert_eq!(use_permission(&mut d, PermissionKind::Location), PermissionStatus::Unknown);

    assert_eq!(use_push_token(&mut d), None);
    update_push_token(&mut d, "tok".to_string());
    assert_eq!(use_push_token(&mut d), Some("tok".to_string()));
    clear_push_token(&mut d);
    assert_eq!(use_push_token(&mut d), None);

    assert!(!use_battery_charging(&mut d));
    update_battery(&mut d, 0.5f32.to_bits(), true);
    assert!(use_battery_charging(&mut d));
    assert_eq!(d.battery_level, None);
    assert_eq!(use_battery_level(&mut d), 1.0f32.to_bits());
    update_battery(&mut d, 0.25f32.to_bits(), false);
    assert_eq!(use_battery_level(&mut d), 0.25f32.to_bits());
    assert!(!use_battery_charging(&mut d));

    assert_eq!(use_safe_area_insets(&mut d), EdgeInsets::zero());
    let insets = EdgeInsets { top: 47.0f32.to_bits(), left: 0, bottom: 34.0f32.to_bits(), right: 0 };
    update_safe_area_insets(&mut d, insets);
    assert_eq!(use_safe_area_insets(&mut d), insets);
}

#[test]
fn locales_are_normalized_and_pick_a_direction() {
    assert_eq!(normalize_locale_tag("en_US.UTF-8"), "en-US");
    assert_eq!(normalize_locale_tag("  fr_CA "), "fr-CA");
    assert_eq!(normalize_locale_tag(""), "en");
    assert_eq!(normalize_locale_tag(".UTF-8"), "en");
    assert_eq!(layout_direction_for_locale("ar-EG"), LayoutDirection::Rtl);
    assert_eq!(layout_direction_for_locale("HE_il"), LayoutDirection::Rtl);
    assert_eq!(layout_direction_for_locale("fa"), LayoutDirection::Rtl);
    assert_eq!(layout_direction_for_locale("en-US"), LayoutDirection::Ltr);
    assert_eq!(layout_direction_for_locale("arab"), LayoutDirection::Ltr);

    let mut d = DeviceState::new();
    assert_eq!(update_system_locale(&mut d, "he_IL"), LayoutDirection::Rtl);
    assert_eq!(use_system_locale(&mut d, "de_DE.UTF-8"), "de-DE");
    assert_eq!(update_system_locale(&mut d, "ur_PK"), LayoutDirection::Rtl);
    assert_eq!(use_system_locale(&mut d, "de_DE"), "ur-PK");
}

#[test]
fn backdrops_resolve_per_scheme_and_are_sent_once() {
    let light = Color::rgb(255, 255, 255);
    let dark = Color::rgb(0, 0, 0);
    let system = Backdrop::System { light, dark };
    assert_eq!(system.resolve(ColorScheme::Light), light);
    assert_eq!(system.resolve(ColorScheme::Dark), dark);
    assert_eq!(Backdrop::Solid(light).resolve(ColorScheme::Dark), light);

    let mut a = Appearance::new();
    assert_eq!(a.refresh_backdrop(), None);
    set_backdrop(&mut a, system);
    assert_eq!(a.refresh_backdrop(), Some(light));
    assert_eq!(a.refresh_backdrop(), None);
    assert_eq!(a.set_color_scheme(ColorScheme::Light), None);
    assert_eq!(a.set_color_scheme(ColorScheme::Dark), Some(dark));
    assert_eq!(use_color_scheme(&a), ColorScheme::Dark);
    assert!(!use_high_contrast(&a));
    a.set_high_contrast(true);
    assert!(use_high_contrast(&a));
}

#[test]
fn frames_count_and_wrap() {
    let mut c = FrameClock::new();
    assert_eq!(use_frame_counter(&mut c), 0);
    assert_eq!(c.advance(), 1);
    assert_eq!(current_frame(&c), 1);
    c.frame = u64::MAX;
    assert_eq!(c.advance(), 0);
}

#[test]
fn debounce_commits_after_stable_frames() {
    let mut d = debounce(0u32, 2);
    assert_eq!(d.observe(5), 0);
    assert_eq!(d.observe(5), 0);
    assert_eq!(d.observe(5), 5);
    assert_eq!(d.observe(6), 5);
    let mut immediate = debounce(1u8, 0);
    assert_eq!(immediate.observe(9), 9);
}

#[test]
fn throttle_follows_once_per_window() {
    let mut t = throttle(0u32, 3);
    assert_eq!(*t.observe(1, 10), 0);
    assert_eq!(*t.observe(3, 11), 11);
    assert_eq!(*t.observe(5, 12), 11);
    assert_eq!(*t.observe(6, 13), 13);
}

#[test]
fn ui_state_saves_restores_and_clears() {
    let mut s = StringMap::new();
    assert_eq!(restore_ui_state(&s, "tab"), None);
    save_ui_state(&mut s, "tab", "2");
    save_ui_state(&mut s, "scroll", "40");
    save_ui_state(&mut s, "tab", "3");
    assert_eq!(restore_ui_state(&s, "tab"), Some("3".to_string()));
    clear_ui_state(&mut s, "tab");
    assert_eq!(restore_ui_state(&s, "tab"), None);
    assert_eq!(restore_ui_state(&s, "scroll"), Some("40".to_string()));
}
