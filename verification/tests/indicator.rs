use libappindicator::AppIndicator;
use libappindicator::AppIndicatorCategory;
use libappindicator::AppIndicatorStatus;
use libappindicator::Error;
use libappindicator::ErrorReason;
use libappindicator::MenuRef;
use libappindicator::WidgetRef;

#[test]
fn new_status_is_passive() {
    let ind = AppIndicator::new("my-app", "my-icon");
    assert_eq!(ind.get_status(), AppIndicatorStatus::Passive);
    let ind2 = AppIndicator::with_path("my-app", "my-icon", "/usr/share/icons");
    assert_eq!(ind2.get_status(), AppIndicatorStatus::Passive);
}

#[test]
fn status_round_trip_all_values() {
    let mut ind = AppIndicator::new("my-app", "my-icon");
    for status in [
        AppIndicatorStatus::Passive,
        AppIndicatorStatus::Active,
        AppIndicatorStatus::Attention,
    ] {
        ind.set_status(status);
        assert_eq!(ind.get_status(), status);
    }
}

#[test]
fn title_round_trip() {
    let mut ind = AppIndicator::new("my-app", "my-icon");
    ind.set_title("hello world");
    assert_eq!(ind.get_title(), Ok("hello world".to_string()));
    ind.set_title("titre accentu\u{00e9} \u{1f496}");
    assert_eq!(ind.get_title(), Ok("titre accentu\u{00e9} \u{1f496}".to_string()));
}

#[test]
fn absent_sources_report_null_pointer() {
    let ind = AppIndicator::new("my-app", "my-icon");
    for r in [
        ind.get_title(),
        ind.get_label(),
        ind.get_label_guide(),
        ind.get_icon_desc(),
        ind.get_icon_theme_path(),
        ind.get_attention_icon(),
        ind.get_attention_icon_desc(),
    ] {
        let e = r.expect_err("a source that was never set must be absent");
        assert_eq!(e, Error::null_ptr());
        assert_eq!(e.reason(), ErrorReason::NullPtr);
        assert_eq!(e.message(), "null string pointer");
    }
}

#[test]
fn category_is_fixed_across_mutations() {
    let mut ind = AppIndicator::new("my-app", "my-icon");
    assert_eq!(ind.get_category(), AppIndicatorCategory::ApplicationStatus);
    ind.set_status(AppIndicatorStatus::Attention);
    ind.set_title("t");
    ind.set_label("l", "g");
    ind.set_icon("i");
    ind.set_icon_theme_path("/p");
    ind.set_icon_full("i2", "d2");
    ind.set_attention_icon("a");
    ind.set_attention_icon_full("a2", "ad2");
    ind.set_menu(MenuRef { id: 3 });
    ind.set_secondary_activate_target(WidgetRef { id: 4 });
    assert_eq!(ind.get_category(), AppIndicatorCategory::ApplicationStatus);
}

#[test]
fn category_codes_round_trip() {
    let all = [
        AppIndicatorCategory::ApplicationStatus,
        AppIndicatorCategory::Communications,
        AppIndicatorCategory::SystemServices,
        AppIndicatorCategory::Hardware,
        AppIndicatorCategory::Other,
    ];
    for (code, category) in all.iter().enumerate() {
        let code = code as u32;
        assert_eq!(AppIndicatorCategory::from_code(code), Some(*category));
        assert_eq!(category.code(), code);
    }
}

#[test]
fn status_codes_round_trip() {
    let all = [
        AppIndicatorStatus::Passive,
        AppIndicatorStatus::Active,
        AppIndicatorStatus::Attention,
    ];
    for (code, status) in all.iter().enumerate() {
        let code = code as u32;
        assert_eq!(AppIndicatorStatus::from_code(code), Some(*status));
        assert_eq!(status.code(), code);
    }
}

#[test]
fn unknown_codes_are_typed_not_fatal() {
    assert_eq!(AppIndicatorCategory::from_code(5), None);
    assert_eq!(AppIndicatorCategory::from_code(99), None);
    assert_eq!(AppIndicatorCategory::from_code(u32::MAX), None);
    assert_eq!(AppIndicatorStatus::from_code(3), None);
    assert_eq!(AppIndicatorStatus::from_code(u32::MAX), None);
}

#[test]
fn menu_reference_is_shared_not_fresh() {
    let mut ind = AppIndicator::new("my-app", "my-icon");
    assert_eq!(ind.get_menu(), None);
    let menu = MenuRef { id: 0x5151 };
    ind.set_menu(menu);
    let first = ind.get_menu();
    let second = ind.get_menu();
    assert_eq!(first, Some(menu));
    assert_eq!(first, second);
}

#[test]
fn secondary_activate_target_is_shared() {
    let mut ind = AppIndicator::new("my-app", "my-icon");
    assert_eq!(ind.get_secondary_activate_target(), None);
    let widget = WidgetRef { id: 77 };
    ind.set_secondary_activate_target(widget);
    assert_eq!(ind.get_secondary_activate_target(), Some(widget));
    assert_eq!(ind.get_secondary_activate_target(), Some(widget));
}

#[test]
fn construction_records_id_icon_and_path() {
    let ind = AppIndicator::new("the-id", "the-icon");
    assert_eq!(ind.get_id(), Ok("the-id".to_string()));
    assert_eq!(ind.get_icon(), Ok("the-icon".to_string()));
    assert_eq!(
        ind.get_icon_theme_path().expect_err("no theme path was given"),
        Error::null_ptr()
    );
    assert_eq!(ind.get_ordering_index(), 0);

    let ind2 = AppIndicator::with_path("the-id", "the-icon", "/usr/share/icons");
    assert_eq!(ind2.get_icon_theme_path(), Ok("/usr/share/icons".to_string()));
}

#[test]
fn setters_record_their_values() {
    let mut ind = AppIndicator::new("my-app", "my-icon");
    ind.set_label("unread: 3", "unread: 00");
    assert_eq!(ind.get_label(), Ok("unread: 3".to_string()));
    assert_eq!(ind.get_label_guide(), Ok("unread: 00".to_string()));
    ind.set_icon_full("icon-b", "a blue icon");
    assert_eq!(ind.get_icon(), Ok("icon-b".to_string()));
    assert_eq!(ind.get_icon_desc(), Ok("a blue icon".to_string()));
    ind.set_attention_icon_full("icon-red", "a red icon");
    assert_eq!(ind.get_attention_icon(), Ok("icon-red".to_string()));
    assert_eq!(ind.get_attention_icon_desc(), Ok("a red icon".to_string()));
    ind.set_icon("icon-c");
    assert_eq!(ind.get_icon(), Ok("icon-c".to_string()));
    ind.set_icon_theme_path("/opt/icons");
    assert_eq!(ind.get_icon_theme_path(), Ok("/opt/icons".to_string()));
}
