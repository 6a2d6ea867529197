use qsonaut_gui::modes::exchange::MAX_ATTEMPTS_PER_EXCHANGE;
use qsonaut_gui::panels::app_log::{
    app_log_level_matches, app_log_line_level, app_log_line_tone, AppLogLevelFilter,
    AppLogLineLevel, AppLogLineTone,
};
use qsonaut_gui::panels::automation::{capability_label, event_label, Capability, EventKind};
use qsonaut_gui::panels::log::{contact_name_label, operator_name, OperatorName};
use qsonaut_gui::panels::devices::{
    cat_connection_precheck, device_choice_label, device_users, radio_backend_label,
    CatProbeRefusal,
};
use qsonaut_gui::profile::{
    active_profile_name_from, default_max_attempts, default_ptt_lead_ms, default_radio_backend,
    default_radio_model, default_workspace_mode, list_operator_profiles,
    named_operator_profile_path, validate_profile_name, ProfileLocation, ProfileNameError,
    DEFAULT_PROFILE_NAME, OPERATOR_PROFILE_VERSION,
};
use qsonaut_gui::profile_manager::{
    plan_profile_creation, plan_profile_deletion, plan_profile_rename, ProfileEditRefusal,
    RenamePlan,
};

fn names(list: &[&str]) -> Vec<String> {
    list.iter().map(|name| name.to_string()).collect()
}

#[test]
fn classifies_log_severity_for_filtering_and_highlighting() {
    assert_eq!(
        app_log_line_level("2026 ERROR radio failed"),
        AppLogLineLevel::Error
    );
    assert_eq!(
        app_log_line_level("2026 WARN retrying"),
        AppLogLineLevel::Warning
    );
    assert_eq!(
        app_log_line_level("2026 DEBUG poll"),
        AppLogLineLevel::Debug
    );
    assert_eq!(app_log_line_level("2026 INFO ready"), AppLogLineLevel::Info);
    assert!(app_log_level_matches(
        AppLogLineLevel::Error,
        AppLogLevelFilter::Warning
    ));
    assert!(!app_log_level_matches(
        AppLogLineLevel::Info,
        AppLogLevelFilter::Warning
    ));
}

#[test]
fn log_markers_are_matched_in_any_case_and_by_priority() {
    assert_eq!(app_log_line_level("thread panicked at main"), AppLogLineLevel::Error);
    assert_eq!(app_log_line_level("x warning: slow"), AppLogLineLevel::Warning);
    assert_eq!(app_log_line_level("12 trace frame"), AppLogLineLevel::Trace);
    assert_eq!(app_log_line_level("ERROR at start"), AppLogLineLevel::Info);
    assert_eq!(app_log_line_level("a WARN and an ERROR here"), AppLogLineLevel::Error);
}

#[test]
fn level_filters_keep_the_expected_severities() {
    for level in [
        AppLogLineLevel::Trace,
        AppLogLineLevel::Debug,
        AppLogLineLevel::Info,
        AppLogLineLevel::Warning,
        AppLogLineLevel::Error,
    ] {
        assert!(app_log_level_matches(level, AppLogLevelFilter::All));
    }
    assert!(!app_log_level_matches(AppLogLineLevel::Debug, AppLogLevelFilter::Info));
    assert!(app_log_level_matches(AppLogLineLevel::Info, AppLogLevelFilter::Info));
    assert!(!app_log_level_matches(AppLogLineLevel::Warning, AppLogLevelFilter::Error));
    assert!(app_log_level_matches(AppLogLineLevel::Error, AppLogLevelFilter::Error));
}

#[test]
fn log_tone_follows_severity_then_traffic() {
    assert_eq!(app_log_line_tone("2026 ERROR radio failed"), AppLogLineTone::Error);
    assert_eq!(app_log_line_tone("2026 WARN retrying"), AppLogLineTone::Warning);
    assert_eq!(app_log_line_tone("2026 DEBUG poll"), AppLogLineTone::Muted);
    assert_eq!(app_log_line_tone("2026 INFO ptt on"), AppLogLineTone::Transmit);
    assert_eq!(app_log_line_tone("2026 INFO 3 decodes"), AppLogLineTone::Receive);
    assert_eq!(app_log_line_tone("2026 INFO ready"), AppLogLineTone::Plain);
}

#[test]
fn backend_labels_are_ui_owned_connection_labels() {
    assert_eq!(radio_backend_label("native"), "Native Rigwright");
    assert_eq!(radio_backend_label("RIGCTLD"), "Hamlib rigctld");
    assert_eq!(radio_backend_label("custom"), "custom");
}

#[test]
fn backend_labels_keep_padded_names_as_typed() {
    assert_eq!(radio_backend_label(" NATIVE "), " NATIVE ");
    assert_eq!(radio_backend_label("HostBridge"), "Remote HostBridge");
    assert_eq!(radio_backend_label("dxlab"), "DX Lab Commander");
    assert_eq!(radio_backend_label("Null"), "Offline test radio");
}

#[test]
fn cat_probe_rejects_non_native_and_missing_port_before_opening_hardware() {
    let non_native = cat_connection_precheck("rigctld", "/dev/ttyUSB0")
        .expect_err("external backends are not probed here");
    assert!(non_native.message().contains("Native Rigwright backend"));

    let missing_port =
        cat_connection_precheck("native", "").expect_err("a CAT probe requires a selected port");
    assert!(missing_port.message().contains("specific serial port"));
}

#[test]
fn cat_precheck_names_the_refused_backend_and_accepts_native_ports() {
    assert_eq!(
        cat_connection_precheck("rigctld", ""),
        Err(CatProbeRefusal::NotNative("rigctld".to_string()))
    );
    assert_eq!(
        CatProbeRefusal::NotNative("dxlab".to_string()).message(),
        "CAT test requires the Native Rigwright backend; selected backend is 'dxlab'."
    );
    assert_eq!(cat_connection_precheck("NATIVE", "/dev/ttyUSB0"), Ok(()));
    assert_eq!(
        cat_connection_precheck("Native", ""),
        Err(CatProbeRefusal::MissingPort)
    );
}

#[test]
fn profile_names_allow_human_readable_safe_names() {
    assert_eq!(
        validate_profile_name(" Field Day 2026 ").unwrap(),
        "Field Day 2026"
    );
    assert!(validate_profile_name("portable_vhf-2").is_ok());
}

#[test]
fn profile_names_reject_paths_and_empty_values() {
    assert!(validate_profile_name("").is_err());
    assert!(validate_profile_name("../other").is_err());
    assert!(validate_profile_name("club/profile").is_err());
}

#[test]
fn profile_name_errors_say_why() {
    assert_eq!(validate_profile_name("   "), Err(ProfileNameError::Empty));
    assert_eq!(
        validate_profile_name("a.b"),
        Err(ProfileNameError::InvalidCharacters)
    );
    assert_eq!(ProfileNameError::Empty.message(), "profile name cannot be empty");
    assert_eq!(
        ProfileNameError::InvalidCharacters.message(),
        "profile names may contain only letters, numbers, spaces, '-' and '_'"
    );
}

#[test]
fn default_profile_lives_in_the_main_file_and_others_in_the_profiles_dir() {
    assert_eq!(
        named_operator_profile_path(" default "),
        Ok(ProfileLocation::DefaultFile)
    );
    assert_eq!(
        named_operator_profile_path(" Field Day "),
        Ok(ProfileLocation::ProfilesDir("Field Day.toml".to_string()))
    );
    assert_eq!(
        named_operator_profile_path("../x"),
        Err(ProfileNameError::InvalidCharacters)
    );
}

#[test]
fn active_profile_falls_back_to_default() {
    assert_eq!(active_profile_name_from(None), DEFAULT_PROFILE_NAME);
    assert_eq!(active_profile_name_from(Some("bad/name")), "Default");
    assert_eq!(active_profile_name_from(Some("  Contest \n")), "Contest");
}

#[test]
fn profile_listing_sorts_ignoring_case_and_drops_repeats() {
    let listed = list_operator_profiles(&names(&[
        "portable", "DEFAULT", "Alpha", "bad/name", "alpha",
    ]));
    assert_eq!(listed, names(&["Alpha", "Default", "portable"]));
    assert_eq!(list_operator_profiles(&Vec::new()), names(&["Default"]));
}

#[test]
fn creation_plan_trims_and_refuses_known_names() {
    let available = names(&["Default", "Contest"]);
    assert_eq!(
        plan_profile_creation("  Field Day ", &available),
        Ok("Field Day".to_string())
    );
    assert_eq!(
        plan_profile_creation("   ", &available),
        Err(ProfileEditRefusal::EmptyName)
    );
    let refused = plan_profile_creation(" contest ", &available).unwrap_err();
    assert_eq!(refused, ProfileEditRefusal::AlreadyExists("contest".to_string()));
    assert_eq!(refused.message(), "Profile ‘contest’ already exists");
}

#[test]
fn rename_plan_keeps_case_changes_and_refuses_taken_names() {
    let available = names(&["Default", "Contest", "Portable"]);
    assert_eq!(
        plan_profile_rename("Contest", " CONTEST ", &available),
        RenamePlan::KeepName("Contest".to_string())
    );
    assert_eq!(
        plan_profile_rename("Contest", "portable", &available),
        RenamePlan::Refused(ProfileEditRefusal::AlreadyExists("portable".to_string()))
    );
    assert_eq!(
        plan_profile_rename("Contest", "", &available),
        RenamePlan::Refused(ProfileEditRefusal::EmptyName)
    );
    assert_eq!(
        plan_profile_rename("Contest", " Sprint ", &available),
        RenamePlan::Rename {
            from: "Contest".to_string(),
            to: "Sprint".to_string()
        }
    );
}

#[test]
fn deletion_plan_picks_the_first_other_profile() {
    assert_eq!(
        plan_profile_deletion("Default", &names(&["Default"])),
        Err(ProfileEditRefusal::LastProfile)
    );
    assert_eq!(
        plan_profile_deletion("default", &names(&["Default", "Contest"])),
        Ok("Contest".to_string())
    );
    assert_eq!(
        plan_profile_deletion("Contest", &names(&["Default", "Contest"])),
        Ok("Default".to_string())
    );
    assert_eq!(
        plan_profile_deletion("x", &names(&["X", "x"])),
        Err(ProfileEditRefusal::NoReplacement)
    );
    assert_eq!(
        ProfileEditRefusal::LastProfile.message(),
        "The last profile cannot be deleted"
    );
}

#[test]
fn profile_defaults_match_the_stored_format() {
    assert_eq!(OPERATOR_PROFILE_VERSION, 13);
    assert_eq!(default_ptt_lead_ms(), 200);
    assert_eq!(default_max_attempts(), MAX_ATTEMPTS_PER_EXCHANGE);
    assert_eq!(default_radio_backend(), "native");
    assert_eq!(default_radio_model(), "IC-7300");
    assert_eq!(default_workspace_mode(), "FT8");
}

#[test]
fn capability_labels_cover_the_automation_contract() {
    let labels = [
        (Capability::UiNotification, "UI notifications"),
        (Capability::ExternalSend, "External send"),
        (Capability::ServerRead, "Server read"),
        (Capability::ServerPublish, "Server publish"),
        (Capability::SetCompose, "Set compose text"),
        (Capability::RadioControl, "Radio controls"),
        (Capability::Transmit, "Transmit"),
    ];

    for (capability, expected) in labels {
        assert_eq!(capability_label(capability), expected);
    }
}

#[test]
fn event_labels_cover_the_automation_contract() {
    let labels = [
        (EventKind::Decode, "decode"),
        (EventKind::CallsignHit, "callsign_hit"),
        (EventKind::QsoLogged, "qso_logged"),
        (EventKind::RadioState, "radio_state"),
        (EventKind::ContestState, "contest_state"),
        (EventKind::OperatorProfile, "operator_profile"),
        (EventKind::Command, "command"),
        (EventKind::ExternalMessage, "external_message"),
        (EventKind::ServerMessage, "server_message"),
        (EventKind::Timer, "timer"),
        (EventKind::ControlRead, "control_read"),
    ];

    for (event, expected) in labels {
        assert_eq!(event_label(event), expected);
    }
}

#[test]
fn component_state_events_have_a_label_too() {
    assert_eq!(event_label(EventKind::ComponentState), "component_state");
}

#[test]
fn device_menu_names_the_profiles_using_a_device() {
    let users = names(&["Default", "Contest"]);
    assert_eq!(
        device_choice_label("hw:1", Some(&users), "not assigned"),
        "hw:1 · used by Default, Contest"
    );
    assert_eq!(
        device_choice_label("hw:2", Some(&Vec::new()), "not assigned"),
        "hw:2 · not assigned"
    );
    assert_eq!(device_choice_label("hw:3", None, "free"), "hw:3 · free");
}

#[test]
fn device_users_lists_profiles_in_order() {
    let assignments = vec![
        ("Default".to_string(), Some("hw:1".to_string())),
        ("Contest".to_string(), None),
        ("Portable".to_string(), Some("hw:1".to_string())),
        ("Field".to_string(), Some("hw:2".to_string())),
    ];
    assert_eq!(device_users(&assignments, "hw:1"), names(&["Default", "Portable"]));
    assert_eq!(device_users(&assignments, "hw:3"), Vec::<String>::new());
    let users = device_users(&assignments, "hw:2");
    assert_eq!(
        device_choice_label("hw:2", Some(&users), "unused"),
        "hw:2 · used by Field"
    );
}

#[test]
fn contact_log_names_join_the_filled_parts() {
    let name = OperatorName {
        first_name: " Hiram ".to_string(),
        middle_name: "  ".to_string(),
        name: "Maxim".to_string(),
        suffix: " Jr ".to_string(),
    };
    assert_eq!(operator_name(&name), "Hiram Maxim Jr");
    assert_eq!(contact_name_label(Some(&name)), "Hiram Maxim Jr");
    let empty = OperatorName {
        first_name: String::new(),
        middle_name: " ".to_string(),
        name: String::new(),
        suffix: String::new(),
    };
    assert_eq!(operator_name(&empty), "");
    assert_eq!(contact_name_label(Some(&empty)), "—");
    assert_eq!(contact_name_label(None), "—");
}
