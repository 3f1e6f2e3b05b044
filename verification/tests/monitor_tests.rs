use hertzrate::monitor::{
    DeviceRecord, DeviceSnapshot, ModeQuery, ModeRecord, Monitor, MonitorError,
    ATTACHED_TO_DESKTOP, CHANGE_SUCCESSFUL,
};
use hertzrate::wide::string_to_wide;

fn mode(width: u32, height: u32, refresh_rate: u32) -> ModeRecord {
    ModeRecord { width, height, refresh_rate }
}

fn device(name: &str, description: &str, state_flags: u32, query: ModeQuery) -> DeviceSnapshot {
    DeviceSnapshot {
        record: DeviceRecord {
            name: string_to_wide(name),
            description: string_to_wide(description),
            state_flags,
        },
        query,
    }
}

fn scenario_a_devices() -> Vec<DeviceSnapshot> {
    let attached = device(
        "\\\\.\\DISPLAY1",
        "Primary Monitor",
        ATTACHED_TO_DESKTOP,
        ModeQuery::Modes {
            current: mode(1920, 1080, 60),
            all: vec![
                mode(1920, 1080, 60),
                mode(1920, 1080, 75),
                mode(1920, 1080, 120),
                mode(1280, 720, 144),
            ],
        },
    );
    let detached = device(
        "\\\\.\\DISPLAY2",
        "Disconnected Monitor",
        0,
        ModeQuery::Modes {
            current: mode(2560, 1440, 144),
            all: vec![mode(2560, 1440, 144)],
        },
    );
    vec![attached, detached]
}

#[test]
fn scenario_one_attached_one_detached() {
    let monitors = Monitor::enumerate_monitors(&scenario_a_devices());
    assert_eq!(monitors.len(), 1);
    let m = &monitors[0];
    assert_eq!(m.device_name, "\\\\.\\DISPLAY1");
    assert_eq!(m.description, "Primary Monitor");
    assert_eq!(m.current_width, 1920);
    assert_eq!(m.current_height, 1080);
    assert_eq!(m.current_refresh_rate, 60);
    assert_eq!(m.available_refresh_rates, vec![60, 75, 120]);
}

#[test]
fn detached_device_with_valid_modes_never_listed() {
    let only_detached = vec![device(
        "\\\\.\\DISPLAY9",
        "Ghost",
        0,
        ModeQuery::Modes {
            current: mode(1920, 1080, 60),
            all: vec![mode(1920, 1080, 60)],
        },
    )];
    assert!(Monitor::enumerate_monitors(&only_detached).is_empty());
}

#[test]
fn failed_mode_query_skips_device_only() {
    let devices = vec![
        device("\\\\.\\DISPLAY1", "Broken", ATTACHED_TO_DESKTOP, ModeQuery::Failed),
        device(
            "\\\\.\\DISPLAY2",
            "Working",
            ATTACHED_TO_DESKTOP,
            ModeQuery::Modes {
                current: mode(800, 600, 75),
                all: vec![mode(800, 600, 75)],
            },
        ),
    ];
    let monitors = Monitor::enumerate_monitors(&devices);
    assert_eq!(monitors.len(), 1);
    assert_eq!(monitors[0].description, "Working");
}

#[test]
fn rates_are_sorted_and_deduplicated() {
    let devices = vec![device(
        "\\\\.\\DISPLAY1",
        "Primary Monitor",
        ATTACHED_TO_DESKTOP,
        ModeQuery::Modes {
            current: mode(1920, 1080, 60),
            all: vec![
                mode(1920, 1080, 120),
                mode(1920, 1080, 60),
                mode(1920, 1080, 75),
                mode(1920, 1080, 60),
                mode(1920, 1080, 120),
            ],
        },
    )];
    let monitors = Monitor::enumerate_monitors(&devices);
    assert_eq!(monitors[0].available_refresh_rates, vec![60, 75, 120]);
}

#[test]
fn current_rate_missing_from_modes_stays_absent() {
    // The OS reports a current rate that none of the enumerated modes
    // carries: the snapshot is still produced and the rate is not forced in.
    let devices = vec![device(
        "\\\\.\\DISPLAY1",
        "Odd Monitor",
        ATTACHED_TO_DESKTOP,
        ModeQuery::Modes {
            current: mode(1920, 1080, 59),
            all: vec![mode(1920, 1080, 60), mode(1920, 1080, 75)],
        },
    )];
    let monitors = Monitor::enumerate_monitors(&devices);
    assert_eq!(monitors.len(), 1);
    assert_eq!(monitors[0].current_refresh_rate, 59);
    assert_eq!(monitors[0].available_refresh_rates, vec![60, 75]);
    assert!(!monitors[0].available_refresh_rates.contains(&59));
}

#[test]
fn modes_at_other_resolutions_are_discarded() {
    let devices = vec![device(
        "\\\\.\\DISPLAY1",
        "Primary Monitor",
        ATTACHED_TO_DESKTOP,
        ModeQuery::Modes {
            current: mode(1920, 1080, 60),
            all: vec![
                mode(1920, 1080, 60),
                mode(1280, 720, 240),
                mode(3840, 2160, 30),
            ],
        },
    )];
    let monitors = Monitor::enumerate_monitors(&devices);
    assert_eq!(monitors[0].available_refresh_rates, vec![60]);
}

#[test]
fn inspect_assembles_the_snapshot() {
    let d = device(
        "\\\\.\\DISPLAY1",
        "Primary Monitor",
        ATTACHED_TO_DESKTOP,
        ModeQuery::Modes {
            current: mode(1920, 1080, 60),
            all: vec![mode(1920, 1080, 75), mode(1920, 1080, 60)],
        },
    );
    let m = Monitor::inspect(&d.record, &d.query).expect("query succeeded");
    assert_eq!(m.device_name, "\\\\.\\DISPLAY1");
    assert_eq!(m.description, "Primary Monitor");
    assert_eq!(m.available_refresh_rates, vec![60, 75]);
}

#[test]
fn zero_valued_current_mode_is_a_device_error() {
    // A frequency of zero is the OS reporting a hardware default, not a real
    // mode: the snapshot's fields must stay positive, so the device errors.
    let d = device(
        "\\\\.\\DISPLAY4",
        "Defaulted",
        ATTACHED_TO_DESKTOP,
        ModeQuery::Modes {
            current: mode(1920, 1080, 0),
            all: vec![mode(1920, 1080, 60)],
        },
    );
    match Monitor::inspect(&d.record, &d.query) {
        Err(MonitorError::DeviceQueryFailure { device_name }) => {
            assert_eq!(device_name, "\\\\.\\DISPLAY4");
        }
        other => panic!("expected a device-query error, got {:?}", other),
    }
}

#[test]
fn zero_valued_current_mode_is_not_enumerated() {
    let devices = vec![
        device(
            "\\\\.\\DISPLAY1",
            "Defaulted",
            ATTACHED_TO_DESKTOP,
            ModeQuery::Modes {
                current: mode(0, 0, 0),
                all: vec![mode(1920, 1080, 60)],
            },
        ),
        device(
            "\\\\.\\DISPLAY2",
            "Working",
            ATTACHED_TO_DESKTOP,
            ModeQuery::Modes {
                current: mode(800, 600, 75),
                all: vec![mode(800, 600, 75)],
            },
        ),
    ];
    let monitors = Monitor::enumerate_monitors(&devices);
    assert_eq!(monitors.len(), 1);
    assert_eq!(monitors[0].description, "Working");
}

#[test]
fn zero_rate_modes_are_never_available() {
    let devices = vec![device(
        "\\\\.\\DISPLAY1",
        "Primary Monitor",
        ATTACHED_TO_DESKTOP,
        ModeQuery::Modes {
            current: mode(1920, 1080, 60),
            all: vec![
                mode(1920, 1080, 0),
                mode(1920, 1080, 60),
                mode(1920, 1080, 75),
            ],
        },
    )];
    let monitors = Monitor::enumerate_monitors(&devices);
    assert_eq!(monitors[0].available_refresh_rates, vec![60, 75]);
}

#[test]
fn inspect_surfaces_a_failed_query_as_device_error() {
    let d = device("\\\\.\\DISPLAY3", "Flaky", ATTACHED_TO_DESKTOP, ModeQuery::Failed);
    match Monitor::inspect(&d.record, &d.query) {
        Err(MonitorError::DeviceQueryFailure { device_name }) => {
            assert_eq!(device_name, "\\\\.\\DISPLAY3");
        }
        other => panic!("expected a device-query error, got {:?}", other),
    }
}

#[test]
fn empty_registry_gives_no_monitors() {
    assert!(Monitor::enumerate_monitors(&Vec::new()).is_empty());
}

#[test]
fn enumerating_twice_gives_equal_content() {
    let devices = scenario_a_devices();
    let first = Monitor::enumerate_monitors(&devices);
    let second = Monitor::enumerate_monitors(&devices);
    assert_eq!(first, second);
}

#[test]
fn scenario_unsupported_rate_is_rejected_before_any_call() {
    let monitors = Monitor::enumerate_monitors(&scenario_a_devices());
    let result = monitors[0].plan_refresh_rate_change(144);
    match result {
        Err(MonitorError::UnsupportedRate { requested, available, description }) => {
            assert_eq!(requested, 144);
            assert_eq!(available, vec![60, 75, 120]);
            assert_eq!(description, "Primary Monitor");
        }
        other => panic!("expected an unsupported-rate error, got {:?}", other),
    }
}

#[test]
fn supported_rate_yields_one_request_preserving_resolution() {
    let monitors = Monitor::enumerate_monitors(&scenario_a_devices());
    let request = monitors[0].plan_refresh_rate_change(75).expect("75 Hz is available");
    assert_eq!(request.device_name, "\\\\.\\DISPLAY1");
    assert_eq!(request.width, 1920);
    assert_eq!(request.height, 1080);
    assert_eq!(request.refresh_rate, 75);
    assert!(request.persist);
}

#[test]
fn current_rate_is_plannable_too() {
    let monitors = Monitor::enumerate_monitors(&scenario_a_devices());
    assert!(monitors[0].plan_refresh_rate_change(60).is_ok());
}

#[test]
fn success_status_code_is_accepted() {
    let monitors = Monitor::enumerate_monitors(&scenario_a_devices());
    assert!(monitors[0].interpret_change_status(75, CHANGE_SUCCESSFUL).is_ok());
}

#[test]
fn failure_status_code_is_surfaced() {
    let monitors = Monitor::enumerate_monitors(&scenario_a_devices());
    match monitors[0].interpret_change_status(75, -1) {
        Err(MonitorError::MutationRejected { requested, code, description }) => {
            assert_eq!(requested, 75);
            assert_eq!(code, -1);
            assert_eq!(description, "Primary Monitor");
        }
        other => panic!("expected a mutation-rejected error, got {:?}", other),
    }
}
