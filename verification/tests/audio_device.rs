use fastplay::audio_device::{
    audio_stream_format, audio_window, endpoint_id_hash, plan_write, AudioWindow, DataFlow,
    DefaultRenderEndpointWatch, DeviceNotice, DeviceRole, MixFormatError, WritePlan,
    FORMAT_EXTENSIBLE, FORMAT_IEEE_FLOAT,
};

fn notifier() -> DefaultRenderEndpointWatch {
    DefaultRenderEndpointWatch::new(0)
}

fn notify(watch: &mut DefaultRenderEndpointWatch, flow: DataFlow, role: DeviceRole) {
    watch.notify(&DeviceNotice::DefaultChanged {
        flow,
        role,
        endpoint: endpoint_id_hash(None),
    });
}

#[test]
fn records_a_default_render_console_switch() {
    let mut watch = notifier();
    assert!(!watch.changed, "starts clear");
    notify(&mut watch, DataFlow::Render, DeviceRole::Console);
    assert!(watch.changed, "the switch must be recorded");
}

#[test]
fn ignores_roles_and_flows_the_sink_does_not_use() {
    for (flow, role) in [
        (DataFlow::Render, DeviceRole::Multimedia),
        (DataFlow::Render, DeviceRole::Communications),
        (DataFlow::Capture, DeviceRole::Console),
        (DataFlow::Capture, DeviceRole::Multimedia),
        (DataFlow::Capture, DeviceRole::Communications),
    ] {
        let mut watch = notifier();
        notify(&mut watch, flow, role);
        assert!(
            !watch.changed,
            "flow {flow:?} role {role:?} must not trigger a switch"
        );
    }
}

#[test]
fn repeated_notifications_coalesce_into_one_switch() {
    let mut watch = notifier();
    for _ in 0..5 {
        notify(&mut watch, DataFlow::Render, DeviceRole::Console);
    }
    assert!(watch.take_changed(), "one switch pending");
    assert!(
        !watch.take_changed(),
        "and only one: the flag is edge-triggered"
    );
    notify(&mut watch, DataFlow::Render, DeviceRole::Console);
    assert!(
        !watch.changed,
        "the same endpoint remains suppressed after the flag was consumed"
    );
}

#[test]
fn a_distinct_endpoint_records_a_new_switch() {
    let mut watch = notifier();
    let first: Vec<u16> = "endpoint-a".encode_utf16().collect();
    let second: Vec<u16> = "endpoint-b".encode_utf16().collect();
    watch.notify(&DeviceNotice::DefaultChanged {
        flow: DataFlow::Render,
        role: DeviceRole::Console,
        endpoint: endpoint_id_hash(Some(&first)),
    });
    assert!(watch.take_changed());
    watch.notify(&DeviceNotice::DefaultChanged {
        flow: DataFlow::Render,
        role: DeviceRole::Console,
        endpoint: endpoint_id_hash(Some(&second)),
    });
    assert!(watch.changed);
}

#[test]
fn the_other_callbacks_do_not_trigger_a_switch() {
    let mut watch = notifier();
    watch.notify(&DeviceNotice::Added);
    watch.notify(&DeviceNotice::Removed);
    watch.notify(&DeviceNotice::StateChanged);
    watch.notify(&DeviceNotice::PropertyChanged);
    assert!(!watch.changed);
}

#[test]
fn endpoint_hash_is_fnv_over_code_units() {
    assert_eq!(endpoint_id_hash(Some(&[])), 0xcbf2_9ce4_8422_2325);
    let one = (0xcbf2_9ce4_8422_2325u64 ^ 0x61).wrapping_mul(0x100_0000_01b3);
    assert_eq!(endpoint_id_hash(Some(&[0x61])), one);
    assert_eq!(endpoint_id_hash(None), 1);
}

#[test]
fn only_float_formats_are_taken() {
    let f = audio_stream_format(FORMAT_IEEE_FLOAT, 44_100, 2, 32, 3).unwrap();
    assert_eq!((f.sample_rate, f.channels, f.bytes_per_sample), (44_100, 2, 4));
    assert_eq!(f.channel_mask, 0);
    let wide = audio_stream_format(FORMAT_EXTENSIBLE, 48_000, 6, 32, 63).unwrap();
    assert_eq!(wide.channel_mask, 63);
    assert_eq!(
        audio_stream_format(1, 48_000, 2, 16, 3),
        Err(MixFormatError::NotFloat(1))
    );
    assert_eq!(
        audio_stream_format(FORMAT_IEEE_FLOAT, 48_000, 2, 7, 3),
        Err(MixFormatError::NoBytesPerSample)
    );
}

#[test]
fn a_write_takes_what_fits() {
    assert_eq!(
        plan_write(800, 100, 60, 20, 8),
        WritePlan::Write {
            frames: 40,
            bytes: 320
        }
    );
    assert_eq!(plan_write(800, 100, 60, 60, 8), WritePlan::Nothing);
    assert_eq!(plan_write(100, 100, 60, 20, 8), WritePlan::TooShort);
    assert_eq!(
        audio_window(100, 40, 800, 8),
        Some(AudioWindow {
            start: 320,
            frames: 60
        })
    );
    assert_eq!(audio_window(100, 100, 800, 8), None);
}
