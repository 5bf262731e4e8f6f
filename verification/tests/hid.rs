use keyboard_layer_cursor::config::{Config, LayerConfig};
use keyboard_layer_cursor::hid::{
    decode_report, handle_hid, hid_task, layer_to_ev, select_device, DeviceUsage, HidAction,
    HidError, HidEvent, HidOperation, HidPhase, HidWatcher, BACKOFF_MS, LAYER_REPORT, REPORT_LEN,
    USAGE_ID, USAGE_PAGE,
};
use keyboard_layer_cursor::window::CustomEventLoopEvent;

fn table() -> Vec<LayerConfig> {
    vec![
        LayerConfig::Hidden,
        LayerConfig::Color(0, 255, 0),
        LayerConfig::Color(255, 0, 0),
    ]
}

fn report(kind: u8, layer: u8) -> [u8; REPORT_LEN] {
    let mut bytes = [0u8; REPORT_LEN];
    bytes[0] = kind;
    bytes[1] = layer;
    bytes
}

fn keyboard() -> DeviceUsage {
    DeviceUsage { usage_page: 0xFF60, usage_id: 0x61 }
}

fn other_device() -> DeviceUsage {
    DeviceUsage { usage_page: 0x0001, usage_id: 0x06 }
}

fn connected(layers: &Vec<LayerConfig>) -> HidWatcher {
    let mut watcher = HidWatcher::new();
    hid_task(&mut watcher, HidEvent::Wake, layers);
    hid_task(&mut watcher, HidEvent::Enumerated(vec![keyboard()]), layers);
    hid_task(&mut watcher, HidEvent::Opened, layers);
    assert_eq!(watcher.phase(), HidPhase::Connected);
    watcher
}

#[test]
fn constants_name_the_layer_report_interface() {
    assert_eq!(USAGE_PAGE, 0xFF60);
    assert_eq!(USAGE_ID, 0x61);
    assert_eq!(REPORT_LEN, 32);
    assert_eq!(LAYER_REPORT, 0x01);
    assert_eq!(BACKOFF_MS, 200);
}

#[test]
fn report_of_layer_two_sets_red() {
    let ev = decode_report(&table(), &report(0x01, 2));
    assert_eq!(ev, Some(CustomEventLoopEvent::SetColor(255, 0, 0)));
}

#[test]
fn report_of_layer_zero_hides() {
    let ev = decode_report(&table(), &report(0x01, 0));
    assert_eq!(ev, Some(CustomEventLoopEvent::SetHide));
}

#[test]
fn report_of_layer_one_sets_green() {
    let ev = decode_report(&table(), &report(0x01, 1));
    assert_eq!(ev, Some(CustomEventLoopEvent::SetColor(0, 255, 0)));
}

#[test]
fn report_ignores_the_bytes_after_the_layer() {
    let mut bytes = [0xABu8; REPORT_LEN];
    bytes[0] = 0x01;
    bytes[1] = 1;
    assert_eq!(
        decode_report(&table(), &bytes),
        Some(CustomEventLoopEvent::SetColor(0, 255, 0))
    );
}

#[test]
fn every_layer_in_the_table_gives_the_command_of_its_entry() {
    let mut layers = Vec::new();
    for i in 0..=255u8 {
        if i % 3 == 0 {
            layers.push(LayerConfig::Hidden);
        } else {
            layers.push(LayerConfig::Color(i, 255 - i, i / 2));
        }
    }
    for i in 0..=255u8 {
        let expected = if i % 3 == 0 {
            CustomEventLoopEvent::SetHide
        } else {
            CustomEventLoopEvent::SetColor(i, 255 - i, i / 2)
        };
        assert_eq!(decode_report(&layers, &report(0x01, i)), Some(expected));
    }
}

#[test]
fn layers_outside_the_table_give_no_command() {
    let layers = table();
    for layer in 3..=255u8 {
        assert_eq!(decode_report(&layers, &report(0x01, layer)), None);
    }
}

#[test]
fn an_empty_table_gives_no_command_for_any_layer() {
    let layers: Vec<LayerConfig> = Vec::new();
    for layer in 0..=255u8 {
        assert_eq!(decode_report(&layers, &report(0x01, layer)), None);
    }
}

#[test]
fn reports_of_another_type_give_no_command() {
    let layers = table();
    for kind in 0..=255u8 {
        if kind != 0x01 {
            for layer in 0..4u8 {
                assert_eq!(decode_report(&layers, &report(kind, layer)), None);
            }
        }
    }
}

#[test]
fn layer_to_ev_looks_the_layer_up() {
    let layers = table();
    assert_eq!(layer_to_ev(&layers, 0), Some(CustomEventLoopEvent::SetHide));
    assert_eq!(layer_to_ev(&layers, 1), Some(CustomEventLoopEvent::SetColor(0, 255, 0)));
    assert_eq!(layer_to_ev(&layers, 2), Some(CustomEventLoopEvent::SetColor(255, 0, 0)));
    assert_eq!(layer_to_ev(&layers, 3), None);
    assert_eq!(layer_to_ev(&layers, usize::MAX), None);
}

#[test]
fn a_device_matches_only_with_both_identifiers() {
    assert!(keyboard().matches());
    assert!(!DeviceUsage { usage_page: 0xFF60, usage_id: 0x62 }.matches());
    assert!(!DeviceUsage { usage_page: 0xFF61, usage_id: 0x61 }.matches());
    assert!(!DeviceUsage { usage_page: 0x61, usage_id: 0xFF60 }.matches());
    assert!(!other_device().matches());
}

#[test]
fn select_device_finds_nothing_among_no_devices() {
    assert_eq!(select_device(&Vec::new()), None);
}

#[test]
fn select_device_finds_nothing_among_other_devices() {
    assert_eq!(select_device(&vec![other_device(), other_device()]), None);
}

#[test]
fn select_device_finds_the_keyboard() {
    assert_eq!(select_device(&vec![other_device(), keyboard(), other_device()]), Some(1));
}

#[test]
fn select_device_takes_the_last_of_several() {
    let devices = vec![keyboard(), other_device(), keyboard(), keyboard(), other_device()];
    assert_eq!(select_device(&devices), Some(3));
}

#[test]
fn a_new_watcher_has_no_connection() {
    assert_eq!(HidWatcher::new().phase(), HidPhase::Idle);
}

#[test]
fn a_connection_runs_from_enumeration_to_reports() {
    let layers = table();
    let mut watcher = HidWatcher::new();

    let action = hid_task(&mut watcher, HidEvent::Wake, &layers);
    assert_eq!(action, HidAction::Perform(HidOperation::Enumerate));
    assert_eq!(watcher.phase(), HidPhase::Enumerating);

    let devices = vec![other_device(), keyboard()];
    let action = hid_task(&mut watcher, HidEvent::Enumerated(devices), &layers);
    assert_eq!(action, HidAction::Perform(HidOperation::Open(1)));
    assert_eq!(watcher.phase(), HidPhase::Opening);

    let action = hid_task(&mut watcher, HidEvent::Opened, &layers);
    assert_eq!(
        action,
        HidAction::Perform(HidOperation::Read(Some(CustomEventLoopEvent::SetHide)))
    );
    assert_eq!(watcher.phase(), HidPhase::Connected);

    let action = hid_task(&mut watcher, HidEvent::Report(report(0x01, 2)), &layers);
    assert_eq!(
        action,
        HidAction::Perform(HidOperation::Read(Some(CustomEventLoopEvent::SetColor(255, 0, 0))))
    );
    assert_eq!(watcher.phase(), HidPhase::Connected);

    let action = hid_task(&mut watcher, HidEvent::Report(report(0x02, 2)), &layers);
    assert_eq!(action, HidAction::Perform(HidOperation::Read(None)));

    let action = hid_task(&mut watcher, HidEvent::Report(report(0x01, 9)), &layers);
    assert_eq!(action, HidAction::Perform(HidOperation::Read(None)));
    assert_eq!(watcher.phase(), HidPhase::Connected);
}

#[test]
fn opening_publishes_the_command_of_layer_zero() {
    let layers = vec![LayerConfig::Color(9, 8, 7)];
    let mut watcher = HidWatcher::new();
    hid_task(&mut watcher, HidEvent::Wake, &layers);
    hid_task(&mut watcher, HidEvent::Enumerated(vec![keyboard()]), &layers);
    let action = hid_task(&mut watcher, HidEvent::Opened, &layers);
    assert_eq!(
        action,
        HidAction::Perform(HidOperation::Read(Some(CustomEventLoopEvent::SetColor(9, 8, 7))))
    );
}

#[test]
fn opening_publishes_nothing_for_an_empty_table() {
    let layers: Vec<LayerConfig> = Vec::new();
    let mut watcher = HidWatcher::new();
    hid_task(&mut watcher, HidEvent::Wake, &layers);
    hid_task(&mut watcher, HidEvent::Enumerated(vec![keyboard()]), &layers);
    let action = hid_task(&mut watcher, HidEvent::Opened, &layers);
    assert_eq!(action, HidAction::Perform(HidOperation::Read(None)));
}

#[test]
fn a_failed_enumeration_backs_off() {
    let layers = table();
    let mut watcher = HidWatcher::new();
    hid_task(&mut watcher, HidEvent::Wake, &layers);
    let action = hid_task(&mut watcher, HidEvent::EnumerationFailed, &layers);
    assert_eq!(
        action,
        HidAction::Backoff { error: HidError::EnumerationFailed, millis: 200 }
    );
    assert_eq!(watcher.phase(), HidPhase::Idle);
}

#[test]
fn a_missing_device_backs_off() {
    let layers = table();
    let mut watcher = HidWatcher::new();
    hid_task(&mut watcher, HidEvent::Wake, &layers);
    let action = hid_task(&mut watcher, HidEvent::Enumerated(vec![other_device()]), &layers);
    assert_eq!(action, HidAction::Backoff { error: HidError::DeviceNotFound, millis: 200 });
    assert_eq!(watcher.phase(), HidPhase::Idle);
}

#[test]
fn a_failed_open_backs_off() {
    let layers = table();
    let mut watcher = HidWatcher::new();
    hid_task(&mut watcher, HidEvent::Wake, &layers);
    hid_task(&mut watcher, HidEvent::Enumerated(vec![keyboard()]), &layers);
    let action = hid_task(&mut watcher, HidEvent::OpenFailed, &layers);
    assert_eq!(action, HidAction::Backoff { error: HidError::DeviceOpenFailed, millis: 200 });
    assert_eq!(watcher.phase(), HidPhase::Idle);
}

#[test]
fn a_failed_read_backs_off_and_enumerates_again() {
    let layers = table();
    let mut watcher = connected(&layers);
    let action = hid_task(&mut watcher, HidEvent::ReadFailed, &layers);
    assert_eq!(action, HidAction::Backoff { error: HidError::DeviceReadFailed, millis: 200 });
    assert_eq!(watcher.phase(), HidPhase::Idle);
    let action = hid_task(&mut watcher, HidEvent::Wake, &layers);
    assert_eq!(action, HidAction::Perform(HidOperation::Enumerate));
    assert_eq!(watcher.phase(), HidPhase::Enumerating);
}

#[test]
fn an_event_out_of_turn_ends_the_connection() {
    let layers = table();

    let mut watcher = HidWatcher::new();
    let action = hid_task(&mut watcher, HidEvent::Opened, &layers);
    assert_eq!(action, HidAction::Backoff { error: HidError::UnexpectedEvent, millis: 200 });
    assert_eq!(watcher.phase(), HidPhase::Idle);

    let mut watcher = HidWatcher::new();
    let action = hid_task(&mut watcher, HidEvent::Report(report(0x01, 1)), &layers);
    assert_eq!(action, HidAction::Backoff { error: HidError::UnexpectedEvent, millis: 200 });

    let mut watcher = connected(&layers);
    let action = hid_task(&mut watcher, HidEvent::Wake, &layers);
    assert_eq!(action, HidAction::Backoff { error: HidError::UnexpectedEvent, millis: 200 });
    assert_eq!(watcher.phase(), HidPhase::Idle);

    let mut watcher = HidWatcher::new();
    hid_task(&mut watcher, HidEvent::Wake, &layers);
    let action = hid_task(&mut watcher, HidEvent::ReadFailed, &layers);
    assert_eq!(action, HidAction::Backoff { error: HidError::UnexpectedEvent, millis: 200 });
    assert_eq!(watcher.phase(), HidPhase::Idle);
}

#[test]
fn handle_hid_gives_the_operation_or_the_error() {
    let layers = table();
    let mut watcher = HidWatcher::new();
    assert_eq!(handle_hid(&mut watcher, HidEvent::Wake, &layers), Ok(HidOperation::Enumerate));
    assert_eq!(
        handle_hid(&mut watcher, HidEvent::Enumerated(vec![keyboard(), keyboard()]), &layers),
        Ok(HidOperation::Open(1))
    );
    assert_eq!(
        handle_hid(&mut watcher, HidEvent::Opened, &layers),
        Ok(HidOperation::Read(Some(CustomEventLoopEvent::SetHide)))
    );
    assert_eq!(
        handle_hid(&mut watcher, HidEvent::Report(report(0x01, 1)), &layers),
        Ok(HidOperation::Read(Some(CustomEventLoopEvent::SetColor(0, 255, 0))))
    );
    assert_eq!(
        handle_hid(&mut watcher, HidEvent::ReadFailed, &layers),
        Err(HidError::DeviceReadFailed)
    );
    assert_eq!(watcher.phase(), HidPhase::Idle);
    assert_eq!(
        handle_hid(&mut watcher, HidEvent::ReadFailed, &layers),
        Err(HidError::UnexpectedEvent)
    );
}

#[test]
fn failures_in_a_row_are_each_followed_by_a_new_attempt() {
    let layers = Config::default().layers;
    let failures = 25;
    let mut watcher = HidWatcher::new();
    let mut attempts = 0;
    let mut opens = 0;
    let mut backoffs = 0;
    let mut event = HidEvent::Wake;
    while backoffs < failures || matches!(event, HidEvent::Wake) {
        let action = hid_task(&mut watcher, event, &layers);
        event = match action {
            HidAction::Perform(HidOperation::Enumerate) => {
                attempts += 1;
                HidEvent::Enumerated(vec![other_device(), keyboard()])
            }
            HidAction::Perform(HidOperation::Open(index)) => {
                assert_eq!(index, 1);
                opens += 1;
                HidEvent::Opened
            }
            HidAction::Perform(HidOperation::Read(_)) => HidEvent::ReadFailed,
            HidAction::Backoff { error, millis } => {
                assert_eq!(error, HidError::DeviceReadFailed);
                assert_eq!(millis, 200);
                backoffs += 1;
                HidEvent::Wake
            }
        };
    }
    assert_eq!(backoffs, failures);
    assert_eq!(attempts, failures + 1);
    assert_eq!(opens, failures);
    assert_eq!(watcher.phase(), HidPhase::Enumerating);
}

#[test]
fn failures_of_every_kind_are_each_followed_by_a_new_attempt() {
    let layers = table();
    let mut watcher = HidWatcher::new();
    let mut attempts = 0;
    let mut failures = 0;
    let mut event = HidEvent::Wake;
    for round in 0..40 {
        let action = hid_task(&mut watcher, event, &layers);
        event = match action {
            HidAction::Perform(HidOperation::Enumerate) => {
                attempts += 1;
                match round % 3 {
                    0 => HidEvent::EnumerationFailed,
                    1 => HidEvent::Enumerated(vec![other_device()]),
                    _ => HidEvent::Enumerated(vec![keyboard()]),
                }
            }
            HidAction::Perform(HidOperation::Open(_)) => HidEvent::OpenFailed,
            HidAction::Perform(HidOperation::Read(_)) => HidEvent::ReadFailed,
            HidAction::Backoff { millis, .. } => {
                assert_eq!(millis, 200);
                failures += 1;
                assert_eq!(attempts, failures);
                HidEvent::Wake
            }
        };
    }
    assert!(failures > 10);
}
