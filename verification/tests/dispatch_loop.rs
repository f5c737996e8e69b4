use sim_connect_rs::dispatch::Dispatch;
use sim_connect_rs::dispatch::Dispatcher;
use sim_connect_rs::dispatch::DEFAULT_POLL_INTERVAL;
use sim_connect_rs::errors::DecodeError;
use sim_connect_rs::recv_data::FromPtr;
use sim_connect_rs::recv_data::RecvDataEvent;
use sim_connect_rs::recv_data::RecvSimData;
use sim_connect_rs::sim_event_args::SimStateArgs;
use sim_connect_rs::sim_event_args::SimViewType;
use sim_connect_rs::sim_events::SystemEvent;
use sim_connect_rs::sim_events::SystemEventData;

fn record(kind: u32, len: usize) -> Vec<u8> {
    let mut record = vec![0u8; len];
    record[0..4].copy_from_slice(&(len as u32).to_le_bytes());
    record[8..12].copy_from_slice(&kind.to_le_bytes());
    record
}

fn data_record(define_id: u32, values: &[u8]) -> Vec<u8> {
    let mut record = record(8, 40);
    record[20..24].copy_from_slice(&define_id.to_le_bytes());
    record.extend_from_slice(values);
    record
}

fn event_record(event: SystemEvent, data: u32) -> Vec<u8> {
    let mut record = record(4, 24);
    record[16..20].copy_from_slice(&u32::from(event).to_le_bytes());
    record[20..24].copy_from_slice(&data.to_le_bytes());
    record
}

fn state_record(request: u32, integer: u32) -> Vec<u8> {
    let mut record = record(15, 284);
    record[12..16].copy_from_slice(&request.to_le_bytes());
    record[16..20].copy_from_slice(&integer.to_le_bytes());
    record
}

type Loop = Dispatcher<&'static str, &'static str>;

#[test]
fn poll_interval_defaults_to_one_second() {
    assert_eq!(DEFAULT_POLL_INTERVAL, 1000);
    assert_eq!(Loop::new(None).poll_interval(), 1000);
    assert_eq!(Loop::new(Some(500)).poll_interval(), 500);
    assert_eq!(Loop::new(Some(0)).poll_interval(), 0);
}

#[test]
fn no_record_means_sleep() {
    let dispatcher = Loop::new(Some(250));
    assert!(matches!(dispatcher.dispatch(0, &[]), Dispatch::Sleep(250)));
    assert!(matches!(dispatcher.dispatch(1, &[]), Dispatch::Sleep(250)));
    let waiting = data_record(0, &[1]);
    assert!(matches!(dispatcher.dispatch(-2147467259, &waiting), Dispatch::Sleep(250)));
    assert!(matches!(Loop::new(None).dispatch(0, &[]), Dispatch::Sleep(1000)));
}

#[test]
fn a_record_never_means_sleep() {
    let dispatcher = Loop::new(None);
    let records = [
        record(0, 12),
        record(2, 12),
        record(3, 12),
        record(77, 12),
        data_record(5, &[]),
        event_record(SystemEvent::Pause, 0),
        state_record(4, 1),
        vec![0u8; 3],
    ];
    for record in records {
        assert!(!matches!(dispatcher.dispatch(0, &record), Dispatch::Sleep(_)));
    }
}

#[test]
fn object_data_goes_to_the_channel_of_its_id() {
    let mut dispatcher = Loop::new(None);
    dispatcher.register_channel(0, "first");
    dispatcher.register_channel(1, "second");
    match dispatcher.dispatch(0, &data_record(1, &[7, 8])) {
        Dispatch::Deliver(sender, data) => {
            assert_eq!(*sender, "second");
            assert_eq!(data.get_id(), 1);
            assert_eq!(data.get_pointer(), &[7, 8]);
        }
        _ => panic!("not delivered"),
    }
    match dispatcher.dispatch(0, &data_record(0, &[])) {
        Dispatch::Deliver(sender, data) => {
            assert_eq!(*sender, "first");
            assert_eq!(data.get_id(), 0);
        }
        _ => panic!("not delivered"),
    }
}

#[test]
fn object_data_without_a_channel_is_dropped() {
    let mut dispatcher = Loop::new(None);
    dispatcher.register_channel(0, "first");
    let record = data_record(1, &[7, 8]);
    match dispatcher.dispatch(0, &record) {
        Dispatch::Ignored(RecvDataEvent::Data(data)) => {
            assert_eq!(data, RecvSimData::from_pointer(&record).unwrap());
        }
        _ => panic!("not dropped"),
    }
}

#[test]
fn a_channel_announced_again_replaces_the_first() {
    let mut dispatcher = Loop::new(None);
    dispatcher.register_channel(3, "old");
    dispatcher.register_channel(3, "new");
    match dispatcher.dispatch(0, &data_record(3, &[])) {
        Dispatch::Deliver(sender, _) => assert_eq!(*sender, "new"),
        _ => panic!("not delivered"),
    }
}

#[test]
fn events_go_to_their_callback() {
    let mut dispatcher = Loop::new(None);
    dispatcher.update_callback(SystemEvent::View, Some("on view"), true);
    dispatcher.update_callback(SystemEvent::Sim, Some("on sim"), true);
    match dispatcher.dispatch(0, &event_record(SystemEvent::View, 2)) {
        Dispatch::Invoke(callback, event) => {
            assert_eq!(*callback, "on view");
            assert_eq!(event.system_event, SystemEvent::View);
            assert_eq!(event.event_data, SystemEventData::View(SimViewType::CockpitVirtual));
        }
        _ => panic!("not invoked"),
    }
    match dispatcher.dispatch(0, &event_record(SystemEvent::Sim, 1)) {
        Dispatch::Invoke(callback, event) => {
            assert_eq!(*callback, "on sim");
            assert_eq!(event.event_data, SystemEventData::Sim(true));
        }
        _ => panic!("not invoked"),
    }
}

#[test]
fn events_without_a_callback_are_ignored() {
    let mut dispatcher = Loop::new(None);
    dispatcher.update_callback(SystemEvent::View, Some("on view"), true);
    match dispatcher.dispatch(0, &event_record(SystemEvent::Pause, 0)) {
        Dispatch::Ignored(RecvDataEvent::Event(event)) => {
            assert_eq!(event.system_event, SystemEvent::Pause);
        }
        _ => panic!("not ignored"),
    }
}

#[test]
fn unsubscribing_removes_the_callback() {
    let mut dispatcher = Loop::new(None);
    dispatcher.update_callback(SystemEvent::View, Some("on view"), true);
    dispatcher.update_callback(SystemEvent::Pause, Some("on pause"), true);
    dispatcher.update_callback(SystemEvent::View, None, false);
    assert!(matches!(
        dispatcher.dispatch(0, &event_record(SystemEvent::View, 1)),
        Dispatch::Ignored(RecvDataEvent::Event(_))
    ));
    assert!(matches!(
        dispatcher.dispatch(0, &event_record(SystemEvent::Pause, 1)),
        Dispatch::Invoke(_, _)
    ));
    dispatcher.update_callback(SystemEvent::Pause, Some("unused"), false);
    assert!(matches!(
        dispatcher.dispatch(0, &event_record(SystemEvent::Pause, 1)),
        Dispatch::Ignored(_)
    ));
}

#[test]
fn subscribing_without_a_callback_changes_nothing() {
    let mut dispatcher = Loop::new(None);
    dispatcher.update_callback(SystemEvent::View, None, true);
    assert!(matches!(
        dispatcher.dispatch(0, &event_record(SystemEvent::View, 1)),
        Dispatch::Ignored(_)
    ));
    dispatcher.update_callback(SystemEvent::View, Some("first"), true);
    dispatcher.update_callback(SystemEvent::View, None, true);
    match dispatcher.dispatch(0, &event_record(SystemEvent::View, 1)) {
        Dispatch::Invoke(callback, _) => assert_eq!(*callback, "first"),
        _ => panic!("not invoked"),
    }
    dispatcher.update_callback(SystemEvent::View, Some("second"), true);
    match dispatcher.dispatch(0, &event_record(SystemEvent::View, 1)) {
        Dispatch::Invoke(callback, _) => assert_eq!(*callback, "second"),
        _ => panic!("not invoked"),
    }
}

#[test]
fn system_state_is_handed_on() {
    let dispatcher = Loop::new(None);
    match dispatcher.dispatch(0, &state_record(4, 1)) {
        Dispatch::State(state) => {
            assert_eq!(state.state_arg, SimStateArgs::Sim);
            assert_eq!(state.sim, Some(true));
        }
        _ => panic!("not a state"),
    }
}

#[test]
fn open_quit_and_null_are_only_noted() {
    let dispatcher = Loop::new(None);
    assert!(matches!(
        dispatcher.dispatch(0, &record(3, 12)),
        Dispatch::Ignored(RecvDataEvent::Quit)
    ));
    assert!(matches!(
        dispatcher.dispatch(0, &record(0, 12)),
        Dispatch::Ignored(RecvDataEvent::Null)
    ));
    assert!(matches!(
        dispatcher.dispatch(0, &record(1234, 12)),
        Dispatch::Ignored(RecvDataEvent::Null)
    ));
    assert!(matches!(
        dispatcher.dispatch(0, &record(2, 308)),
        Dispatch::Ignored(RecvDataEvent::Open(_))
    ));
}

#[test]
fn a_malformed_record_is_skipped() {
    let dispatcher = Loop::new(None);
    assert!(matches!(
        dispatcher.dispatch(0, &[1, 2, 3]),
        Dispatch::Malformed(DecodeError::Truncated)
    ));
    assert!(matches!(
        dispatcher.dispatch(0, &event_record(SystemEvent::View, 3)),
        Dispatch::Malformed(DecodeError::UnknownDiscriminant)
    ));
    let mut unterminated = record(2, 308);
    for byte in unterminated[12..268].iter_mut() {
        *byte = b'x';
    }
    assert!(matches!(
        dispatcher.dispatch(0, &unterminated),
        Dispatch::Malformed(DecodeError::MalformedString)
    ));
    // and the loop goes on
    assert!(matches!(dispatcher.dispatch(0, &record(3, 12)), Dispatch::Ignored(_)));
}

#[test]
fn route_is_what_dispatch_does_with_a_decoded_record() {
    let mut dispatcher = Loop::new(None);
    dispatcher.register_channel(2, "two");
    let decoded = RecvDataEvent::from_pointer(&data_record(2, &[1])).unwrap();
    match dispatcher.route(decoded) {
        Dispatch::Deliver(sender, data) => {
            assert_eq!(*sender, "two");
            assert_eq!(data.get_pointer(), &[1]);
        }
        _ => panic!("not delivered"),
    }
    assert!(matches!(dispatcher.route(RecvDataEvent::Quit), Dispatch::Ignored(RecvDataEvent::Quit)));
}

#[test]
fn the_loop_polls_until_it_sees_the_stop_signal() {
    let mut dispatcher = Loop::new(None);
    assert!(!dispatcher.is_stopped());
    assert!(dispatcher.begin_iteration(false));
    assert!(dispatcher.begin_iteration(false));
    assert!(!dispatcher.is_stopped());
    assert!(!dispatcher.begin_iteration(true));
    assert!(dispatcher.is_stopped());
}

#[test]
fn a_stopped_loop_never_polls_again() {
    let mut dispatcher = Loop::new(None);
    assert!(!dispatcher.begin_iteration(true));
    for signal in [false, false, true, false] {
        assert!(!dispatcher.begin_iteration(signal));
        assert!(dispatcher.is_stopped());
    }
}

#[test]
fn stopping_forgets_nothing() {
    let mut dispatcher = Loop::new(Some(10));
    dispatcher.register_channel(0, "first");
    dispatcher.begin_iteration(true);
    assert_eq!(dispatcher.poll_interval(), 10);
    assert!(matches!(dispatcher.dispatch(0, &data_record(0, &[])), Dispatch::Deliver(_, _)));
}
