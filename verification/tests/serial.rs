use flipperzero::bluetooth::serial::{
    event_response, Error, EventResponse, WorkerEvent, WorkerStep, BLE_SERIAL_BUFFER_SIZE,
    BLE_SERIAL_WORKER_BUFFER_LEN, SERIAL_SERVICE_EVENT_BLE_RESET_REQUEST,
    SERIAL_SERVICE_EVENT_DATA_RECEIVED, SERIAL_SERVICE_EVENT_DATA_SENT,
};

#[test]
fn serial_flag_values() {
    assert_eq!(WorkerEvent::FLAG_STOP, 1);
    assert_eq!(WorkerEvent::FLAG_DATA, 2);
    assert_eq!(WorkerEvent::FLAG_DATA_SENT, 4);
    assert_eq!(WorkerEvent::MASK, 7);
    assert_eq!(BLE_SERIAL_BUFFER_SIZE, 128);
    assert_eq!(BLE_SERIAL_WORKER_BUFFER_LEN, 64);
}

#[test]
fn serial_worker_event_predicates() {
    let none = WorkerEvent(0);
    assert!(!none.is_stop() && !none.is_rx_data() && !none.is_data_sent());
    let stop = WorkerEvent(WorkerEvent::FLAG_STOP);
    assert!(stop.is_stop() && !stop.is_rx_data() && !stop.is_data_sent());
    let data = WorkerEvent(WorkerEvent::FLAG_DATA);
    assert!(!data.is_stop() && data.is_rx_data() && !data.is_data_sent());
    let sent = WorkerEvent(WorkerEvent::FLAG_DATA_SENT);
    assert!(!sent.is_stop() && !sent.is_rx_data() && sent.is_data_sent());
    let all = WorkerEvent(u32::MAX);
    assert!(all.is_stop() && all.is_rx_data() && all.is_data_sent());
    let high = WorkerEvent(8);
    assert!(!high.is_stop() && !high.is_rx_data() && !high.is_data_sent());
}

#[test]
fn serial_worker_step_priorities() {
    assert_eq!(WorkerEvent(0).worker_step(), WorkerStep::Wait);
    assert_eq!(WorkerEvent(WorkerEvent::FLAG_DATA_SENT).worker_step(), WorkerStep::Wait);
    assert_eq!(WorkerEvent(WorkerEvent::FLAG_DATA).worker_step(), WorkerStep::DrainRx);
    assert_eq!(WorkerEvent(WorkerEvent::FLAG_DATA | WorkerEvent::FLAG_DATA_SENT).worker_step(), WorkerStep::DrainRx);
    assert_eq!(WorkerEvent(WorkerEvent::MASK).worker_step(), WorkerStep::Stop);
    assert_eq!(WorkerEvent(WorkerEvent::FLAG_STOP).worker_step(), WorkerStep::Stop);
}

#[test]
fn serial_event_response_per_event() {
    assert_eq!(
        event_response(SERIAL_SERVICE_EVENT_DATA_RECEIVED, 17),
        EventResponse { forward_data: true, flags: WorkerEvent::FLAG_DATA, consumed: 17 }
    );
    assert_eq!(
        event_response(SERIAL_SERVICE_EVENT_DATA_SENT, 17),
        EventResponse { forward_data: false, flags: WorkerEvent::FLAG_DATA_SENT, consumed: 0 }
    );
    assert_eq!(
        event_response(SERIAL_SERVICE_EVENT_BLE_RESET_REQUEST, 5),
        EventResponse { forward_data: false, flags: WorkerEvent::FLAG_STOP, consumed: 0 }
    );
    assert_eq!(
        event_response(3, 5),
        EventResponse { forward_data: false, flags: 0, consumed: 0 }
    );
    assert_eq!(event_response(SERIAL_SERVICE_EVENT_DATA_RECEIVED, 0).consumed, 0);
}

#[test]
fn serial_event_reaches_worker_law() {
    // A reset request stops the worker, received data is drained.
    let reset = event_response(SERIAL_SERVICE_EVENT_BLE_RESET_REQUEST, 0).flags;
    assert_eq!(WorkerEvent(reset).worker_step(), WorkerStep::Stop);
    let rx = event_response(SERIAL_SERVICE_EVENT_DATA_RECEIVED, 9).flags;
    assert_eq!(WorkerEvent(rx).worker_step(), WorkerStep::DrainRx);
    // Merged events: data followed by a reset request still stops.
    assert_eq!(WorkerEvent(rx | reset).worker_step(), WorkerStep::Stop);
    assert_eq!(rx & WorkerEvent::MASK, rx);
}

#[test]
fn serial_error_variant() {
    let e = Error::FailedToStartProfile;
    assert_eq!(e, Error::FailedToStartProfile);
}
