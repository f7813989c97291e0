use flipperzero::cdc::{
    enable_begin, enable_finish, received_len, rx_callback_response, CdcMode, CtrlLineState,
    DataBits, Error, LineCoding, Parity, RawLineCoding, StopBits, WorkerEvent, WorkerStep,
    CDC_WORKER_BUFFER_LEN,
};

#[test]
fn cdc_mode_interface_numbers() {
    assert_eq!(CdcMode::Single.interface_number(), 0);
    assert_eq!(CdcMode::Dual.interface_number(), 1);
}

#[test]
fn cdc_enable_decisions() {
    assert_eq!(enable_begin(CdcMode::Dual, true), Err(Error::UsbLocked));
    assert_eq!(enable_begin(CdcMode::Single, false), Ok(0));
    assert_eq!(enable_begin(CdcMode::Dual, false), Ok(1));
    assert_eq!(enable_finish(1, true), Ok(1));
    assert_eq!(enable_finish(1, false), Err(Error::UsbLocked));
}

#[test]
fn cdc_received_len() {
    assert_eq!(received_len(-1), 0);
    assert_eq!(received_len(i32::MIN), 0);
    assert_eq!(received_len(0), 0);
    assert_eq!(received_len(42), 42);
    assert_eq!(received_len(i32::MAX), i32::MAX as usize);
}

#[test]
fn cdc_rx_callback_response() {
    assert_eq!(rx_callback_response(-5), (0, 0));
    assert_eq!(rx_callback_response(0), (0, 0));
    assert_eq!(rx_callback_response(64), (64, WorkerEvent::FLAG_DATA));
    assert_eq!(CDC_WORKER_BUFFER_LEN, 64);
    let (_, flags) = rx_callback_response(3);
    assert_eq!(WorkerEvent(flags).worker_step(), WorkerStep::DrainRx);
}

#[test]
fn cdc_stop_bits_codes() {
    assert_eq!(StopBits::from_raw(0), StopBits::One);
    assert_eq!(StopBits::from_raw(1), StopBits::OneAndHalf);
    assert_eq!(StopBits::from_raw(2), StopBits::Two);
    assert_eq!(StopBits::from_raw(3), StopBits::Unknown(3));
    assert_eq!(StopBits::from_raw(255), StopBits::Unknown(255));
}

#[test]
fn cdc_parity_codes() {
    assert_eq!(Parity::from_raw(0), Parity::NoParity);
    assert_eq!(Parity::from_raw(1), Parity::Odd);
    assert_eq!(Parity::from_raw(2), Parity::Even);
    assert_eq!(Parity::from_raw(3), Parity::Mark);
    assert_eq!(Parity::from_raw(4), Parity::Space);
    assert_eq!(Parity::from_raw(5), Parity::Unknown(5));
}

#[test]
fn cdc_data_bits_codes() {
    assert_eq!(DataBits::from_raw(5), DataBits::Five);
    assert_eq!(DataBits::from_raw(6), DataBits::Six);
    assert_eq!(DataBits::from_raw(7), DataBits::Seven);
    assert_eq!(DataBits::from_raw(8), DataBits::Eight);
    assert_eq!(DataBits::from_raw(16), DataBits::Sixteen);
    assert_eq!(DataBits::from_raw(0), DataBits::Unknown(0));
    assert_eq!(DataBits::from_raw(9), DataBits::Unknown(9));
}

#[test]
fn cdc_line_codes_injective_law() {
    for a in 0..=255u8 {
        for b in 0..=255u8 {
            if a != b {
                assert_ne!(StopBits::from_raw(a), StopBits::from_raw(b));
                assert_ne!(Parity::from_raw(a), Parity::from_raw(b));
                assert_ne!(DataBits::from_raw(a), DataBits::from_raw(b));
            }
        }
    }
}

#[test]
fn cdc_line_coding_from_raw() {
    let raw = RawLineCoding { dte_rate: 115200, char_format: 0, parity_type: 2, data_bits: 8 };
    assert_eq!(
        LineCoding::from_raw(raw),
        LineCoding {
            baud_rate: 115200,
            stop_bits: StopBits::One,
            parity: Parity::Even,
            data_bits: DataBits::Eight,
        }
    );
    let odd = RawLineCoding { dte_rate: 9600, char_format: 7, parity_type: 9, data_bits: 4 };
    let lc = LineCoding::from_raw(odd);
    assert_eq!(lc.baud_rate, 9600);
    assert_eq!(lc.stop_bits, StopBits::Unknown(7));
    assert_eq!(lc.parity, Parity::Unknown(9));
    assert_eq!(lc.data_bits, DataBits::Unknown(4));
}

#[test]
fn cdc_ctrl_line_state() {
    assert!(!CtrlLineState(0).dtr() && !CtrlLineState(0).rts());
    assert!(CtrlLineState(1).dtr() && !CtrlLineState(1).rts());
    assert!(!CtrlLineState(2).dtr() && CtrlLineState(2).rts());
    assert!(CtrlLineState(3).dtr() && CtrlLineState(3).rts());
    assert!(!CtrlLineState(4).dtr() && !CtrlLineState(4).rts());
    assert!(CtrlLineState(255).dtr() && CtrlLineState(255).rts());
}

#[test]
fn cdc_worker_events() {
    assert_eq!(WorkerEvent::MASK, 3);
    assert!(WorkerEvent(1).is_stop() && !WorkerEvent(1).is_rx_data());
    assert!(!WorkerEvent(2).is_stop() && WorkerEvent(2).is_rx_data());
    assert_eq!(WorkerEvent(0).worker_step(), WorkerStep::Wait);
    assert_eq!(WorkerEvent(2).worker_step(), WorkerStep::DrainRx);
    assert_eq!(WorkerEvent(3).worker_step(), WorkerStep::Stop);
    assert_eq!(WorkerEvent(4).worker_step(), WorkerStep::Wait);
}
