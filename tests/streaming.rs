use uhd::buffers::{buffers_fit, check_equal_buffer_lengths, BufferTable};
use uhd::error::{check_status, kind_of_status, Error, ErrorKind};
use uhd::metadata::{decode_error_code, ReceiveErrorCode, ReceiveMetadata, ReceiveOutcome};
use uhd::receive_streamer::{ReceiveStreamer, SIMPLE_TIMEOUT_MICROS};
use uhd::stream::{
    CommandFields, StreamCommand, StreamCommandKind, MODE_NUM_SAMPS_AND_DONE,
    MODE_NUM_SAMPS_AND_MORE, MODE_START_CONTINUOUS, MODE_STOP_CONTINUOUS,
};
use uhd::transmit_metadata::{TransmitMetadata, TransmitOutcome};
use uhd::transmit_streamer::TransmitStreamer;

fn outcome(status: i32, samples: usize, error_code: u32) -> ReceiveOutcome {
    ReceiveOutcome {
        status,
        samples,
        error_code,
        start_of_burst: false,
        end_of_burst: false,
        more_fragments: false,
        fragment_offset: 0,
    }
}

fn address_of(b: &[f32]) -> usize {
    b.as_ptr() as usize
}

#[test]
fn rx_samples() {
    let mut streamer: ReceiveStreamer<f32> = ReceiveStreamer::with_capacity(1);
    let mut samples = vec![0.0f32; 150];
    let address = address_of(&samples);
    let mut seen_length = 0usize;
    let result = streamer.receive_simple(&mut samples, address, |table, n, timeout, one_packet| {
        assert_eq!(table, &[address][..]);
        assert_eq!(timeout, SIMPLE_TIMEOUT_MICROS);
        assert!(!one_packet);
        seen_length = n;
        outcome(0, n, 0)
    });
    assert_eq!(seen_length, 150);
    assert_eq!(result.unwrap().samples(), 150);
}

#[test]
fn receive_full_buffer() {
    let mut streamer: ReceiveStreamer<f32> = ReceiveStreamer::with_capacity(1);
    let mut a = vec![0.0f32; 150];
    let addresses = vec![address_of(&a)];
    let mut buffers: [&mut [f32]; 1] = [&mut a[..]];
    let md = streamer
        .receive(&mut buffers, &addresses, 100000, false, |_, n, _, _| outcome(0, n, 0))
        .unwrap();
    assert_eq!(md.samples(), 150);
    assert_eq!(md.error_code(), ReceiveErrorCode::NoError);
    assert!(!md.start_of_burst());
    assert!(!md.end_of_burst());
}

#[test]
fn receive_timeout_is_no_error() {
    let mut streamer: ReceiveStreamer<f32> = ReceiveStreamer::with_capacity(1);
    let mut a = vec![0.0f32; 150];
    let addresses = vec![address_of(&a)];
    let mut buffers: [&mut [f32]; 1] = [&mut a[..]];
    let md = streamer
        .receive(&mut buffers, &addresses, 100000, false, |_, _, _, _| outcome(0, 0, 0x1))
        .unwrap();
    assert_eq!(md.samples(), 0);
    assert_eq!(md.error_code(), ReceiveErrorCode::Timeout);
    assert!(!md.start_of_burst());
    assert!(!md.end_of_burst());
}

#[test]
fn receive_partial_packet() {
    let mut streamer: ReceiveStreamer<f32> = ReceiveStreamer::with_capacity(2);
    let mut a = vec![0.0f32; 64];
    let mut b = vec![0.0f32; 64];
    let addresses = vec![address_of(&a), address_of(&b)];
    let mut buffers: [&mut [f32]; 2] = [&mut a[..], &mut b[..]];
    let md = streamer
        .receive(&mut buffers, &addresses, 5000, true, |t, n, us, p| {
            assert_eq!(t.len(), 2);
            assert_eq!(n, 64);
            assert_eq!(us, 5000);
            assert!(p);
            ReceiveOutcome {
                status: 0,
                samples: 40,
                error_code: 0,
                start_of_burst: true,
                end_of_burst: false,
                more_fragments: true,
                fragment_offset: 40,
            }
        })
        .unwrap();
    assert_eq!(md.samples(), 40);
    assert!(md.start_of_burst());
    assert!(md.more_fragments);
    assert_eq!(md.fragment_offset, 40);
}

#[test]
fn receive_refreshes_every_slot() {
    let mut streamer: ReceiveStreamer<f32> = ReceiveStreamer::with_capacity(2);
    let mut a = vec![0.0f32; 8];
    let mut b = vec![0.0f32; 8];
    let first = vec![address_of(&a), address_of(&b)];
    {
        let mut buffers: [&mut [f32]; 2] = [&mut a[..], &mut b[..]];
        let r = streamer.receive(&mut buffers, &first, 1000, false, |t, n, _, _| {
            assert_eq!(t, &first[..]);
            outcome(0, n, 0)
        });
        assert!(r.is_ok());
    }
    let mut c = vec![0.0f32; 4];
    let mut d = vec![0.0f32; 4];
    let second = vec![address_of(&c), address_of(&d)];
    let mut buffers: [&mut [f32]; 2] = [&mut c[..], &mut d[..]];
    let r = streamer.receive(&mut buffers, &second, 1000, false, |t, n, _, _| {
        assert_eq!(t, &second[..]);
        assert_eq!(n, 4);
        outcome(0, n, 0)
    });
    assert_eq!(r.unwrap().samples(), 4);
    assert_eq!(streamer.num_channels(), 2);
}

#[test]
fn receive_driver_error() {
    let mut streamer: ReceiveStreamer<f32> = ReceiveStreamer::with_capacity(1);
    let mut a = vec![0.0f32; 10];
    let addresses = vec![address_of(&a)];
    let mut buffers: [&mut [f32]; 1] = [&mut a[..]];
    let e = streamer
        .receive(&mut buffers, &addresses, 1000, false, |_, _, _, _| outcome(30, 0, 0))
        .unwrap_err();
    assert_eq!(e.kind(), ErrorKind::Io);
    assert_eq!(e.status(), 30);
}

#[test]
fn receive_overflow_is_error() {
    let mut streamer: ReceiveStreamer<f32> = ReceiveStreamer::with_capacity(1);
    let mut a = vec![0.0f32; 10];
    let addresses = vec![address_of(&a)];
    let mut buffers: [&mut [f32]; 1] = [&mut a[..]];
    let e = streamer
        .receive(&mut buffers, &addresses, 1000, false, |_, _, _, _| outcome(0, 3, 0x8))
        .unwrap_err();
    assert_eq!(e.kind(), ErrorKind::Overflow);
    assert_eq!(e.status(), 0);
}

#[test]
fn receive_rejects_excess_count() {
    let mut streamer: ReceiveStreamer<f32> = ReceiveStreamer::with_capacity(1);
    let mut a = vec![0.0f32; 10];
    let addresses = vec![address_of(&a)];
    let mut buffers: [&mut [f32]; 1] = [&mut a[..]];
    let e = streamer
        .receive(&mut buffers, &addresses, 1000, false, |_, _, _, _| outcome(0, 11, 0))
        .unwrap_err();
    assert_eq!(e.kind(), ErrorKind::SampleCountExceeded);
}

#[test]
fn decode_each_condition() {
    let cases = [
        (0x2, ErrorKind::LateCommand),
        (0x4, ErrorKind::BrokenChain),
        (0x8, ErrorKind::Overflow),
        (0xc, ErrorKind::Alignment),
        (0xf, ErrorKind::BadPacket),
        (0x3, ErrorKind::MalformedMetadata),
    ];
    for (code, kind) in cases {
        let e = ReceiveMetadata::decode(&outcome(0, 1, code), 1).unwrap_err();
        assert_eq!(e.kind(), kind);
    }
    assert_eq!(decode_error_code(0x1), Some(ReceiveErrorCode::Timeout));
    assert_eq!(decode_error_code(0x9), None);
}

#[test]
fn status_codes() {
    assert!(check_status(0).is_ok());
    let table = [
        (1, ErrorKind::InvalidDevice),
        (10, ErrorKind::Index),
        (11, ErrorKind::Key),
        (20, ErrorKind::NotImplemented),
        (21, ErrorKind::Usb),
        (30, ErrorKind::Io),
        (31, ErrorKind::Os),
        (40, ErrorKind::Assertion),
        (41, ErrorKind::Lookup),
        (42, ErrorKind::Type),
        (43, ErrorKind::Value),
        (44, ErrorKind::Runtime),
        (45, ErrorKind::Environment),
        (46, ErrorKind::System),
        (47, ErrorKind::Except),
        (60, ErrorKind::BoostExcept),
        (70, ErrorKind::StdExcept),
        (100, ErrorKind::Unknown),
        (-5, ErrorKind::Unknown),
    ];
    for (status, kind) in table {
        assert_eq!(kind_of_status(status), kind);
        let e = check_status(status).unwrap_err();
        assert_eq!(e.kind(), kind);
        assert_eq!(e.status(), status);
    }
}

#[test]
fn error_message_is_kept() {
    let e = Error::new(ErrorKind::Usb, 21).with_message(String::from("cable unplugged"));
    assert_eq!(e.kind(), ErrorKind::Usb);
    assert_eq!(e.status(), 21);
    assert_eq!(e.message, "cable unplugged");
}

#[test]
fn buffer_set_checks() {
    let mut a = vec![0u8; 4];
    let mut b = vec![0u8; 4];
    let mut c = vec![0u8; 5];
    {
        let mut set: [&mut [u8]; 2] = [&mut a[..], &mut b[..]];
        assert!(buffers_fit(&mut set, 2));
        assert!(!buffers_fit(&mut set, 1));
        assert_eq!(check_equal_buffer_lengths(&mut set), 4);
    }
    let mut uneven: [&mut [u8]; 2] = [&mut a[..], &mut c[..]];
    assert!(!buffers_fit(&mut uneven, 2));
    let mut none: [&mut [u8]; 0] = [];
    assert_eq!(check_equal_buffer_lengths(&mut none), 0);
    assert!(buffers_fit(&mut none, 0));
}

#[test]
fn streamer_refuses_wrong_count() {
    let rx: ReceiveStreamer<u8> = ReceiveStreamer::with_capacity(2);
    let mut a = vec![0u8; 4];
    let mut one: [&mut [u8]; 1] = [&mut a[..]];
    assert!(!rx.accepts(&mut one));
}

#[test]
fn transmit_refuses_single_buffer_for_two_channels() {
    let tx: TransmitStreamer<f32> = TransmitStreamer::new(2);
    let mut a = vec![0.0f32; 16];
    let mut one: [&mut [f32]; 1] = [&mut a[..]];
    assert!(!tx.accepts(&mut one));
    assert_eq!(tx.buff_len(), 0);
}

#[test]
fn transmit_refuses_unequal_lengths() {
    let tx: TransmitStreamer<f32> = TransmitStreamer::new(2);
    let mut a = vec![0.0f32; 16];
    let mut b = vec![0.0f32; 15];
    let mut set: [&mut [f32]; 2] = [&mut a[..], &mut b[..]];
    assert!(!tx.accepts(&mut set));
}

#[test]
fn transmit_records_accepted_samples() {
    let mut tx: TransmitStreamer<f32> = TransmitStreamer::new(2);
    assert_eq!(tx.num_channels(), 2);
    assert!(tx.buff_size() >= 2);
    let mut a = vec![0.0f32; 16];
    let mut b = vec![0.0f32; 16];
    let addresses = vec![address_of(&a), address_of(&b)];
    let mut set: [&mut [f32]; 2] = [&mut a[..], &mut b[..]];
    assert!(tx.accepts(&mut set));
    let md = tx
        .send(&mut set, &addresses, 2000, |t, n, m, us| {
            assert_eq!(t, &addresses[..]);
            assert_eq!(n, 16);
            assert_eq!(us, 2000);
            assert_eq!(m, TransmitMetadata::new());
            TransmitOutcome { status: 0, samples: 12 }
        })
        .unwrap();
    assert_eq!(md.samples(), 12);
    assert!(md.start_of_burst());
    assert!(md.end_of_burst());
    assert!(!md.has_time_spec());
    assert_eq!(tx.buff_len(), 2);
    assert_eq!(tx.num_channels(), 2);
}

#[test]
fn transmit_errors() {
    let mut tx: TransmitStreamer<f32> = TransmitStreamer::new(1);
    let mut a = vec![0.0f32; 8];
    let addresses = vec![address_of(&a)];
    let mut set: [&mut [f32]; 1] = [&mut a[..]];
    let e = tx
        .send(&mut set, &addresses, 10, |_, _, _, _| TransmitOutcome { status: 21, samples: 0 })
        .unwrap_err();
    assert_eq!(e.kind(), ErrorKind::Usb);
    let e = tx
        .send(&mut set, &addresses, 10, |_, _, _, _| TransmitOutcome { status: 0, samples: 9 })
        .unwrap_err();
    assert_eq!(e.kind(), ErrorKind::SampleCountExceeded);
}

#[test]
fn transmit_metadata_defaults() {
    let m = TransmitMetadata::default();
    assert_eq!(m, TransmitMetadata::new());
    assert_eq!(m.samples(), 0);
    assert!(m.start_of_burst() && m.end_of_burst() && !m.has_time_spec());
    let mut m2 = m;
    m2.set_samples(7);
    assert_eq!(m2.samples(), 7);
    let c = m.commit(&TransmitOutcome { status: 0, samples: 5 }, 5).unwrap();
    assert_eq!(c.samples(), 5);
}

#[test]
fn release_happens_once() {
    let mut rx: ReceiveStreamer<u8> = ReceiveStreamer::with_capacity(1);
    assert!(rx.release());
    assert!(!rx.release());
    let mut unbound: ReceiveStreamer<u8> = ReceiveStreamer::new();
    assert!(!unbound.release());
    assert_eq!(unbound.num_channels(), 0);
    let mut tx: TransmitStreamer<u8> = TransmitStreamer::new(3);
    assert!(tx.release());
    assert!(!tx.release());
    assert_eq!(tx.num_channels(), 3);
}

#[test]
fn channel_count_is_stable() {
    let mut rx: ReceiveStreamer<f32> = ReceiveStreamer::with_capacity(1);
    let mut a = vec![0.0f32; 2];
    let address = address_of(&a);
    for _ in 0..3 {
        assert_eq!(rx.num_channels(), 1);
        let r = rx.receive_simple(&mut a, address, |_, n, _, _| outcome(0, n, 0));
        assert!(r.is_ok());
    }
    assert_eq!(rx.num_channels(), 1);
}

#[test]
fn stream_commands_encode() {
    let start = StreamCommand::now(StreamCommandKind::StartContinuous).as_fields();
    assert_eq!(start, CommandFields { stream_mode: MODE_START_CONTINUOUS, num_samps: 0, stream_now: true });
    assert_eq!(start.stream_mode, 97);
    let count = StreamCommand::at_time(StreamCommandKind::CountAndDone(1000)).as_fields();
    assert_eq!(count, CommandFields { stream_mode: MODE_NUM_SAMPS_AND_DONE, num_samps: 1000, stream_now: false });
    let more = StreamCommand::now(StreamCommandKind::CountAndMore(5)).as_fields();
    assert_eq!(more.stream_mode, MODE_NUM_SAMPS_AND_MORE);
    assert_eq!(more.num_samps, 5);
    let stop = StreamCommand::now(StreamCommandKind::StopContinuous).as_fields();
    assert_eq!(stop.stream_mode, MODE_STOP_CONTINUOUS);
    assert_eq!(stop.stream_mode, 111);
}

#[test]
fn send_command_reports_status() {
    let rx: ReceiveStreamer<f32> = ReceiveStreamer::with_capacity(1);
    let cmd = StreamCommand::now(StreamCommandKind::CountAndDone(10));
    let mut seen = None;
    assert!(rx.send_command(&cmd, |f| { seen = Some(f); 0 }).is_ok());
    assert_eq!(seen.unwrap().num_samps, 10);
    let e = rx.send_command(&cmd, |_| 43).unwrap_err();
    assert_eq!(e.kind(), ErrorKind::Value);
}

#[test]
fn buffer_table_fills_every_slot() {
    let mut t = BufferTable::with_capacity(3);
    assert_eq!(t.len(), 0);
    assert!(t.capacity() >= 3);
    t.fill(&[1, 2, 3]);
    assert_eq!(t.as_slice(), &[1, 2, 3]);
    t.fill(&[7, 8, 9]);
    assert_eq!(t.as_slice(), &[7, 8, 9]);
}
