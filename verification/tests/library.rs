use cput::args::number::{parse_u128, parse_u64, parse_u8, parse_uint, IntErrorKind, ParseIntError};
use cput::args::{Cmd, Matches};
use cput::stats::{
    padding, quit_report, received_report, server_report, tick_due, unpadding, Bucket, Event,
    Monitor, Output, Stats, Step, TcpBucket, TcpRtt, Timer,
};
use cput::udp::{next_send, send_interval_micros, Client, Server};

fn err(kind: IntErrorKind) -> ParseIntError {
    ParseIntError { kind }
}

fn no_options() -> Matches {
    Matches {
        server: false,
        client: false,
        json: false,
        json_pretty: false,
        thread: None,
        count: None,
        mtu: None,
        rate: None,
        source_addr: None,
        server_addr: None,
        server_bind: None,
    }
}

fn setup() -> (Client, Server, Stats) {
    let (tx, rx) = crossbeam::channel::unbounded::<Bucket>();
    (Client::new(tx.clone()), Server::new(tx), Stats::new(rx))
}

fn bucket(tx: u64, rx: u64, peer: &str) -> TcpBucket {
    TcpBucket { tx, rx, peer: peer.to_string() }
}

#[test]
fn parse_accepts_plain_digits() {
    assert_eq!(parse_u8("0"), Ok(0));
    assert_eq!(parse_u8("255"), Ok(255));
    assert_eq!(parse_u8("007"), Ok(7));
    assert_eq!(parse_u64("18446744073709551615"), Ok(u64::MAX));
    assert_eq!(parse_u128("10000"), Ok(10000));
    assert_eq!(parse_u128("340282366920938463463374607431768211455"), Ok(u128::MAX));
}

#[test]
fn parse_accepts_plus_sign() {
    assert_eq!(parse_u8("+12"), Ok(12));
    assert_eq!(parse_u64("+0"), Ok(0));
}

#[test]
fn parse_errors_match_std() {
    for s in ["", "+", "-", "-1", "1a", "a", " 1", "1 ", "256", "999a", "++1", "１"] {
        let std = s.parse::<u8>().map_err(|e| format!("{:?}", e.kind()));
        let ours = parse_u8(s).map_err(|e| format!("{:?}", e.kind));
        assert_eq!(ours, std, "on {:?}", s);
    }
    for s in ["18446744073709551616", "99999999999999999999x", "x99999999999999999999"] {
        let std = s.parse::<u64>().map_err(|e| format!("{:?}", e.kind()));
        let ours = parse_u64(s).map_err(|e| format!("{:?}", e.kind));
        assert_eq!(ours, std, "on {:?}", s);
    }
}

#[test]
fn parse_error_kinds() {
    assert_eq!(parse_u8(""), Err(err(IntErrorKind::Empty)));
    assert_eq!(parse_u8("+"), Err(err(IntErrorKind::InvalidDigit)));
    assert_eq!(parse_u8("-3"), Err(err(IntErrorKind::InvalidDigit)));
    assert_eq!(parse_u8("300"), Err(err(IntErrorKind::PosOverflow)));
    assert_eq!(parse_u8("2999x"), Err(err(IntErrorKind::PosOverflow)));
    assert_eq!(parse_u8("2x999"), Err(err(IntErrorKind::InvalidDigit)));
    assert_eq!(parse_uint("11", 10), Err(err(IntErrorKind::PosOverflow)));
    assert_eq!(parse_uint("10", 10), Ok(10));
}

#[test]
fn parse_error_debug_matches_std() {
    let std = format!("{:?}", "x".parse::<u8>().unwrap_err());
    let ours = format!("{:?}", parse_u8("x").unwrap_err());
    assert_eq!(ours, std);
}

#[test]
fn padding_writes_payload_and_length() {
    let mut frame = [9u8; 8];
    padding(&[1, 2, 3], &mut frame);
    assert_eq!(frame, [1, 2, 3, 9, 9, 9, 9, 3]);
}

#[test]
fn padding_full_frame_overwrites_length() {
    let mut frame = [0u8; 4];
    padding(&[5, 6, 7, 8], &mut frame);
    assert_eq!(frame, [5, 6, 7, 8]);
}

#[test]
fn padding_empty_payload() {
    let mut frame = [7u8; 3];
    padding(&[], &mut frame);
    assert_eq!(frame, [7, 7, 0]);
    assert_eq!(unpadding(&frame), Vec::<u8>::new());
}

#[test]
fn padding_roundtrip_of_a_report() {
    let json = br#"{"tx":0,"rx":18446744073709551615,"peer":""}"#;
    let mut frame = [0u8; 128];
    padding(json, &mut frame);
    assert_eq!(frame[127] as usize, json.len());
    assert_eq!(unpadding(&frame), json.to_vec());
}

#[test]
fn unpadding_reads_announced_prefix() {
    assert_eq!(unpadding(&[4, 5, 6, 2]), vec![4, 5]);
    assert_eq!(unpadding(&[4, 5, 6, 4]), vec![4, 5, 6, 4]);
}

#[test]
fn rtt_update_tracks_extremes() {
    let mut r = TcpRtt::new();
    assert_eq!(r, TcpRtt { min: 0, max: 0, count: 0 });
    r.update(12546);
    assert_eq!(r, TcpRtt { min: 12546, max: 12546, count: 1 });
    r.update(16803);
    r.update(14000);
    r.update(11000);
    assert_eq!(r, TcpRtt { min: 11000, max: 16803, count: 4 });
}

#[test]
fn monitor_starts_empty() {
    let m = Monitor::new();
    assert_eq!(m.total_tx, 0);
    assert_eq!(m.total_rx, 0);
    assert_eq!(m.peer, "localhost");
    assert_eq!(m.peer_server, "localhost");
    assert_eq!(m.tcp_rtt.count, 0);
}

#[test]
fn buckets_add_up() {
    let (_, _, stats) = setup();
    let mut m = Monitor::new();
    for _ in 0..1000 {
        assert!(matches!(stats.on_event(&mut m, Event::Bucket(Bucket { tx: 1, rx: 0 })), Step::Continue));
    }
    assert!(matches!(stats.on_event(&mut m, Event::Bucket(Bucket { tx: 0, rx: 7 })), Step::Continue));
    assert_eq!(m.total_tx, 1000);
    assert_eq!(m.total_rx, 7);
}

#[test]
fn totals_wrap_like_atomics() {
    let (_, _, stats) = setup();
    let mut m = Monitor::new();
    m.total_tx = u64::MAX - 1;
    stats.on_event(&mut m, Event::Bucket(Bucket { tx: 3, rx: 0 }));
    assert_eq!(m.total_tx, 1);
    stats.on_event(&mut m, Event::Bucket(Bucket { tx: (1u128 << 64) + 5, rx: 0 }));
    assert_eq!(m.total_tx, 6);
}

#[test]
fn quit_bucket_finishes_without_tcp() {
    let (_, _, stats) = setup();
    let mut m = Monitor::new();
    m.total_tx = 42;
    assert!(matches!(stats.on_event(&mut m, Event::Bucket(Bucket { tx: 0, rx: 0 })), Step::Finish));
    assert_eq!(m.total_tx, 42);
}

#[test]
fn quit_bucket_queries_with_tcp() {
    let (_, _, mut stats) = setup();
    stats.tcp_server_addr = "127.0.0.1:8080".to_string();
    let mut m = Monitor::new();
    m.total_tx = 1000;
    match stats.on_event(&mut m, Event::Bucket(Bucket { tx: 0, rx: 0 })) {
        Step::FinalQuery(q) => {
            assert_eq!(q.tx, 1000);
            assert_eq!(q.rx, 0);
            assert_eq!(q.peer, "");
        }
        _ => panic!("expected a final query"),
    }
}

#[test]
fn reports_set_sent_total_and_peer() {
    let (_, _, stats) = setup();
    let mut m = Monitor::new();
    let step = stats.on_event(&mut m, Event::Report(bucket(500, 9, "10.0.0.2:40000")));
    assert!(matches!(step, Step::Continue));
    assert_eq!(m.total_tx, 500);
    assert_eq!(m.total_rx, 0);
    assert_eq!(m.peer, "10.0.0.2:40000");
    let step = stats.on_event(&mut m, Event::Report(bucket(0, 0, "x")));
    assert!(matches!(step, Step::Stop));
    assert_eq!(m.total_tx, 500);
    assert_eq!(m.peer, "10.0.0.2:40000");
}

#[test]
fn lost_channels_change_nothing() {
    let (_, _, stats) = setup();
    let mut m = Monitor::new();
    m.total_rx = 3;
    assert!(matches!(stats.on_event(&mut m, Event::BucketLost), Step::Continue));
    assert!(matches!(stats.on_event(&mut m, Event::ReportLost), Step::Continue));
    assert_eq!(m.total_rx, 3);
    assert_eq!(m.total_tx, 0);
}

#[test]
fn replies_update_received_and_rtt() {
    let mut m = Monitor::new();
    m.total_tx = 10;
    m.on_reply(bucket(0, 8, "127.0.0.1:8080"), 14000);
    assert_eq!(m.total_rx, 8);
    assert_eq!(m.peer_server, "127.0.0.1:8080");
    assert_eq!(m.tcp_rtt, TcpRtt { min: 14000, max: 14000, count: 1 });
    m.on_final_reply(bucket(0, 10, "other"), 12000);
    assert_eq!(m.total_rx, 10);
    assert_eq!(m.peer_server, "127.0.0.1:8080");
    assert_eq!(m.tcp_rtt, TcpRtt { min: 12000, max: 14000, count: 2 });
    assert_eq!(m.total_tx, 10);
}

#[test]
fn query_and_reports() {
    let mut m = Monitor::new();
    m.total_tx = 77;
    let q = m.query();
    assert_eq!((q.tx, q.rx, q.peer.as_str()), (77, 0, ""));
    let q = quit_report();
    assert_eq!((q.tx, q.rx, q.peer.as_str()), (0, 0, ""));
    let q = server_report(99);
    assert_eq!((q.tx, q.rx, q.peer.as_str()), (0, 99, ""));
    let q = received_report(&bucket(5, 6, "a"), "1.2.3.4:5".to_string());
    assert_eq!((q.tx, q.rx, q.peer.as_str()), (5, 0, "1.2.3.4:5"));
}

#[test]
fn stats_defaults_and_flags() {
    let (_, _, mut stats) = setup();
    assert_eq!(stats.output_type, Output::Realtime);
    assert_eq!(stats.tcp_server_bind, "");
    assert_eq!(stats.tcp_server_addr, "");
    assert!(!stats.serves_reports());
    assert!(!stats.query_due(true));
    stats.tcp_server_addr = "127.0.0.1:8080".to_string();
    stats.tcp_server_bind = "0.0.0.0:8080".to_string();
    assert!(stats.serves_reports());
    assert!(stats.query_due(true));
    assert!(!stats.query_due(false));
}

#[test]
fn output_forms() {
    assert!(Output::Realtime.shows(false));
    assert!(Output::Realtime.shows(true));
    assert!(!Output::Json.shows(false));
    assert!(Output::Json.shows(true));
    assert!(!Output::JsonPretty.shows(false));
    assert!(Output::JsonPretty.shows(true));
}

#[test]
fn ticks_after_half_a_second() {
    assert!(!tick_due(0));
    assert!(!tick_due(500));
    assert!(tick_due(501));
    let t = Timer::new();
    assert!(!t.ticker());
    let mut t = Timer::new();
    t.update();
    assert!(!t.ticker());
}

#[test]
fn client_and_server_defaults() {
    let (c, s, _) = setup();
    assert_eq!(c.src_addr, "0.0.0.0:3056");
    assert_eq!(c.dst_addr, "127.0.0.1:3055");
    assert_eq!(c.thread_num, 4);
    assert_eq!(c.mtu, 512);
    assert_eq!(c.count, 10000);
    assert_eq!(c.rate_limit, 1000);
    assert_eq!(s.addr, "0.0.0.0:3055");
    assert_eq!(s.thread_num, 4);
    let c = cput::udp::client::new();
    assert_eq!((c.src_addr, c.dst_addr, c.thread_num, c.rate, c.count), ("0.0.0.0:3056", "127.0.0.1:3055", 4, 200, 100));
    let s = cput::udp::server::new();
    assert_eq!((s.addr, s.thread_num), ("0.0.0.0:3055", 4));
}

#[test]
fn send_interval() {
    assert_eq!(send_interval_micros(1000, 4), 4000);
    assert_eq!(send_interval_micros(200, 4), 20000);
    assert_eq!(send_interval_micros(1000, 3), 3003);
    assert_eq!(send_interval_micros(1, 1), 1000000);
}

#[test]
fn send_counter_stops_at_count() {
    assert_eq!(next_send(0, 2), Some(1));
    assert_eq!(next_send(1, 2), Some(2));
    assert_eq!(next_send(2, 2), None);
    assert_eq!(next_send(5, 2), None);
    let mut sent = 0u128;
    let mut packets = 0;
    while let Some(n) = next_send(sent, 10000) {
        sent = n;
        packets += 1;
    }
    assert_eq!(packets, 10000);
}

#[test]
fn simple_receiver_rate() {
    assert_eq!(cput::udp::server::period_rate(100, 50), Some(10));
    assert_eq!(cput::udp::server::period_rate(100, 100), None);
    assert_eq!(cput::udp::server::period_rate(0, 0), None);
    assert_eq!(cput::udp::server::period_rate(4, 0), Some(0));
}

#[test]
fn init_defaults_to_loopback() {
    let (mut c, mut s, mut st) = setup();
    let r = Cmd::new().init(&no_options(), &mut c, &mut s, &mut st);
    assert_eq!(r, Ok(2));
    assert_eq!(c.thread_num, 4);
    assert_eq!(st.output_type, Output::Realtime);
    assert_eq!(st.tcp_server_bind, "");
    assert_eq!(st.tcp_server_addr, "");
}

#[test]
fn init_server_mode() {
    let (mut c, mut s, mut st) = setup();
    let mut m = no_options();
    m.server = true;
    m.json = true;
    m.server_bind = Some("192.158.10.23:3055".to_string());
    m.thread = Some("2".to_string());
    let r = Cmd::new().init(&m, &mut c, &mut s, &mut st);
    assert_eq!(r, Ok(0));
    assert_eq!(s.addr, "192.158.10.23:3055");
    assert_eq!(s.thread_num, 2);
    assert_eq!(c.thread_num, 2);
    assert_eq!(st.output_type, Output::Json);
    assert_eq!(st.tcp_server_bind, "0.0.0.0:8080");
    assert_eq!(st.tcp_server_addr, "");
}

#[test]
fn init_client_mode() {
    let (mut c, mut s, mut st) = setup();
    let mut m = no_options();
    m.client = true;
    m.json = true;
    m.json_pretty = true;
    m.server_addr = Some("192.158.10.23:3055".to_string());
    m.source_addr = Some("10.0.0.1:4000".to_string());
    m.count = Some("1000".to_string());
    m.rate = Some("500".to_string());
    let r = Cmd::new().init(&m, &mut c, &mut s, &mut st);
    assert_eq!(r, Ok(1));
    assert_eq!(c.dst_addr, "192.158.10.23:3055");
    assert_eq!(c.src_addr, "10.0.0.1:4000");
    assert_eq!(c.count, 1000);
    assert_eq!(c.rate_limit, 500);
    assert_eq!(st.output_type, Output::JsonPretty);
    assert_eq!(st.tcp_server_addr, "127.0.0.1:8080");
    assert_eq!(st.tcp_server_bind, "");
}

#[test]
fn init_stops_at_first_bad_number() {
    let (mut c, mut s, mut st) = setup();
    let mut m = no_options();
    m.client = true;
    m.thread = Some("8".to_string());
    m.count = Some("many".to_string());
    m.rate = Some("x".to_string());
    m.server_addr = Some("1.2.3.4:5".to_string());
    let r = Cmd::new().init(&m, &mut c, &mut s, &mut st);
    assert_eq!(r, Err(err(IntErrorKind::InvalidDigit)));
    assert_eq!(c.thread_num, 8);
    assert_eq!(c.count, 10000);
    assert_eq!(c.dst_addr, "127.0.0.1:3055");
    assert_eq!(st.tcp_server_addr, "");
}

#[test]
fn init_rate_error_after_addresses() {
    let (mut c, mut s, mut st) = setup();
    let mut m = no_options();
    m.server = true;
    m.rate = Some("".to_string());
    m.server_bind = Some("0.0.0.0:9999".to_string());
    m.json = true;
    let r = Cmd::new().init(&m, &mut c, &mut s, &mut st);
    assert_eq!(r, Err(err(IntErrorKind::Empty)));
    assert_eq!(s.addr, "0.0.0.0:9999");
    assert_eq!(c.rate_limit, 1000);
    assert_eq!(st.output_type, Output::Realtime);
    assert_eq!(st.tcp_server_bind, "");
}

#[test]
fn init_thread_overflow() {
    let (mut c, mut s, mut st) = setup();
    let mut m = no_options();
    m.thread = Some("256".to_string());
    let r = Cmd::new().init(&m, &mut c, &mut s, &mut st);
    assert_eq!(r, Err(err(IntErrorKind::PosOverflow)));
    assert_eq!(c.thread_num, 4);
    assert_eq!(s.thread_num, 4);
}

#[test]
fn decimal_writing_parses_back() {
    for n in [0u128, 1, 9, 10, 99, 100, 255, 1000, 65535, u64::MAX as u128, u128::MAX] {
        assert_eq!(parse_u128(&n.to_string()), Ok(n));
    }
    for n in 0u8..=255 {
        assert_eq!(parse_u8(&n.to_string()), Ok(n));
    }
}

#[test]
fn init_sets_payload_size() {
    let (mut c, mut s, mut st) = setup();
    let mut m = no_options();
    m.client = true;
    m.mtu = Some("1400".to_string());
    let r = Cmd::new().init(&m, &mut c, &mut s, &mut st);
    assert_eq!(r, Ok(1));
    assert_eq!(c.mtu, 1400);
}

#[test]
fn init_bad_payload_size_stops_before_addresses() {
    let (mut c, mut s, mut st) = setup();
    let mut m = no_options();
    m.count = Some("5".to_string());
    m.mtu = Some("big".to_string());
    m.server_addr = Some("1.2.3.4:5".to_string());
    m.rate = Some("x".to_string());
    let r = Cmd::new().init(&m, &mut c, &mut s, &mut st);
    assert_eq!(r, Err(err(IntErrorKind::InvalidDigit)));
    assert_eq!(c.count, 5);
    assert_eq!(c.mtu, 512);
    assert_eq!(c.dst_addr, "127.0.0.1:3055");
}

#[test]
fn parse_usize_matches_std() {
    assert_eq!(cput::args::number::parse_usize("1500"), Ok(1500));
    assert_eq!(cput::args::number::parse_usize(&usize::MAX.to_string()), Ok(usize::MAX));
    assert_eq!(
        cput::args::number::parse_usize("18446744073709551616"),
        Err(err(IntErrorKind::PosOverflow))
    );
}

#[test]
fn interval_at_lowest_rate() {
    assert_eq!(send_interval_micros(4, 4), 1000000);
    assert_eq!(send_interval_micros(7, 4), 1000000);
    assert_eq!(send_interval_micros(8, 4), 500000);
}

#[test]
fn shown_totals_never_decrease() {
    let (_, _, stats) = setup();
    let mut m = Monitor::new();
    let mut last = (0, 0);
    for (tx, rx) in [(3u128, 0u128), (0, 2), (5, 5), (1, 0)] {
        stats.on_event(&mut m, Event::Bucket(Bucket { tx, rx }));
        assert!(m.total_tx >= last.0 && m.total_rx >= last.1);
        last = (m.total_tx, m.total_rx);
    }
    assert_eq!(last, (9, 7));
    assert!(matches!(stats.on_event(&mut m, Event::Bucket(Bucket { tx: 0, rx: 0 })), Step::Finish));
    assert_eq!((m.total_tx, m.total_rx), (9, 7));
}
