use pitch_stream::cell::LatestValueCell;
use pitch_stream::config::Config;
use pitch_stream::codec::render_event;
use pitch_stream::fmt::fixed3_to_dec;
use pitch_stream::fmt::u64_to_dec;
use pitch_stream::ingress::IngressAdapter;
use pitch_stream::ingress::compute_pitch;
use pitch_stream::ingress::derive_reading;
use pitch_stream::reading::Reading;
use pitch_stream::session::Phase;
use pitch_stream::session::Session;
use pitch_stream::session::sentinel_reading;

#[test]
fn cell_starts_empty() {
    let cell = LatestValueCell::new();
    assert!(cell.read().is_none());
}

#[test]
fn cell_read_returns_last_write() {
    let mut cell = LatestValueCell::new();
    cell.write(Reading::new(1, String::from("one")));
    cell.write(Reading::new(2, String::from("two")));
    let got = cell.read().unwrap();
    assert_eq!(got.value, 2);
    assert_eq!(got.label, "two");
}

#[test]
fn cell_read_is_a_snapshot() {
    let mut cell = LatestValueCell::new();
    cell.write(Reading::new(7, String::from("seven")));
    let snap = cell.read().unwrap();
    cell.write(Reading::new(8, String::from("eight")));
    assert_eq!(snap.value, 7);
    assert_eq!(snap.label, "seven");
}

#[test]
fn client_after_write_sees_that_write_first() {
    // A write lands, then a client connects: its very first event carries
    // exactly the written label.
    let mut cell = LatestValueCell::new();
    cell.write(Reading::new(10_000, String::from("Pitch = 10\u{00b0}")));
    let mut session = Session::start(&cell);
    let first = session.emit();
    assert_eq!(first, "{\"level\":\"Pitch = 10\u{00b0}\"}");
}

#[test]
fn no_write_serves_only_the_sentinel() {
    // No write ever occurs: every tick emits the sentinel payload until the
    // client disconnects.
    let cell = LatestValueCell::new();
    let mut session = Session::start(&cell);
    for _ in 0..5 {
        let ev = session.emit();
        assert_eq!(ev, "{\"level\":\"no data\"}");
        assert_eq!(session.phase(), Phase::Waiting);
        session.tick(&cell);
        assert_eq!(session.phase(), Phase::Emitting);
    }
    let _ = session.emit();
    session.cancel();
    assert_eq!(session.phase(), Phase::Closed);
}

#[test]
fn write_between_connections_reaches_both_clients() {
    // One client connects before a write, a second after it; each reports
    // the new value without blocking the other.
    let mut cell = LatestValueCell::new();
    let mut early = Session::start(&cell);
    assert_eq!(early.emit(), "{\"level\":\"no data\"}");

    cell.write(Reading::new(42, String::from("Pitch = 0.042\u{00b0}")));

    let mut late = Session::start(&cell);
    assert_eq!(late.emit(), "{\"level\":\"Pitch = 0.042\u{00b0}\"}");

    early.tick(&cell);
    assert_eq!(early.emit(), "{\"level\":\"Pitch = 0.042\u{00b0}\"}");
    assert_eq!(early.current_value(), 42);
    assert_eq!(late.current_value(), 42);
}

#[test]
fn disconnect_leaves_the_survivor_updating() {
    // One client disconnects mid-stream while the adapter keeps writing;
    // the surviving session keeps tracking the cell.
    let mut cell = LatestValueCell::new();
    let config = Config::new(String::from("127.0.0.1:3030"), 50, 80_000);
    let adapter = IngressAdapter::new(&config);

    adapter.on_message(&mut cell, 0);
    let mut doomed = Session::start(&cell);
    let mut survivor = Session::start(&cell);
    let _ = doomed.emit();
    let _ = survivor.emit();

    doomed.cancel();
    assert_eq!(doomed.phase(), Phase::Closed);

    adapter.on_message(&mut cell, 1_000_000);
    survivor.tick(&cell);
    assert_eq!(survivor.emit(), "{\"level\":\"Pitch = 62.547\u{00b0}\"}");
    assert_eq!(survivor.current_value(), 62_547);
}

#[test]
fn send_failure_closes_the_session() {
    let cell = LatestValueCell::new();
    let mut session = Session::start(&cell);
    session.on_send_failure();
    assert_eq!(session.phase(), Phase::Closed);
}

#[test]
fn sentinel_reading_is_no_data() {
    let sentinel = sentinel_reading();
    assert_eq!(sentinel.value, 0);
    assert_eq!(sentinel.label, "no data");
}

#[test]
fn pitch_formula_at_zero() {
    // raw = 0: the pitch is exactly the target angle.
    assert_eq!(compute_pitch(80_000, 0), 80_000);
}

#[test]
fn pitch_formula_exact_value() {
    // raw of 1000 degrees: 1000 * pi / 180 ~ 17.453 units, subtracted.
    assert_eq!(compute_pitch(80_000, 1_000_000), 62_547);
}

#[test]
fn pitch_formula_negative_raw() {
    assert_eq!(compute_pitch(0, -1_000_000), 17_453);
}

#[test]
fn derived_reading_renders_its_label() {
    let r = derive_reading(80_000, 0);
    assert_eq!(r.value, 80_000);
    assert_eq!(r.label, "Pitch = 80.000\u{00b0}");

    let below = derive_reading(0, 1_000_000);
    assert_eq!(below.value, -17_453);
    assert_eq!(below.label, "Pitch = -17.453\u{00b0}");
}

#[test]
fn decimal_rendering_edges() {
    assert_eq!(u64_to_dec(0), "0");
    assert_eq!(u64_to_dec(10), "10");
    assert_eq!(u64_to_dec(18_446_744_073_709_551_615), "18446744073709551615");
    assert_eq!(fixed3_to_dec(0), "0.000");
    assert_eq!(fixed3_to_dec(-1), "-0.001");
    assert_eq!(fixed3_to_dec(999), "0.999");
    assert_eq!(fixed3_to_dec(-80_000), "-80.000");
    assert_eq!(fixed3_to_dec(i64::MIN), "-9223372036854775.808");
    assert_eq!(fixed3_to_dec(i64::MAX), "9223372036854775.807");
}

#[test]
fn event_payload_escapes_json() {
    assert_eq!(render_event("no data"), "{\"level\":\"no data\"}");
    assert_eq!(render_event("he said \"hi\""), "{\"level\":\"he said \\\"hi\\\"\"}");
    assert_eq!(render_event("back\\slash"), "{\"level\":\"back\\\\slash\"}");
    assert_eq!(render_event("line\nbreak\ttab\rret"), "{\"level\":\"line\\nbreak\\ttab\\rret\"}");
    assert_eq!(render_event("ctl\u{1}\u{1f}"), "{\"level\":\"ctl\\u0001\\u001f\"}");
    assert_eq!(render_event(""), "{\"level\":\"\"}");
    assert_eq!(render_event("caf\u{e9} \u{00b0}"), "{\"level\":\"caf\u{e9} \u{00b0}\"}");
}

#[test]
fn session_emits_through_written_reading() {
    // The payload reflects the cell's reading end to end: write, connect,
    // emit, compare against hand-built JSON.
    let mut cell = LatestValueCell::new();
    cell.write(derive_reading(80_000, 500_000));
    let mut session = Session::start(&cell);
    let ev = session.emit();
    assert_eq!(ev, format!("{{\"level\":\"Pitch = {}.{}\u{00b0}\"}}", 71, 274));
}

#[test]
fn config_defaults_match_the_service() {
    let config = Config::default();
    assert_eq!(config.bind_address, "127.0.0.1:3030");
    assert_eq!(config.update_interval_ms, 50);
    assert_eq!(config.target_angle_milli, 80_000);
}
