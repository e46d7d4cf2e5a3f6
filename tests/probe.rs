use nekrotrace::text::{chars_of, parse_decimal_ms, parse_unsigned, split_tokens};
use nekrotrace::{output_latency_ms, PingStatus, Probe, ProbeOutcome};

fn probe(ip: &str, seq: usize) -> Probe {
    Probe { ip: ip.to_string(), seq }
}

#[test]
fn linux_ping_output() {
    let out = "PING 8.8.8.8 (8.8.8.8) 56(84) bytes of data.\n\
               64 bytes from 8.8.8.8: icmp_seq=1 ttl=117 time=12.6 ms\n\
               \n\
               --- 8.8.8.8 ping statistics ---\n\
               1 packets transmitted, 1 received, 0% packet loss, time 0ms\n";
    assert_eq!(output_latency_ms(out), Some(13));
}

#[test]
fn windows_ping_output() {
    let out = "\r\nPinging 8.8.8.8 with 32 bytes of data:\r\nReply from 8.8.8.8: bytes=32 time=14ms TTL=117\r\n";
    assert_eq!(output_latency_ms(out), Some(14));
    assert_eq!(output_latency_ms("Reply from 10.0.0.1: bytes=32 time<1ms TTL=64"), Some(1));
}

#[test]
fn upper_case_marker() {
    assert_eq!(output_latency_ms("time=3.2 MS"), Some(3));
}

#[test]
fn marker_on_a_later_line() {
    assert_eq!(output_latency_ms("PING 10.0.0.1\nreply from 10.0.0.1: time=7 ms"), Some(7));
    assert_eq!(output_latency_ms("TIME=3.2 ms"), Some(3));
}

#[test]
fn host_name_with_ms_does_not_mislead() {
    let out = "64 bytes from ms1.example (10.0.0.1): icmp_seq=1 ttl=64 time=5 ms";
    assert_eq!(output_latency_ms(out), Some(5));
}

#[test]
fn number_before_ms_without_marker_is_not_read() {
    assert_eq!(output_latency_ms("ms then 5 ms\n7 ms"), None);
    assert_eq!(output_latency_ms("1 packets transmitted, time 0ms"), None);
}

#[test]
fn first_marker_decides() {
    assert_eq!(output_latency_ms("time=x ms\ntime=7 ms"), None);
    assert_eq!(output_latency_ms("time=4.5ms\ntime=7 ms"), Some(5));
}

#[test]
fn no_latency_in_output() {
    assert_eq!(output_latency_ms(""), None);
    assert_eq!(output_latency_ms("nothing here\nor here"), None);
}

#[test]
fn answered_probe_uses_printed_latency() {
    let d = probe("10.0.0.1", 4).sample(&ProbeOutcome::Answered {
        output: "time=21.7 ms".to_string(),
        elapsed_ms: 500,
    });
    assert_eq!(d.ip, "10.0.0.1");
    assert_eq!(d.latency, Some(22));
    assert_eq!(d.status, PingStatus::Success);
    assert_eq!(d.status.name(), "ok");
    assert_eq!(d.seq, 4);
}

#[test]
fn answered_probe_prefers_marker_over_elapsed_time() {
    let d = probe("10.0.0.1", 1).sample(&ProbeOutcome::Answered {
        output: "time=5".to_string(),
        elapsed_ms: 900,
    });
    assert_eq!(d.latency, Some(5));
}

#[test]
fn answered_probe_falls_back_to_elapsed_time() {
    let d = probe("10.0.0.1", 1).sample(&ProbeOutcome::Answered {
        output: "no number here".to_string(),
        elapsed_ms: 42,
    });
    assert_eq!(d.latency, Some(42));
    assert_eq!(d.status, PingStatus::Success);
}

#[test]
fn unanswered_probe_is_timeout() {
    let d = probe("10.0.0.9", 2).sample(&ProbeOutcome::Unanswered);
    assert_eq!(d.status, PingStatus::Timeout);
    assert_eq!(d.status.name(), "timeout");
    assert_eq!(d.latency, None);
    assert_eq!(d.seq, 2);
}

#[test]
fn failed_probe_is_error() {
    let d = probe("10.0.0.9", 2).sample(&ProbeOutcome::Failed);
    assert_eq!(d.status, PingStatus::Failure);
    assert_eq!(d.status.name(), "error");
    assert_eq!(d.latency, None);
}

#[test]
fn invalid_address_probe() {
    let d = probe("not-an-ip", 1).sample(&ProbeOutcome::InvalidAddress);
    assert_eq!(d.ip, "not-an-ip");
    assert_eq!(d.status, PingStatus::InvalidIp);
    assert_eq!(d.status.name(), "invalid_ip");
    assert_eq!(d.latency, None);
}

#[test]
fn tokens_split_on_unicode_whitespace() {
    let t = split_tokens(&chars_of(" a\tbc\u{00A0}d\u{3000} e "));
    let t: Vec<String> = t.iter().map(|v| v.iter().collect()).collect();
    assert_eq!(t, vec!["a", "bc", "d", "e"]);
    assert!(split_tokens(&chars_of("   ")).is_empty());
}

#[test]
fn unsigned_parsing_bounds() {
    assert_eq!(parse_unsigned(&chars_of("255"), 255), Some(255));
    assert_eq!(parse_unsigned(&chars_of("256"), 255), None);
    assert_eq!(parse_unsigned(&chars_of("+0"), 255), Some(0));
    assert_eq!(parse_unsigned(&chars_of("+"), 255), None);
    assert_eq!(parse_unsigned(&chars_of(""), 255), None);
    assert_eq!(parse_unsigned(&chars_of("18446744073709551615"), u64::MAX), Some(u64::MAX));
    assert_eq!(parse_unsigned(&chars_of("18446744073709551616"), u64::MAX), None);
}

#[test]
fn decimal_parsing_forms() {
    assert_eq!(parse_decimal_ms(&chars_of("5.")), Some(5));
    assert_eq!(parse_decimal_ms(&chars_of(".5")), Some(1));
    assert_eq!(parse_decimal_ms(&chars_of(".4")), Some(0));
    assert_eq!(parse_decimal_ms(&chars_of(".")), None);
    assert_eq!(parse_decimal_ms(&chars_of("1.2.3")), None);
    assert_eq!(parse_decimal_ms(&chars_of("")), None);
    assert_eq!(parse_decimal_ms(&chars_of("99999999999999999999999")), Some(u64::MAX));
}
