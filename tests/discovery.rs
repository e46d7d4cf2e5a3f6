use nekrotrace::discovery::{DiscoveryError, DiscoveryRun, HopCandidate, TraceFormat};
use nekrotrace::{hostname_or_ip, parse_hop_line};

fn posix(line: &str) -> Option<HopCandidate> {
    parse_hop_line(TraceFormat::Posix, line)
}

fn windows(line: &str) -> Option<HopCandidate> {
    parse_hop_line(TraceFormat::Windows, line)
}

fn run_of(format: TraceFormat, lines: &[&str]) -> DiscoveryRun {
    let mut run = DiscoveryRun::new(format);
    for line in lines {
        if let Some(c) = parse_hop_line(format, line) {
            let name = c.ip.clone();
            run.record(c, name);
        }
    }
    run
}

#[test]
fn posix_line_with_latency() {
    let c = posix(" 1  10.0.0.1  0.512 ms").unwrap();
    assert_eq!(c.hop, 1);
    assert_eq!(c.ip, "10.0.0.1");
    assert_eq!(c.initial_latency, Some(1));
}

#[test]
fn posix_latency_rounds_to_nearest() {
    assert_eq!(posix("3 1.2.3.4 2.5 ms").unwrap().initial_latency, Some(3));
    assert_eq!(posix("3 1.2.3.4 12.49 ms").unwrap().initial_latency, Some(12));
    assert_eq!(posix("3 1.2.3.4 7 ms").unwrap().initial_latency, Some(7));
}

#[test]
fn posix_line_without_latency() {
    let c = posix("4 1.2.3.4").unwrap();
    assert_eq!(c.hop, 4);
    assert_eq!(c.initial_latency, None);
    assert_eq!(posix("4 1.2.3.4 ms").unwrap().initial_latency, None);
}

#[test]
fn posix_skips_non_hop_lines() {
    assert!(posix("").is_none());
    assert!(posix("   ").is_none());
    assert!(posix("traceroute to 93.184.216.34 (93.184.216.34), 30 hops max, 60 byte packets").is_none());
    assert!(posix(" 2  *").is_none());
    assert!(posix("7").is_none());
    assert!(posix("x 1.2.3.4 1.0 ms").is_none());
    assert!(posix("4294967296 1.2.3.4").is_none());
}

#[test]
fn posix_ttl_reads_like_std() {
    assert_eq!(posix("+5 1.2.3.4").unwrap().hop, 5);
    assert_eq!(posix("4294967295 1.2.3.4").unwrap().hop, 4294967295);
}

#[test]
fn windows_line_below_one_millisecond() {
    let c = windows("  1    <1 ms    <1 ms    <1 ms  192.168.1.1").unwrap();
    assert_eq!(c.hop, 1);
    assert_eq!(c.ip, "192.168.1.1");
    assert_eq!(c.initial_latency, Some(1));
}

#[test]
fn windows_line_with_latency() {
    let c = windows("  3    12 ms    11 ms    13 ms  10.0.0.3").unwrap();
    assert_eq!(c.hop, 3);
    assert_eq!(c.ip, "10.0.0.3");
    assert_eq!(c.initial_latency, Some(12));
}

#[test]
fn windows_skips_timeouts_and_headers() {
    assert!(windows("  2     *        *        *     Request timed out.").is_none());
    assert!(windows("Tracing route to example.com [93.184.216.34]").is_none());
    assert!(windows("over a maximum of 30 hops:").is_none());
    assert!(windows("").is_none());
}

#[test]
fn windows_unreadable_latency_is_absent() {
    let c = windows("  4     *       15 ms    14 ms  10.0.0.4").unwrap();
    assert_eq!(c.initial_latency, None);
    assert_eq!(c.ip, "10.0.0.4");
}

#[test]
fn windows_drops_repeated_hops() {
    let line = "  5    20 ms    21 ms    22 ms  10.0.0.5";
    let run = run_of(TraceFormat::Windows, &[line, line]);
    assert_eq!(run.hops.len(), 1);
    let run = run_of(TraceFormat::Posix, &["5 10.0.0.5 1.0 ms", "5 10.0.0.5 1.0 ms"]);
    assert_eq!(run.hops.len(), 2);
}

#[test]
fn record_reports_admission() {
    let mut run = DiscoveryRun::new(TraceFormat::Windows);
    let c = windows("  6  1 ms  10.0.0.6").unwrap();
    assert!(run.accepts(&c));
    assert!(run.record(c, "gw.example".to_string()));
    let again = windows("  6  1 ms  10.0.0.6").unwrap();
    assert!(!run.accepts(&again));
    assert!(!run.record(again, "gw.example".to_string()));
    assert_eq!(run.hops[0].hostname, "gw.example");
}

#[test]
fn three_hops_in_order() {
    let run = run_of(
        TraceFormat::Posix,
        &[
            "traceroute to 93.184.216.34 (93.184.216.34), 30 hops max, 60 byte packets",
            " 1  10.0.0.1  0.4 ms",
            " 2  10.0.0.2  1.6 ms",
            " 3  93.184.216.34  9.9 ms",
        ],
    );
    let hops = run.finish(true, None).unwrap();
    assert_eq!(hops.len(), 3);
    let ips: Vec<&str> = hops.iter().map(|h| h.ip.as_str()).collect();
    assert_eq!(ips, vec!["10.0.0.1", "10.0.0.2", "93.184.216.34"]);
    let ttls: Vec<u32> = hops.iter().map(|h| h.hop).collect();
    assert_eq!(ttls, vec![1, 2, 3]);
    assert_eq!(hops[1].initial_latency, Some(2));
}

#[test]
fn fallback_to_resolved_destination() {
    let run = run_of(TraceFormat::Posix, &["traceroute to example.com", " 1  *", " 2  *"]);
    assert!(run.hops.is_empty());
    let hops = run
        .finish(true, Some(("93.184.216.34".to_string(), "93.184.216.34".to_string())))
        .unwrap();
    assert_eq!(hops.len(), 1);
    assert_eq!(hops[0].hop, 1);
    assert_eq!(hops[0].ip, "93.184.216.34");
    assert_eq!(hops[0].hostname, "93.184.216.34");
    assert_eq!(hops[0].initial_latency, None);
}

#[test]
fn no_hops_and_no_resolution_is_empty() {
    let run = DiscoveryRun::new(TraceFormat::Posix);
    assert_eq!(run.finish(true, None).unwrap().len(), 0);
}

#[test]
fn unsuccessful_exit_without_hops_fails() {
    let run = DiscoveryRun::new(TraceFormat::Windows);
    let r = run.finish(false, Some(("1.1.1.1".to_string(), "one".to_string())));
    assert_eq!(r.unwrap_err(), DiscoveryError::Exit);
}

#[test]
fn unsuccessful_exit_with_hops_is_tolerated() {
    let run = run_of(TraceFormat::Windows, &["  1    <1 ms    <1 ms    <1 ms  192.168.1.1"]);
    let hops = run.finish(false, Some(("1.1.1.1".to_string(), "one".to_string()))).unwrap();
    assert_eq!(hops.len(), 1);
    assert_eq!(hops[0].ip, "192.168.1.1");
}

#[test]
fn offer_skips_addresses_that_do_not_read() {
    let mut run = DiscoveryRun::new(TraceFormat::Posix);
    let c = posix(" 1  gateway  0.4 ms").unwrap();
    assert!(!run.offer(c, false, "gateway".to_string()));
    assert!(run.hops.is_empty());
    let c = posix(" 1  10.0.0.1  0.4 ms").unwrap();
    assert!(run.offer(c, true, "gw.example".to_string()));
    assert_eq!(run.hops.len(), 1);
    assert_eq!(run.hops[0].hostname, "gw.example");
}

#[test]
fn offer_still_drops_repeats() {
    let mut run = DiscoveryRun::new(TraceFormat::Windows);
    let line = "  2    3 ms    3 ms    3 ms  10.0.0.2";
    assert!(run.offer(windows(line).unwrap(), true, "a".to_string()));
    assert!(!run.offer(windows(line).unwrap(), true, "a".to_string()));
    assert_eq!(run.hops.len(), 1);
}

#[test]
fn hostname_falls_back_to_address() {
    assert_eq!(hostname_or_ip("10.0.0.1".to_string(), None), "10.0.0.1");
    assert_eq!(hostname_or_ip("10.0.0.1".to_string(), Some("gw.example".to_string())), "gw.example");
}
