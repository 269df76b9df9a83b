use packet_sniffer::args::Args;
use packet_sniffer::args::ConfigError;
use packet_sniffer::args::LogLevel;
use packet_sniffer::args::SourcePlan;
use packet_sniffer::logger::debug;
use packet_sniffer::logger::error;
use packet_sniffer::logger::info;
use packet_sniffer::logger::set_stack;
use packet_sniffer::logger::set_verbosity;
use packet_sniffer::logger::warn;
use packet_sniffer::logger::Logger;

fn args(read: Option<&str>, interface: Option<&str>) -> Args {
    Args {
        url: None,
        read: read.map(|s| s.to_string()),
        write: None,
        verbosity: LogLevel::Info,
        logfile: None,
        interface: interface.map(|s| s.to_string()),
        blacklist: None,
    }
}

#[test]
fn file_and_interface_conflict() {
    assert_eq!(
        args(Some("in.pcap"), Some("eth0")).source().unwrap_err(),
        ConfigError::ConflictingSources
    );
}

#[test]
fn source_choices() {
    match args(Some("in.pcap"), None).source().unwrap() {
        SourcePlan::Replay(p) => assert_eq!(p, "in.pcap"),
        other => panic!("{:?}", other),
    }
    match args(None, Some("eth0")).source().unwrap() {
        SourcePlan::Live(i) => assert_eq!(i.as_deref(), Some("eth0")),
        other => panic!("{:?}", other),
    }
    match args(None, None).source().unwrap() {
        SourcePlan::Live(i) => assert!(i.is_none()),
        other => panic!("{:?}", other),
    }
}

#[test]
fn default_logger() {
    let l = Logger::default();
    assert_eq!(l.stack, "unknown");
    assert_eq!(l.log_level, LogLevel::Info);
}

#[test]
fn records_follow_threshold() {
    let mut l = Logger::default();
    set_stack(&mut l, "sniffer");
    assert_eq!(debug(&l, "T", "hidden"), None);
    assert_eq!(info(&l, "T", "hello").unwrap(), "[T INFO  sniffer] hello\n");
    assert_eq!(warn(&l, "T", "careful").unwrap(), "[T WARN  sniffer] careful\n");
    assert_eq!(error(&l, "T", "bad").unwrap(), "[T ERROR sniffer] bad\n");
    set_verbosity(&mut l, LogLevel::Debug);
    assert_eq!(l.stack, "sniffer");
    assert_eq!(debug(&l, "T", "shown").unwrap(), "[T DEBUG sniffer] shown\n");
    set_verbosity(&mut l, LogLevel::Error);
    assert_eq!(info(&l, "T", "x"), None);
    assert_eq!(warn(&l, "T", "x"), None);
    assert_eq!(error(&l, "2024", "x").unwrap(), "[2024 ERROR sniffer] x\n");
}

#[test]
fn level_order() {
    assert!(LogLevel::Debug.admits(LogLevel::Error));
    assert!(LogLevel::Warn.admits(LogLevel::Warn));
    assert!(!LogLevel::Warn.admits(LogLevel::Info));
}
