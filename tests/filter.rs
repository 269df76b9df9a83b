use packet_sniffer::filter::accepts;
use packet_sniffer::filter::Blacklist;
use packet_sniffer::packet::PacketInfo;

fn tcp_frame() -> Vec<u8> {
    let mut f = vec![0u8; 60];
    f[0..6].copy_from_slice(&[0xaa, 0xbb, 0xcc, 0xdd, 0xee, 0xff]);
    f[6..12].copy_from_slice(&[0x11, 0x22, 0x33, 0x44, 0x55, 0x66]);
    f[12] = 0x08;
    f[13] = 0x00;
    f[23] = 6;
    f[26..30].copy_from_slice(&[10, 0, 0, 1]);
    f[30..34].copy_from_slice(&[10, 0, 0, 2]);
    f[34..36].copy_from_slice(&1234u16.to_be_bytes());
    f[36..38].copy_from_slice(&80u16.to_be_bytes());
    f
}

fn rules(from: &[&str], into: &[&str]) -> Blacklist {
    Blacklist {
        from: from.iter().map(|s| s.to_string()).collect(),
        into: into.iter().map(|s| s.to_string()).collect(),
    }
}

fn info() -> PacketInfo {
    PacketInfo::from(&tcp_frame()).unwrap()
}

#[test]
fn no_rules_accept_everything() {
    assert!(accepts(&None, &info()));
}

#[test]
fn source_ip_in_from_rejects() {
    let b = rules(&["10.0.0.1"], &[]);
    assert!(b.rejects(&info()));
    assert!(!accepts(&Some(b), &info()));
}

#[test]
fn source_ip_in_into_does_not_reject() {
    let b = rules(&[], &["10.0.0.1"]);
    assert!(!b.rejects(&info()));
}

#[test]
fn source_mac_in_from_rejects() {
    assert!(rules(&["11:22:33:44:55:66"], &[]).rejects(&info()));
    assert!(!rules(&["11:22:33:44:55:67"], &[]).rejects(&info()));
}

#[test]
fn destination_mac_in_into_rejects() {
    assert!(rules(&[], &["aa:bb:cc:dd:ee:ff"]).rejects(&info()));
    assert!(!rules(&[], &["AA:BB:CC:DD:EE:FF"]).rejects(&info()));
}

#[test]
fn ip_port_forms_reject() {
    assert!(rules(&["10.0.0.1:1234"], &[]).rejects(&info()));
    assert!(rules(&[], &["10.0.0.2:80"]).rejects(&info()));
    assert!(!rules(&["10.0.0.1:80"], &[]).rejects(&info()));
    assert!(!rules(&[], &["10.0.0.2:1234"]).rejects(&info()));
}

#[test]
fn destination_ip_in_into_rejects() {
    assert!(rules(&["192.168.0.1"], &["10.0.0.2"]).rejects(&info()));
}

#[test]
fn unrelated_rules_accept() {
    let b = rules(&["10.0.0.3", "10.0.0.1 "], &["10.0.0.20", "aa:bb:cc:dd:ee"]);
    assert!(accepts(&Some(b), &info()));
}

#[test]
fn verdict_is_the_same_on_repeat() {
    let b = Some(rules(&["10.0.0.9"], &["10.0.0.2:80"]));
    let first = accepts(&b, &info());
    for _ in 0..5 {
        assert_eq!(accepts(&b, &info()), first);
    }
    assert!(!first);
}

#[test]
fn arp_frame_matched_by_mac_only() {
    let mut f = vec![0u8; 42];
    f[6..12].copy_from_slice(&[0x11, 0x22, 0x33, 0x44, 0x55, 0x66]);
    f[12] = 0x08;
    f[13] = 0x06;
    let p = PacketInfo::from(&f).unwrap();
    assert!(rules(&["11:22:33:44:55:66"], &[]).rejects(&p));
    assert!(!rules(&["0.0.0.0"], &["0.0.0.0"]).rejects(&p));
}
