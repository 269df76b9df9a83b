use packet_sniffer::text::decimal_string;
use packet_sniffer::text::ipv4_string;
use packet_sniffer::text::ipv6_string;
use packet_sniffer::text::mac_string;

fn v6(segs: [u16; 8]) -> Vec<u8> {
    segs.iter().flat_map(|s| s.to_be_bytes()).collect()
}

#[test]
fn mac_is_lower_case_padded_hex() {
    assert_eq!(mac_string(&[0xaa, 0xbb, 0xcc, 0xdd, 0xee, 0xff]), "aa:bb:cc:dd:ee:ff");
    assert_eq!(mac_string(&[0, 1, 0x0a, 0x10, 0x7f, 0x80]), "00:01:0a:10:7f:80");
}

#[test]
fn decimal_text() {
    assert_eq!(decimal_string(0), "0");
    assert_eq!(decimal_string(7), "7");
    assert_eq!(decimal_string(80), "80");
    assert_eq!(decimal_string(65535), "65535");
    assert_eq!(decimal_string(4294967295), "4294967295");
}

#[test]
fn ipv4_dotted_decimal() {
    assert_eq!(ipv4_string(&[10, 0, 0, 1]), "10.0.0.1");
    assert_eq!(ipv4_string(&[255, 255, 255, 0]), "255.255.255.0");
    assert_eq!(ipv4_string(&[192, 168, 100, 9]), "192.168.100.9");
}

#[test]
fn ipv6_compresses_longest_zero_run() {
    assert_eq!(ipv6_string(&v6([0, 0, 0, 0, 0, 0, 0, 0])), "::");
    assert_eq!(ipv6_string(&v6([0, 0, 0, 0, 0, 0, 0, 1])), "::1");
    assert_eq!(ipv6_string(&v6([0xfe80, 0, 0, 0, 0, 0, 0, 1])), "fe80::1");
    assert_eq!(ipv6_string(&v6([0x2001, 0xdb8, 0, 0, 0, 0, 0, 0])), "2001:db8::");
    assert_eq!(ipv6_string(&v6([1, 0, 0, 2, 0, 0, 0, 3])), "1:0:0:2::3");
    assert_eq!(ipv6_string(&v6([1, 0, 0, 2, 0, 0, 3, 4])), "1::2:0:0:3:4");
}

#[test]
fn ipv6_single_zero_group_is_not_compressed() {
    assert_eq!(
        ipv6_string(&v6([0x2001, 0xdb8, 0, 1, 2, 3, 4, 5])),
        "2001:db8:0:1:2:3:4:5"
    );
    assert_eq!(
        ipv6_string(&v6([0xffff, 0xabcd, 0x1234, 0x5678, 0x9abc, 0xdef0, 0x1111, 0xa])),
        "ffff:abcd:1234:5678:9abc:def0:1111:a"
    );
}

#[test]
fn ipv6_mapped_ipv4() {
    assert_eq!(ipv6_string(&v6([0, 0, 0, 0, 0, 0xffff, 0x0a00, 0x0001])), "::ffff:10.0.0.1");
    assert_eq!(ipv6_string(&v6([0, 0, 0, 0, 0, 0, 0x0a00, 0x0001])), "::a00:1");
}
