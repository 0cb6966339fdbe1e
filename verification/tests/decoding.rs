use systrace::decode::{format_connect, format_openat};
use systrace::flags::{format_flags, OpenFlagSet, ALL_OPEN_FLAGS, O_CLOEXEC, O_CREAT, O_WRONLY};
use systrace::fmt::{dec_i64, dec_u64, display_bytes, hex2_u8, hex_u64};
use systrace::remote::{take_before_nul, word_to_bytes};
use systrace::sockaddr::{decode_sockaddr, AF_INET, AF_UNIX};

#[test]
fn decimal_rendering() {
    assert_eq!(dec_u64(0).as_str(), "0");
    assert_eq!(dec_u64(7).as_str(), "7");
    assert_eq!(dec_u64(8080).as_str(), "8080");
    assert_eq!(dec_u64(u64::MAX).as_str(), "18446744073709551615");
    assert_eq!(dec_i64(0).as_str(), "0");
    assert_eq!(dec_i64(-1).as_str(), "-1");
    assert_eq!(dec_i64(-2).as_str(), "-2");
    assert_eq!(dec_i64(i64::MIN).as_str(), "-9223372036854775808");
}

#[test]
fn hex_rendering() {
    assert_eq!(hex_u64(0).as_str(), "0");
    assert_eq!(hex_u64(0xbeef).as_str(), "beef");
    assert_eq!(hex2_u8(0).as_str(), "00");
    assert_eq!(hex2_u8(7).as_str(), "07");
    assert_eq!(hex2_u8(0xfe).as_str(), "fe");
}

#[test]
fn display_keeps_printable_bytes() {
    let v: Vec<u8> = b"/etc/hostname".to_vec();
    assert_eq!(display_bytes(&v).as_str(), "/etc/hostname");
    let odd: Vec<u8> = vec![b'a', 0x01, 0xff, b'b'];
    assert_eq!(display_bytes(&odd).as_str(), "a..b");
}

#[test]
fn word_splits_little_endian() {
    let bytes = word_to_bytes(0x0102030405060708);
    assert_eq!(bytes, vec![0x08, 0x07, 0x06, 0x05, 0x04, 0x03, 0x02, 0x01]);
}

#[test]
fn flags_of_zero_show_read_only() {
    assert_eq!(format_flags(0).as_str(), "O_RDONLY");
}

#[test]
fn flags_show_each_set_flag() {
    assert_eq!(format_flags(O_WRONLY | O_CREAT).as_str(), "O_WRONLY | O_CREAT");
    assert_eq!(format_flags(O_CLOEXEC).as_str(), "O_RDONLY | O_CLOEXEC");
}

#[test]
fn flag_decode_truncates_foreign_bits() {
    let set = OpenFlagSet::from_bits_truncate(u64::MAX);
    assert_eq!(set.bits, ALL_OPEN_FLAGS);
    assert!(set.contains(O_CREAT));
    let set = OpenFlagSet::from_bits_truncate(O_CREAT | (1 << 40));
    assert_eq!(set.bits, O_CREAT);
    // Rendering the raw value and the truncated value agree.
    assert_eq!(
        format_flags(O_CREAT | (1 << 40)).as_str(),
        format_flags(O_CREAT).as_str()
    );
}

#[test]
fn string_scan_stops_at_first_nul() {
    let mut v: Vec<u8> = b"/tmp/sock".to_vec();
    v.push(0);
    v.extend_from_slice(b"garbage after the terminator");
    let head = take_before_nul(&v, 0);
    assert_eq!(head, b"/tmp/sock".to_vec());
}

#[test]
fn string_scan_without_nul_takes_everything() {
    let v: Vec<u8> = b"abc".to_vec();
    assert_eq!(take_before_nul(&v, 0), b"abc".to_vec());
    assert_eq!(take_before_nul(&v, 1), b"bc".to_vec());
}

#[test]
fn ipv4_sockaddr_decodes_address_and_port() {
    // Family 2, port 8080 in network order, address 127.0.0.1.
    let bytes: Vec<u8> = vec![2, 0, 0x1f, 0x90, 127, 0, 0, 1, 0, 0, 0, 0, 0, 0, 0, 0];
    let sa = decode_sockaddr(&bytes);
    assert_eq!(sa.family, AF_INET);
    assert_eq!(sa.addr.as_str(), "127.0.0.1");
    assert_eq!(sa.port, Some(8080));
}

#[test]
fn unix_sockaddr_decodes_path_up_to_nul() {
    let mut bytes: Vec<u8> = vec![1, 0];
    bytes.extend_from_slice(b"/tmp/sock");
    while bytes.len() < 110 {
        bytes.push(0);
    }
    let sa = decode_sockaddr(&bytes);
    assert_eq!(sa.family, AF_UNIX);
    assert_eq!(sa.addr.as_str(), "/tmp/sock");
    assert_eq!(sa.port, None);
}

#[test]
fn ipv6_sockaddr_decodes_groups_and_port() {
    // Family 10, port 443, flow info, then the loopback address.
    let mut bytes: Vec<u8> = vec![10, 0, 0x01, 0xbb, 0, 0, 0, 0];
    bytes.extend_from_slice(&[0, 0, 0, 0, 0, 0, 0, 0, 0, 0, 0, 0, 0, 0, 0, 1]);
    bytes.extend_from_slice(&[0, 0, 0, 0]);
    let sa = decode_sockaddr(&bytes);
    assert_eq!(sa.family, 10);
    assert_eq!(sa.addr.as_str(), "::1");
    assert_eq!(sa.port, Some(443));
}

#[test]
fn ipv6_zero_runs_are_compressed_leftmost_longest() {
    // 2001:db8:0:0:1:0:0:1 compresses its first two-group zero run.
    let mut bytes: Vec<u8> = vec![10, 0, 0, 80, 0, 0, 0, 0];
    bytes.extend_from_slice(&[
        0x20, 0x01, 0x0d, 0xb8, 0, 0, 0, 0, 0, 1, 0, 0, 0, 0, 0, 1,
    ]);
    let sa = decode_sockaddr(&bytes);
    assert_eq!(sa.addr.as_str(), "2001:db8::1:0:0:1");

    // A single zero group is not compressed.
    let mut bytes: Vec<u8> = vec![10, 0, 0, 80, 0, 0, 0, 0];
    bytes.extend_from_slice(&[
        0, 1, 0, 2, 0, 0, 0, 3, 0, 4, 0, 5, 0, 6, 0, 7,
    ]);
    let sa = decode_sockaddr(&bytes);
    assert_eq!(sa.addr.as_str(), "1:2:0:3:4:5:6:7");

    // All zero groups compress to the bare double colon.
    let mut bytes: Vec<u8> = vec![10, 0, 0, 80, 0, 0, 0, 0];
    bytes.extend_from_slice(&[0; 16]);
    let sa = decode_sockaddr(&bytes);
    assert_eq!(sa.addr.as_str(), "::");
}

#[test]
fn ipv4_mapped_ipv6_shows_mixed_notation() {
    // ::ffff:127.0.0.1 with port 8080.
    let mut bytes: Vec<u8> = vec![10, 0, 0x1f, 0x90, 0, 0, 0, 0];
    bytes.extend_from_slice(&[0, 0, 0, 0, 0, 0, 0, 0, 0, 0, 0xff, 0xff, 127, 0, 0, 1]);
    let sa = decode_sockaddr(&bytes);
    assert_eq!(sa.family, 10);
    assert_eq!(sa.addr.as_str(), "::ffff:127.0.0.1");
    assert_eq!(sa.port, Some(8080));
}

#[test]
fn unknown_family_falls_back_to_raw_bytes() {
    let bytes: Vec<u8> = vec![99, 0, 0xde, 0xad];
    let sa = decode_sockaddr(&bytes);
    assert_eq!(sa.family, 99);
    assert_eq!(sa.addr.as_str(), "6300dead");
    assert_eq!(sa.port, None);
}

#[test]
fn truncated_sockaddr_falls_back_to_raw_bytes() {
    let bytes: Vec<u8> = vec![2];
    let sa = decode_sockaddr(&bytes);
    assert_eq!(sa.family, 0);
    assert_eq!(sa.addr.as_str(), "02");
    assert_eq!(sa.port, None);
}

#[test]
fn openat_line_matches_expected_format() {
    let path = String::from("/etc/hostname");
    let line = format_openat(4294967196, &path, 0, 0);
    assert_eq!(
        line.as_str(),
        "> openat(4294967196, '/etc/hostname', O_RDONLY, 0)"
    );
}

#[test]
fn connect_line_matches_expected_format() {
    let bytes: Vec<u8> = vec![2, 0, 0x1f, 0x90, 127, 0, 0, 1, 0, 0, 0, 0, 0, 0, 0, 0];
    let sa = decode_sockaddr(&bytes);
    let line = format_connect(3, &sa, 16);
    assert_eq!(line.as_str(), "> connect(3, 127.0.0.1:8080, 16)");
}

#[test]
fn connect_line_for_unix_has_no_port() {
    let mut bytes: Vec<u8> = vec![1, 0];
    bytes.extend_from_slice(b"/run/x\0\0");
    let sa = decode_sockaddr(&bytes);
    let line = format_connect(5, &sa, 10);
    assert_eq!(line.as_str(), "> connect(5, /run/x, 10)");
}
