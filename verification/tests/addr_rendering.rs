use presentation::addr_text::{addr_text, PublicAddr};

fn v4(a: u8, b: u8, c: u8, d: u8) -> PublicAddr {
    PublicAddr::V4 { a, b, c, d }
}

fn v6(g: [u16; 8]) -> PublicAddr {
    PublicAddr::V6 {
        g0: g[0],
        g1: g[1],
        g2: g[2],
        g3: g[3],
        g4: g[4],
        g5: g[5],
        g6: g[6],
        g7: g[7],
    }
}

#[test]
fn renders_zero_address() {
    assert_eq!(addr_text(&v4(0, 0, 0, 0)), b"0.0.0.0".to_vec());
}

#[test]
fn renders_single_digit_octets() {
    assert_eq!(addr_text(&v4(8, 8, 8, 8)), b"8.8.8.8".to_vec());
}

#[test]
fn renders_mixed_width_octets() {
    assert_eq!(addr_text(&v4(192, 168, 0, 1)), b"192.168.0.1".to_vec());
    assert_eq!(addr_text(&v4(10, 0, 42, 255)), b"10.0.42.255".to_vec());
}

#[test]
fn renders_largest_octets() {
    assert_eq!(addr_text(&v4(255, 255, 255, 255)), b"255.255.255.255".to_vec());
}

#[test]
fn renders_zero_groups_as_double_colon() {
    assert_eq!(addr_text(&v6([0; 8])), b"::".to_vec());
}

#[test]
fn renders_loopback() {
    assert_eq!(addr_text(&v6([0, 0, 0, 0, 0, 0, 0, 1])), b"::1".to_vec());
}

#[test]
fn renders_hex_groups_and_compresses_zero_run() {
    assert_eq!(
        addr_text(&v6([0x2001, 0x0db8, 0, 0, 0, 0, 0, 1])),
        b"2001:db8::1".to_vec()
    );
}

#[test]
fn renders_leading_zero_run() {
    assert_eq!(
        addr_text(&v6([0, 0, 1, 2, 3, 4, 5, 6])),
        b"::1:2:3:4:5:6".to_vec()
    );
}

#[test]
fn renders_trailing_zero_run() {
    assert_eq!(
        addr_text(&v6([1, 2, 3, 4, 5, 6, 0, 0])),
        b"1:2:3:4:5:6::".to_vec()
    );
}

#[test]
fn compresses_first_zero_run_on_a_tie() {
    assert_eq!(
        addr_text(&v6([1, 0, 0, 2, 0, 0, 3, 4])),
        b"1::2:0:0:3:4".to_vec()
    );
}

#[test]
fn compresses_the_longer_of_two_zero_runs() {
    assert_eq!(
        addr_text(&v6([1, 0, 0, 2, 0, 0, 0, 3])),
        b"1:0:0:2::3".to_vec()
    );
}

#[test]
fn leaves_a_single_zero_group_uncompressed() {
    assert_eq!(
        addr_text(&v6([1, 0, 2, 3, 4, 5, 6, 7])),
        b"1:0:2:3:4:5:6:7".to_vec()
    );
}

#[test]
fn renders_mapped_address_in_mixed_form() {
    assert_eq!(
        addr_text(&v6([0, 0, 0, 0, 0, 0xffff, 0xc0a8, 0x0001])),
        b"::ffff:192.168.0.1".to_vec()
    );
    assert_eq!(
        addr_text(&v6([0, 0, 0, 0, 0, 0xffff, 0, 0])),
        b"::ffff:0.0.0.0".to_vec()
    );
}

#[test]
fn compresses_an_almost_mapped_address_normally() {
    assert_eq!(
        addr_text(&v6([0, 0, 0, 0, 0, 0xfffe, 1, 2])),
        b"::fffe:1:2".to_vec()
    );
}

#[test]
fn renders_largest_groups_in_lowercase() {
    assert_eq!(
        addr_text(&v6([0xffff, 0xabcd, 0x1a2b, 0xf, 0x10, 0x100, 0x1000, 0x9])),
        b"ffff:abcd:1a2b:f:10:100:1000:9".to_vec()
    );
}
