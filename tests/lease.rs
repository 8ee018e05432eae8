use dhcp_client::address::Ipv4Address;
use dhcp_client::lease::derive_intervals;

#[test]
fn default_intervals_split_the_lease() {
    let (t1, t2, exp) = derive_intervals(None, None, 3600, 0);
    assert_eq!((t1, t2, exp), (1800, 1350, 450));
    assert_eq!(t1 + t2 + exp, 3600);
}

#[test]
fn default_intervals_round_down() {
    let (t1, t2, exp) = derive_intervals(None, None, 1001, 0);
    assert_eq!((t1, t2, exp), (500, 375, 126));
    assert_eq!(t1 + t2 + exp, 1001);
}

#[test]
fn default_intervals_of_largest_lease() {
    let e = u32::MAX;
    let (t1, t2, exp) = derive_intervals(None, None, e, 0);
    assert_eq!(t1, (e / 2) as u64);
    assert_eq!(t1 + t2 + exp, e as u64);
}

#[test]
fn latency_shortens_renewal_only() {
    assert_eq!(derive_intervals(None, None, 3600, 1), (1799, 1350, 450));
}

#[test]
fn server_times_are_used() {
    assert_eq!(derive_intervals(Some(1000), Some(2000), 3000, 10), (990, 1000, 1000));
}

#[test]
fn degenerate_times_clamp_to_zero() {
    assert_eq!(derive_intervals(Some(5), Some(3), 2, 10), (0, 0, 0));
}

#[test]
fn address_octets() {
    assert_eq!(Ipv4Address::new(10, 0, 0, 5).bits, 0x0A00_0005);
    assert_eq!(Ipv4Address::new(255, 255, 255, 255), Ipv4Address::broadcast());
    assert_eq!(Ipv4Address::new(0, 0, 0, 0), Ipv4Address::unspecified());
}
