use rustylight_server::proc_status::resident_set_bytes;

#[test]
fn reads_vmrss_in_bytes() {
    let status = b"Name:\tcat\nVmPeak:\t  9000 kB\nVmRSS:\t    5120 kB\nThreads:\t1\n";
    assert_eq!(resident_set_bytes(status), Some(5120 * 1024));
}

#[test]
fn first_line_at_start_and_plus_sign() {
    assert_eq!(resident_set_bytes(b"VmRSS: +7 kB"), Some(7 * 1024));
    assert_eq!(resident_set_bytes(b"VmRSS:\t0"), Some(0));
}

#[test]
fn missing_or_malformed_line_gives_none() {
    assert_eq!(resident_set_bytes(b""), None);
    assert_eq!(resident_set_bytes(b"VmHWM:\t10 kB\n"), None);
    assert_eq!(resident_set_bytes(b"VmRSS:\n12 kB"), None);
    assert_eq!(resident_set_bytes(b"VmRSS:12 kB"), None);
    assert_eq!(resident_set_bytes(b"VmRSS:\t12x kB"), None);
    assert_eq!(resident_set_bytes(b"VmRSS:\t+ kB"), None);
    assert_eq!(resident_set_bytes(b"xVmRSS:\t12 kB"), None);
}

#[test]
fn only_the_first_vmrss_line_counts() {
    assert_eq!(resident_set_bytes(b"VmRSS:\tbad\nVmRSS:\t4 kB\n"), None);
    assert_eq!(resident_set_bytes(b"a\r\nVmRSS:\t4\r\n"), Some(4096));
}

#[test]
fn overflow_gives_none() {
    assert_eq!(resident_set_bytes(b"VmRSS:\t18446744073709551615 kB"), None);
    assert_eq!(resident_set_bytes(b"VmRSS:\t18446744073709551616 kB"), None);
    assert_eq!(resident_set_bytes(b"VmRSS:\t18014398509481983 kB"), Some(18014398509481983 * 1024));
    assert_eq!(resident_set_bytes(b"VmRSS:\t18014398509481984 kB"), None);
}
