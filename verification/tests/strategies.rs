use exec_path::dyld::finish_dyld_read;
use exec_path::kernel_string::finish_kernel_string;
use exec_path::link::finish_link_read;
use exec_path::sysctl::finish_sysctl_read;
use exec_path::OsError;

#[test]
fn link_failure_sentinel_propagates_last_error() {
    let buf = vec![0u8; 16];
    let r = finish_link_read(buf, -1, 2);
    assert_eq!(r, Err(OsError { code: 2 }));
}

#[test]
fn link_success_cuts_buffer_to_reported_count() {
    let mut buf = b"/usr/bin/tool".to_vec();
    buf.resize(32, 0);
    let r = finish_link_read(buf, 13, 0);
    assert_eq!(r, Ok(b"/usr/bin/tool".to_vec()));
}

#[test]
fn link_full_buffer_comes_back_whole() {
    let buf = b"/bin/cat".to_vec();
    let len = buf.len() as i64;
    let r = finish_link_read(buf.clone(), len, 0);
    assert_eq!(r, Ok(buf));
}

#[test]
fn link_zero_count_is_empty_success() {
    let buf = vec![7u8; 8];
    let r = finish_link_read(buf, 0, 0);
    assert_eq!(r, Ok(Vec::new()));
}

#[test]
fn link_repeated_interpretation_is_stable() {
    let mut buf = b"/opt/tool".to_vec();
    buf.resize(24, 0);
    let first = finish_link_read(buf.clone(), 9, 0);
    let second = finish_link_read(buf, 9, 0);
    assert_eq!(first, second);
}

#[test]
fn sysctl_failure_sentinel_propagates_last_error() {
    let buf = vec![0u8; 16];
    let r = finish_sysctl_read(buf, -1, 16, 12);
    assert_eq!(r, Err(OsError { code: 12 }));
}

#[test]
fn sysctl_success_cuts_buffer_to_updated_length() {
    let mut buf = b"/sbin/init".to_vec();
    buf.resize(64, 0);
    let r = finish_sysctl_read(buf, 0, 10, 0);
    assert_eq!(r, Ok(b"/sbin/init".to_vec()));
}

#[test]
fn dyld_nonzero_return_propagates_last_error() {
    let buf = vec![0u8; 16];
    let r = finish_dyld_read(buf, -1, 16, 22);
    assert_eq!(r, Err(OsError { code: 22 }));
}

#[test]
fn dyld_success_cuts_buffer_to_updated_length() {
    let mut buf = b"/Applications/tool".to_vec();
    buf.resize(128, 0);
    let r = finish_dyld_read(buf, 0, 18, 0);
    assert_eq!(r, Ok(b"/Applications/tool".to_vec()));
}

#[test]
fn kernel_null_pointer_is_failure_not_empty_path() {
    let r = finish_kernel_string(None, 5);
    assert_eq!(r, Err(OsError { code: 5 }));
}

#[test]
fn kernel_copied_bytes_are_returned_whole() {
    let r = finish_kernel_string(Some(b"/usr/lib/prog".to_vec()), 0);
    assert_eq!(r, Ok(b"/usr/lib/prog".to_vec()));
}
