use fuse_channel::channel::Channel;
use fuse_channel::cstr::NulTerminated;
use fuse_channel::mount::{real_path, unmount, Platform, PATH_MAX};

const ENOENT: i32 = 2;
const EACCES: i32 = 13;
const EPERM: i32 = 1;

fn resolved_buffer(path: &[u8]) -> Vec<u8> {
    let mut buffer: Vec<u8> = vec![0; PATH_MAX];
    buffer[..path.len()].copy_from_slice(path);
    buffer
}

#[test]
fn real_path_reads_the_path_from_the_buffer() {
    let buffer = resolved_buffer(b"/mnt/data");
    assert_eq!(real_path(true, &buffer, 0), Ok(NulTerminated::new(b"/mnt/data")));
}

#[test]
fn real_path_ignores_the_error_code_of_a_success() {
    let buffer = resolved_buffer(b"/");
    assert_eq!(real_path(true, &buffer, ENOENT), Ok(NulTerminated::new(b"/")));
}

#[test]
fn real_path_hands_on_the_error_code_of_a_failure() {
    let buffer = resolved_buffer(b"/leftover");
    assert_eq!(real_path(false, &buffer, ENOENT), Err(ENOENT));
    assert_eq!(real_path(false, &buffer, EACCES), Err(EACCES));
    assert_eq!(real_path(false, &[], 36), Err(36));
}

#[test]
fn path_max_is_4096() {
    assert_eq!(PATH_MAX, 4096);
}

#[test]
fn new_asks_for_the_path_as_given() {
    let resolve = Channel::new(b"mnt/../mnt", &[]);
    assert_eq!(resolve.path().as_bytes_with_nul(), b"mnt/../mnt\0");
    assert_eq!(resolve.room(), 4096);
}

#[test]
fn a_path_that_does_not_resolve_ends_the_mount() {
    let options: [&[u8]; 1] = [b"ro"];
    let resolve = Channel::new(b"/does/not/exist", &options);
    let buffer = resolved_buffer(b"");
    assert_eq!(resolve.finish(false, &buffer, ENOENT), Err(ENOENT));
}

#[test]
fn a_path_that_does_not_resolve_never_looks_at_the_options() {
    let options: [&[u8]; 1] = [b"r\0o"];
    let resolve = Channel::new(b"/does/not/exist", &options);
    assert_eq!(resolve.finish(false, &[], ENOENT), Err(ENOENT));
}

#[test]
fn a_resolved_path_leads_to_the_mount() {
    let options: [&[u8]; 2] = [b"-o", b"ro"];
    let resolve = Channel::new(b"mnt", &options);
    let buffer = resolved_buffer(b"/home/user/mnt");
    let mount = resolve.finish(true, &buffer, 0).unwrap();
    assert_eq!(mount.mountpoint().as_bytes_with_nul(), b"/home/user/mnt\0");
    assert_eq!(mount.args().argc(), 3);
    assert_eq!(mount.args().argv()[0].as_bytes(), b"rust-fuse");
    assert_eq!(mount.args().argv()[1].as_bytes(), b"-o");
    assert_eq!(mount.args().argv()[2].as_bytes(), b"ro");
}

#[test]
fn a_negative_descriptor_makes_no_channel() {
    let buffer = resolved_buffer(b"/mnt");
    let mount = Channel::new(b"/mnt", &[]).finish(true, &buffer, 0).unwrap();
    assert_eq!(mount.finish(-1, EPERM), Err(EPERM));
    let mount = Channel::new(b"/mnt", &[]).finish(true, &buffer, 0).unwrap();
    assert_eq!(mount.finish(i32::MIN, EACCES), Err(EACCES));
}

#[test]
fn a_descriptor_makes_a_channel_at_the_resolved_path() {
    let buffer = resolved_buffer(b"/srv/fs");
    let mount = Channel::new(b"fs", &[]).finish(true, &buffer, 0).unwrap();
    let channel = mount.finish(7, 0).unwrap();
    assert_eq!(channel.fd(), 7);
    assert_eq!(channel.mountpoint(), b"/srv/fs");
}

#[test]
fn descriptor_zero_is_a_descriptor() {
    let buffer = resolved_buffer(b"/mnt");
    let mount = Channel::new(b"/mnt", &[]).finish(true, &buffer, 0).unwrap();
    let channel = mount.finish(0, EPERM).unwrap();
    assert_eq!(channel.fd(), 0);
}

#[test]
fn the_largest_descriptor_is_a_descriptor() {
    let buffer = resolved_buffer(b"/mnt");
    let mount = Channel::new(b"/mnt", &[]).finish(true, &buffer, 0).unwrap();
    assert_eq!(mount.finish(i32::MAX, 0).unwrap().fd(), i32::MAX);
}

#[test]
fn unmount_on_macos_calls_the_system_with_no_flags() {
    let call = unmount(b"/mnt/data", Platform::MacOs);
    assert!(call.direct());
    assert_eq!(call.flags(), 0);
    assert_eq!(call.mountpoint().as_bytes_with_nul(), b"/mnt/data\0");
}

#[test]
fn unmount_elsewhere_calls_the_mount_facility() {
    let call = unmount(b"/mnt/data", Platform::Other);
    assert!(!call.direct());
    assert_eq!(call.mountpoint().as_bytes_with_nul(), b"/mnt/data\0");
}

#[test]
fn unmount_keeps_the_path_as_it_stands() {
    let call = unmount(b"/mnt/../mnt/./data", Platform::Other);
    assert_eq!(call.mountpoint().as_bytes(), b"/mnt/../mnt/./data");
}
