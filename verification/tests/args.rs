use fuse_channel::args::{marshalable, with_fuse_args, FuseArgs, PROGRAM};

#[test]
fn fuse_args() {
    with_fuse_args(&["foo".as_bytes(), "bar".as_bytes()], |args| {
        assert!(args.argc() == 3);
        assert_eq!(args.argv()[0].as_bytes(), b"rust-fuse");
        assert_eq!(args.argv()[1].as_bytes(), b"foo");
        assert_eq!(args.argv()[2].as_bytes(), b"bar");
    });
}

#[test]
fn with_fuse_args_returns_what_the_closure_returns() {
    let seen: (i32, usize) =
        with_fuse_args(&["ro".as_bytes()], |args| (args.argc(), args.argv().len()));
    assert_eq!(seen, (2, 2));
}

#[test]
fn program_name_is_rust_fuse() {
    assert_eq!(PROGRAM, "rust-fuse");
    let args = FuseArgs::new(&[]);
    assert_eq!(args.argv()[0].as_bytes_with_nul(), b"rust-fuse\0");
}

#[test]
fn no_options_leave_the_program_name_alone() {
    let args = FuseArgs::new(&[]);
    assert_eq!(args.argc(), 1);
    assert_eq!(args.argv().len(), 1);
    assert_eq!(args.argv()[0].as_bytes(), b"rust-fuse");
}

#[test]
fn options_follow_the_program_name_in_order() {
    let options: Vec<&[u8]> = vec![b"-o", b"ro,allow_other", b"-d", b"-o", b"fsname=x"];
    let args = FuseArgs::new(&options);
    assert_eq!(args.argc(), 6);
    assert_eq!(args.argv().len(), 6);
    assert_eq!(args.argv()[0].as_bytes(), b"rust-fuse");
    for (i, option) in options.iter().enumerate() {
        assert_eq!(args.argv()[i + 1].as_bytes(), *option);
    }
}

#[test]
fn every_argument_ends_in_one_nul() {
    let args = FuseArgs::new(&[b"foo", b""]);
    assert_eq!(args.argv()[1].as_bytes_with_nul(), b"foo\0");
    assert_eq!(args.argv()[2].as_bytes_with_nul(), b"\0");
    assert_eq!(args.argv()[2].as_bytes(), b"");
}

#[test]
fn options_need_not_be_text() {
    let args = FuseArgs::new(&[&[0xff, 0xfe, 0x01]]);
    assert_eq!(args.argc(), 2);
    assert_eq!(args.argv()[1].as_bytes(), &[0xff, 0xfe, 0x01]);
}

#[test]
fn arguments_are_never_freed_by_the_reader() {
    assert_eq!(FuseArgs::new(&[b"foo"]).allocated(), 0);
}

#[test]
fn equal_options_make_equal_lists() {
    assert_eq!(FuseArgs::new(&[b"foo", b"bar"]), FuseArgs::new(&[b"foo", b"bar"]));
    assert_ne!(FuseArgs::new(&[b"foo", b"bar"]), FuseArgs::new(&[b"bar", b"foo"]));
}

#[test]
fn marshalable_accepts_options_without_nul() {
    assert!(marshalable(&[]));
    assert!(marshalable(&[b"foo", b"bar", b""]));
}

#[test]
fn marshalable_rejects_an_option_with_nul() {
    assert!(!marshalable(&[b"fo\0o"]));
    assert!(!marshalable(&[b"foo", b"bar\0"]));
    assert!(!marshalable(&[b"\0", b"bar"]));
}
