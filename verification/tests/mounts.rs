use testcontainers::mounts::{parse_size, AccessMode, Mount, MountType, SizeParseError};

#[test]
fn test_parse_size_kilobytes() {
    assert_eq!(parse_size("100k").unwrap(), 100_000);
    assert_eq!(parse_size("100K").unwrap(), 100_000);
    assert_eq!(parse_size("1k").unwrap(), 1_000);
    assert_eq!(parse_size("500k").unwrap(), 500_000);
}

#[test]
fn test_parse_size_megabytes() {
    assert_eq!(parse_size("100m").unwrap(), 100_000_000);
    assert_eq!(parse_size("100M").unwrap(), 100_000_000);
    assert_eq!(parse_size("1m").unwrap(), 1_000_000);
    assert_eq!(parse_size("500m").unwrap(), 500_000_000);
}

#[test]
fn test_parse_size_gigabytes() {
    assert_eq!(parse_size("1g").unwrap(), 1_000_000_000);
    assert_eq!(parse_size("1G").unwrap(), 1_000_000_000);
    assert_eq!(parse_size("20g").unwrap(), 20_000_000_000);
    assert_eq!(parse_size("100G").unwrap(), 100_000_000_000);
}

#[test]
fn test_parse_size_bytes() {
    assert_eq!(parse_size("1000").unwrap(), 1000);
    assert_eq!(parse_size("12345").unwrap(), 12345);
    assert_eq!(parse_size("0").unwrap(), 0);
}

#[test]
fn test_parse_size_with_whitespace() {
    assert_eq!(parse_size("  100m  ").unwrap(), 100_000_000);
    assert_eq!(parse_size("1g ").unwrap(), 1_000_000_000);
    assert_eq!(parse_size(" 500k").unwrap(), 500_000);
}

#[test]
fn test_parse_size_empty_string() {
    assert!(parse_size("").is_err());
    assert!(parse_size("   ").is_err());
}

#[test]
fn test_parse_size_invalid_number() {
    assert!(parse_size("abc").is_err());
    assert!(parse_size("12.5g").is_err());
    assert!(parse_size("1.5m").is_err());
    assert!(parse_size("k").is_err());
    assert!(parse_size("m").is_err());
}

#[test]
fn test_parse_size_negative() {
    assert!(parse_size("-100m").is_err());
    assert!(parse_size("-1g").is_err());
}

#[test]
fn test_parse_size_overflow() {
    // i64::MAX is 9,223,372,036,854,775,807
    // This would overflow when multiplied by 1_000_000_000
    assert!(parse_size("10000000000g").is_err());
}

#[test]
fn test_tmpfs_mount_with_size_bytes() {
    let mount = Mount::tmpfs_mount("/tmp").with_size_bytes(1_000_000_000);

    assert_eq!(mount.mount_type(), MountType::Tmpfs);
    assert_eq!(mount.target(), Some("/tmp"));
    assert!(mount.tmpfs_options().is_some());
    assert_eq!(mount.tmpfs_options().unwrap().size_bytes, Some(1_000_000_000));
}

#[test]
fn test_tmpfs_mount_with_size_string() {
    let mount = Mount::tmpfs_mount("/tmp").with_size("20g");

    assert_eq!(mount.mount_type(), MountType::Tmpfs);
    assert!(mount.tmpfs_options().is_some());
    assert_eq!(mount.tmpfs_options().unwrap().size_bytes, Some(20_000_000_000));
}

#[test]
fn test_tmpfs_mount_with_mode() {
    let mount = Mount::tmpfs_mount("/tmp").with_mode(0o1777);

    assert_eq!(mount.mount_type(), MountType::Tmpfs);
    assert!(mount.tmpfs_options().is_some());
    assert_eq!(mount.tmpfs_options().unwrap().mode, Some(0o1777));
}

#[test]
fn test_tmpfs_mount_with_size_and_mode() {
    let mount = Mount::tmpfs_mount("/tmp").with_size("10g").with_mode(0o1777);

    assert_eq!(mount.mount_type(), MountType::Tmpfs);
    let opts = mount.tmpfs_options().unwrap();
    assert_eq!(opts.size_bytes, Some(10_000_000_000));
    assert_eq!(opts.mode, Some(0o1777));
}

#[test]
fn test_tmpfs_mount_without_options() {
    let mount = Mount::tmpfs_mount("/tmp");

    assert_eq!(mount.mount_type(), MountType::Tmpfs);
    assert_eq!(mount.target(), Some("/tmp"));
    assert!(mount.tmpfs_options().is_none());
}

#[test]
fn test_bind_mount_has_no_tmpfs_options() {
    let mount = Mount::bind_mount("/host", "/container");

    assert_eq!(mount.mount_type(), MountType::Bind);
    assert!(mount.tmpfs_options().is_none());
}

#[test]
fn test_volume_mount_has_no_tmpfs_options() {
    let mount = Mount::volume_mount("my-vol", "/container");

    assert_eq!(mount.mount_type(), MountType::Volume);
    assert!(mount.tmpfs_options().is_none());
}

#[test]
fn test_tmpfs_mount_builder_chain() {
    let mount = Mount::tmpfs_mount("/var/lib/data")
        .with_size_bytes(5_000_000_000)
        .with_mode(0o755)
        .with_access_mode(AccessMode::ReadOnly);

    assert_eq!(mount.mount_type(), MountType::Tmpfs);
    assert_eq!(mount.access_mode(), AccessMode::ReadOnly);
    let opts = mount.tmpfs_options().unwrap();
    assert_eq!(opts.size_bytes, Some(5_000_000_000));
    assert_eq!(opts.mode, Some(0o755));
}

#[test]
fn test_tmpfs_options_can_be_overwritten() {
    let mount = Mount::tmpfs_mount("/tmp").with_size("1g").with_size("2g");

    let opts = mount.tmpfs_options().unwrap();
    assert_eq!(opts.size_bytes, Some(2_000_000_000));
}

#[test]
fn parse_size_reports_each_error() {
    assert_eq!(parse_size("  "), Err(SizeParseError::Empty));
    assert_eq!(parse_size("x1k"), Err(SizeParseError::InvalidNumber));
    assert_eq!(parse_size("-5"), Err(SizeParseError::Negative));
    assert_eq!(parse_size("9223372036854775807k"), Err(SizeParseError::Overflow));
}

#[test]
fn parse_size_accepts_i64_max_bytes() {
    assert_eq!(parse_size("9223372036854775807"), Ok(i64::MAX));
    assert_eq!(parse_size("9223372036854775g"), Err(SizeParseError::Overflow));
}

#[test]
fn bind_mount_keeps_paths_and_is_read_write() {
    let mount = Mount::bind_mount("/host", "/container");
    assert_eq!(mount.source(), Some("/host"));
    assert_eq!(mount.target(), Some("/container"));
    assert_eq!(mount.access_mode(), AccessMode::ReadWrite);
    assert_eq!(mount.access_mode().as_str(), "rw");
    assert_eq!(mount.mount_type().as_str(), "bind");
    assert_eq!(Mount::tmpfs_mount("/t").source(), None);
}

#[test]
fn mount_copy_is_equal_view() {
    let mount = Mount::tmpfs_mount("/tmp").with_size_bytes(7).with_mode(0o700);
    let copy = mount.copied();
    assert_eq!(copy.target(), Some("/tmp"));
    assert_eq!(copy.tmpfs_options().unwrap().size_bytes, Some(7));
    assert_eq!(copy.tmpfs_options().unwrap().mode, Some(0o700));
}

#[test]
fn builders_keep_kind_paths_and_access_mode() {
    let m = Mount::bind_mount("/host", "/container")
        .with_size_bytes(5)
        .with_mode(0o700)
        .with_size("1k");
    assert_eq!(m.mount_type(), MountType::Bind);
    assert_eq!(m.source(), Some("/host"));
    assert_eq!(m.target(), Some("/container"));
    assert_eq!(m.access_mode(), AccessMode::ReadWrite);
    let opts = m.tmpfs_options().unwrap();
    assert_eq!(opts.size_bytes, Some(1000));
    assert_eq!(opts.mode, Some(0o700));

    let v = Mount::volume_mount("vol", "/data").with_access_mode(AccessMode::ReadOnly);
    assert_eq!(v.mount_type(), MountType::Volume);
    assert_eq!(v.source(), Some("vol"));
    assert_eq!(v.access_mode(), AccessMode::ReadOnly);
    assert!(v.tmpfs_options().is_none());
}
