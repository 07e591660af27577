//! Parsing of captured host command output.

use neptis::errors::NeptisError;
use neptis::hostinfo::{get_img_block_size, get_system_info, parse_usize, raw_mnt_check};

#[test]
fn df_output_parses_into_byte_counts() {
    let out = "Filesystem        1B-blocks         Used    Available Use% Mounted on\n\
               /dev/nvme0n1p5 433992540160 255224807424 156646924288  62% /";
    let st = get_system_info("/", out).unwrap();
    assert_eq!(st.path, "/");
    assert_eq!(st.b_total, 433992540160);
    assert_eq!(st.b_used, 255224807424);
    assert_eq!(st.b_avail, 156646924288);
}

#[test]
fn df_parsing_fails_on_malformed_output() {
    assert!(matches!(
        get_system_info("/", "just one line"),
        Err(NeptisError::InternalError(_))
    ));
    assert!(get_system_info("/", "header\n/dev/sda1 a b c").is_err());
    assert!(get_system_info("", "header\n/dev/sda1 1 2 3").is_err());
}

#[test]
fn block_size_reads_the_labelled_number() {
    assert_eq!(get_img_block_size("Block size:               4096").unwrap(), 4096);
    assert!(get_img_block_size("Fragment size: 4096").is_err());
    assert!(get_img_block_size("Block size:  many").is_err());
}

#[test]
fn decimal_parsing_is_exact_and_bounded() {
    assert_eq!(parse_usize("0"), Some(0));
    assert_eq!(parse_usize("100000000"), Some(100_000_000));
    assert_eq!(parse_usize(""), None);
    assert_eq!(parse_usize("12a"), None);
    assert_eq!(parse_usize("999999999999999999999999999999"), None);
}

#[test]
fn mount_table_matching_needs_the_exact_pattern() {
    let table = "/dev/sda1 on / type ext4 (rw)\n\
                 /srv/v.img on /mnt/v type ext4 (rw,sync)\n\
                 tmpfs on /tmp type tmpfs (rw)";
    assert!(raw_mnt_check(table, "/srv/v.img", "/mnt/v"));
    assert!(!raw_mnt_check(table, "/srv/v.img", "/mnt/other"));
    assert!(!raw_mnt_check(table, "/dev/sda1", "/tmp"));
    assert!(!raw_mnt_check("", "/srv/v.img", "/mnt/v"));
}
