use cargo_vita::coredump::{file_deleted, find_core_dumps, latest, line_last_word, Parse};
use cargo_vita::logs::{Logs, PrincessLogConfig};
use cargo_vita::upload::ConnectionArgs;

#[test]
fn log_config_bytes() {
    let c = PrincessLogConfig::new([192, 168, 1, 10], 8888, true);
    assert_eq!(
        c.serialize(),
        vec![b'N', b'L', b'M', 0, 192, 168, 1, 10, 1, 0, 0, 0, 0xb8, 0x22, 0, 0]
    );
    let d = PrincessLogConfig::new([10, 0, 0, 1], 1, false).serialize();
    assert_eq!(&d[8..14], &[0, 0, 0, 0, 1, 0]);
}

#[test]
fn log_config_round_trip() {
    let c = PrincessLogConfig::new([192, 168, 1, 10], 8888, true);
    let back = PrincessLogConfig::parse(&c.serialize()).unwrap();
    assert!(back.has_valid_magic());
    assert_eq!(back.ip, [192, 168, 1, 10]);
    assert_eq!(back.port, 8888);
    assert!(back.kernel_debug);
}

#[test]
fn log_config_short_or_foreign() {
    assert!(PrincessLogConfig::parse(&vec![b'N', b'L', b'M', 0, 1, 2, 3]).is_err());
    let other = PrincessLogConfig::parse(&vec![0u8; 14]).unwrap();
    assert!(!other.has_valid_magic());
    assert!(!other.kernel_debug);
    assert_eq!(Logs::config_path(), "ur0:/data/NetLoggingMgrConfig.bin");
}

#[test]
fn coredumps_in_listing() {
    let listing = vec![
        "-rw-rw-rw- 1 root root 1024 Jan 1 00:00 psp2core-1700000000-0x0000001234-eboot.bin.psp2dmp"
            .to_string(),
        "drwxrwxrwx 1 root root 0 Jan 1 00:00 sce_sys".to_string(),
        "-rw-rw-rw- 1 root root 1 Jan 1 00:00 psp2core-1800000000-0x0000001234-eboot.bin.psp2dmp"
            .to_string(),
        "-rw-rw-rw- 1 root root 1 Jan 1 00:00 psp2core-broken.bin".to_string(),
    ];
    let dumps = find_core_dumps(&listing);
    assert_eq!(
        dumps,
        vec![
            "psp2core-1700000000-0x0000001234-eboot.bin.psp2dmp",
            "psp2core-1800000000-0x0000001234-eboot.bin.psp2dmp",
        ]
    );
    assert_eq!(latest(&dumps).unwrap(), "psp2core-1800000000-0x0000001234-eboot.bin.psp2dmp");
    assert!(latest(&vec![]).is_none());
    assert_eq!(line_last_word("no-spaces"), "no-spaces");
    assert_eq!(line_last_word("ends with "), "");
}

#[test]
fn deleted_file_answer() {
    assert!(file_deleted("226 File deleted"));
    assert!(file_deleted("xx 226 File deleted.\r\n"));
    assert!(!file_deleted("550 No such file"));
}

#[test]
fn coredump_elf_guess() {
    let conn = ConnectionArgs { vita_ip: "1.2.3.4".to_string(), ftp_port: 1, cmd_port: 2 };
    let p = Parse { elf: None, profile: "debug".to_string(), persist: false, connection: conn.clone() };
    assert_eq!(p.elf_for("/w/target", "hello"), "/w/target/armv7-sony-vita-newlibeabihf/debug/hello.elf");
    let q = Parse { elf: Some("/x.elf".to_string()), profile: "debug".to_string(), persist: true, connection: conn };
    assert_eq!(q.elf_for("/w/target", "hello"), "/x.elf");
}
