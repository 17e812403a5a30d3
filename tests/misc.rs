use xltools::deb::DebControl;
use xltools::package::xen_version;
use xltools::presets::{gigabytes_to_bytes, windows_dev_cfg};
use xltools::session::CommandResult;
use xltools::xl::{check_command, XlError};

#[test]
fn deb_control_text() {
    let c = DebControl::new(
        "kfx".to_string(),
        "kfx".to_string(),
        "1.0".to_string(),
        "amd64".to_string(),
        "Dev <dev@example.com>".to_string(),
        vec!["libc6".to_string(), "xen".to_string()],
        vec![],
        "admin".to_string(),
        "optional".to_string(),
        2048,
        "Fuzzer".to_string(),
    );
    assert_eq!(
        c.to_string(),
        "Package: kfx\nSource: kfx\nVersion: 1.0\nArchitecture: amd64\nMaintainer: Dev <dev@example.com>\nDepends: libc6, xen\nConflicts: \nSection: admin\nPriority: optional\nInstalled-Size: 2048\nDescription: Fuzzer\n"
    );
}

#[test]
fn command_result_text() {
    let r = CommandResult::new(vec![b'o', b'k', 0xff], Some(0));
    assert_eq!(r.output(), "ok\u{fffd}");
    assert!(r.success());
    assert!(!CommandResult::new(vec![], Some(2)).success());
    assert!(!CommandResult::new(vec![], None).success());
}

#[test]
fn deb_control_from_contents() {
    let text = "Package: kfx\nVersion: 1.0\nDepends: libc6 ,  xen\nInstalled-Size: 2048\nX-Other: y\nVersion: 1.1\nDescription: Fuzzer\n";
    let c = DebControl::from_contents(text).unwrap();
    assert_eq!(c.package, "kfx");
    assert_eq!(c.version, "1.1");
    assert_eq!(c.depends, vec!["libc6".to_string(), "xen".to_string()]);
    assert!(c.conflicts.is_empty());
    assert_eq!(c.installed_size, 2048);
    assert_eq!(c.description, "Fuzzer");
    assert_eq!(c.source, "");
    assert!(DebControl::from_contents("Installed-Size: big\n").is_err());
    assert_eq!(
        DebControl::from_contents("Installed-Size: +12\n").unwrap().installed_size,
        12
    );
}

#[test]
fn deb_control_round_trip_fields() {
    let c = DebControl::new(
        "p".to_string(),
        "s".to_string(),
        "2".to_string(),
        "all".to_string(),
        "m".to_string(),
        vec!["a".to_string()],
        vec!["b".to_string(), "c".to_string()],
        "misc".to_string(),
        "extra".to_string(),
        7,
        "d".to_string(),
    );
    let back = DebControl::from_contents(&c.to_string()).unwrap();
    assert_eq!(back.to_string(), c.to_string());
}

#[test]
fn hypervisor_version_from_boot_files() {
    let names = vec![
        "config-6.1".to_string(),
        "xen-4.17.gz".to_string(),
        "xen-4.16.gz".to_string(),
    ];
    assert_eq!(xen_version(&names), Some("4.17".to_string()));
    assert_eq!(xen_version(&vec!["xen.gz".to_string()]), None);
}

#[test]
fn image_size() {
    assert_eq!(gigabytes_to_bytes(40), 42_949_672_960);
}

#[test]
fn windows_dev_preset() {
    let running = vec!["windev2".to_string()];
    let cfg = windows_dev_cfg(
        &running,
        "/isos/auto.iso".to_string(),
        "/imgs/win.img".to_string(),
        5901,
    )
    .unwrap();
    assert_eq!(
        cfg.to_string(),
        r#"disk = ["format=raw,vdev=hdc,access=rw,devtype=cdrom,target=/isos/auto.iso","format=raw,vdev=xvda,access=rw,target=/imgs/win.img"]; memory = 4096; name = "windev3"; serial = "pty"; type = "hvm"; vcpus = 2; vga = "stdvga"; videoram = 32; vif = ["bridge=xenbr0"]; vnc = 1; vnclisten = "0.0.0.0:5901""#
    );
    assert!(windows_dev_cfg(&running, String::new(), "/i".to_string(), 5900).is_err());
}

#[test]
fn failed_command_keeps_output_lines() {
    let ok = check_command(true, b"out".to_vec(), vec![]).unwrap();
    assert_eq!(ok, b"out".to_vec());
    match check_command(false, b"a\nb\n".to_vec(), b"bad \xff\n".to_vec()) {
        Err(XlError::Execution { stdout, stderr }) => {
            assert_eq!(stdout, vec!["a".to_string(), "b".to_string()]);
            assert_eq!(stderr, vec!["bad \u{fffd}".to_string()]);
        }
        _ => panic!("expected an execution error"),
    }
}
