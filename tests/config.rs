use xltools::addr::{Ipv4Addr, MacAddr};
use xltools::config::{
    ConfigError, EventAction, XlCfgBuilder, XlDiskAccess, XlDiskCfgBuilder, XlDiskFormat,
    XlDiskVdev, XlGuestType, XlMacAddr6, XlNetCfgBuilder, XlRemoteHost, XlSerialDev, XlTcpConn,
    XlUdpConn, XlUnixConn, XlVgaDev, XlVifModel,
};

#[test]
fn test_basic() {
    let cfg = XlCfgBuilder::default()
        .name("agent".to_string())
        .type_(XlGuestType::HVM)
        .build()
        .unwrap();

    assert_eq!(
        cfg.to_string(),
        r#"name = "agent"; type = "hvm""#.to_string()
    );
}

#[test]
fn test_win_agent() {
    let img = XlDiskCfgBuilder::default()
        .target("/test/tmp/disk1.img".to_string())
        .format(XlDiskFormat::Raw)
        .vdev(XlDiskVdev::Xvd("a".to_string()))
        .access(XlDiskAccess::RW)
        .build()
        .unwrap();

    let cd = XlDiskCfgBuilder::default()
        .target("/test/tmp/disk2.iso".to_string())
        .format(XlDiskFormat::Raw)
        .cdrom(true)
        .vdev(XlDiskVdev::Hd("c".to_string()))
        .build()
        .unwrap();

    let cfg = XlCfgBuilder::default()
        .name("agent".to_string())
        .type_(XlGuestType::HVM)
        .memory(4096)
        .vcpus(1)
        .usbdevice(vec!["tablet".to_string()])
        .vga(XlVgaDev::StdVga)
        .videoram(32u32)
        .serial(XlSerialDev::Pty)
        .vif(vec![XlNetCfgBuilder::default()
            .bridge("xenbr0".to_string())
            .build()
            .unwrap()])
        .disk(vec![img, cd])
        .vnc(true)
        .vnclisten((Ipv4Addr::new(0, 0, 0, 0), 3))
        .build()
        .unwrap();

    assert_eq!(
        cfg.to_string(),
        r#"disk = ["format=raw,vdev=xvda,access=rw,target=/test/tmp/disk1.img","format=raw,vdev=hdc,access=rw,devtype=cdrom,target=/test/tmp/disk2.iso"]; memory = 4096; name = "agent"; serial = "pty"; type = "hvm"; usbdevice = ["tablet"]; vcpus = 1; vga = "stdvga"; videoram = 32; vif = ["bridge=xenbr0"]; vnc = 1; vnclisten = "0.0.0.0:3""#.to_string()
    );
}

#[test]
fn render_twice_is_identical_and_ordered() {
    let a = XlCfgBuilder::default()
        .vcpus(2)
        .name("vm".to_string())
        .pool("Pool-0".to_string())
        .cap(-1)
        .build()
        .unwrap();
    let b = XlCfgBuilder::default()
        .cap(-1)
        .pool("Pool-0".to_string())
        .name("vm".to_string())
        .vcpus(2)
        .build()
        .unwrap();
    assert_eq!(a.to_string(), a.to_string());
    assert_eq!(a.to_string(), b.to_string());
    assert_eq!(
        a.to_string(),
        r#"cap = -1; name = "vm"; pool = "Pool-0"; type = "hvm"; vcpus = 2"#
    );
}

#[test]
fn disk_sub_grammar_and_single_element_list() {
    let d = XlDiskCfgBuilder::default()
        .target("/tmp/disk1.img".to_string())
        .format(XlDiskFormat::Raw)
        .vdev(XlDiskVdev::Xvd("a".to_string()))
        .access(XlDiskAccess::RW)
        .build()
        .unwrap();
    assert_eq!(d.to_string(), "format=raw,vdev=xvda,access=rw,target=/tmp/disk1.img");
    let cfg = XlCfgBuilder::default()
        .name("d".to_string())
        .disk(vec![d])
        .build()
        .unwrap();
    assert_eq!(
        cfg.to_string(),
        r#"disk = ["format=raw,vdev=xvda,access=rw,target=/tmp/disk1.img"]; name = "d"; type = "hvm""#
    );
}

#[test]
fn disk_defaults_and_script() {
    let d = XlDiskCfgBuilder::default()
        .target("/img.qcow2".to_string())
        .format(XlDiskFormat::Qcow2)
        .access(XlDiskAccess::RO)
        .script("block-iscsi".to_string())
        .build()
        .unwrap();
    assert_eq!(
        d.to_string(),
        "format=qcow2,vdev=xvda,access=ro,script=block-iscsi,target=/img.qcow2"
    );
}

#[test]
fn disk_without_target_is_refused() {
    let r = XlDiskCfgBuilder::default().build();
    assert!(matches!(r, Err(ConfigError::MissingRequiredField(_))));
}

#[test]
fn empty_name_is_refused() {
    let r = XlCfgBuilder::default().name(String::new()).build();
    assert_eq!(
        r.unwrap_err(),
        ConfigError::MissingRequiredField("name".to_string())
    );
    let r = XlCfgBuilder::default().memory(1).build();
    assert!(r.is_err());
}

#[test]
fn net_keys_are_alphabetical() {
    let n = XlNetCfgBuilder::default()
        .vifname("vif-a".to_string())
        .mac(XlMacAddr6(MacAddr::new([0x00, 0x16, 0x3e, 0x0a, 0xbc, 0x01])))
        .bridge("xenbr0".to_string())
        .model(XlVifModel::E1000)
        .ip(Ipv4Addr::new(10, 0, 0, 2))
        .build()
        .unwrap();
    assert_eq!(
        n.to_string(),
        "bridge=xenbr0,ip=10.0.0.2,mac=00:16:3E:0A:BC:01,model=e1000,vifname=vif-a"
    );
}

#[test]
fn event_actions_and_strings_are_quoted() {
    let cfg = XlCfgBuilder::default()
        .name("a\"b".to_string())
        .type_(XlGuestType::PVH)
        .on_crash(EventAction::CoredumpRestart)
        .on_reboot(EventAction::RenameRestart)
        .kernel("/boot/vmlinuz".to_string())
        .build()
        .unwrap();
    assert_eq!(
        cfg.to_string(),
        r#"kernel = "/boot/vmlinuz"; name = "a\"b"; on_crash = "coredump-restart"; on_reboot = "rename-restart"; type = "pvh""#
    );
}

#[test]
fn vnuma_and_vnc_off() {
    let cfg = XlCfgBuilder::default()
        .name("n".to_string())
        .vnc(false)
        .vnuma(vec![
            vec!["pnode=0".to_string(), "size=512".to_string()],
            vec!["pnode=1".to_string()],
        ])
        .build()
        .unwrap();
    assert_eq!(
        cfg.to_string(),
        r#"name = "n"; type = "hvm"; vnc = 0; vnuma = [["pnode=0","size=512"],["pnode=1"]]"#
    );
}

#[test]
fn serial_backends() {
    assert_eq!(XlSerialDev::Vc(Some((80, 25))).to_string(), "vc:80:25");
    assert_eq!(XlSerialDev::Vc(None).to_string(), "vc");
    assert_eq!(XlSerialDev::Disabled.to_string(), "none");
    assert_eq!(XlSerialDev::Com(1).to_string(), "com:1");
    let udp = XlUdpConn {
        remote_host: Some(XlRemoteHost::Hostname("log.example".to_string())),
        remote_port: 4555,
        src_ip: None,
        src_port: Some(4556),
    };
    assert_eq!(XlSerialDev::Udp(udp).to_string(), "udp:log.example:4555@:4556");
    let tcp = XlTcpConn {
        remote_host: Some(XlRemoteHost::Ip(Ipv4Addr::new(127, 0, 0, 1))),
        remote_port: 4444,
        server: true,
        wait: false,
        nodelay: true,
        reconnect: Some(5),
    };
    assert_eq!(
        XlSerialDev::Tcp(tcp).to_string(),
        "tcp:127.0.0.1:4444,server=on,nodelay=on,reconnect=5"
    );
    let unix = XlUnixConn {
        path: "/run/serial.sock".to_string(),
        server: true,
        wait: true,
        reconnect: None,
    };
    assert_eq!(
        XlSerialDev::Unix(unix).to_string(),
        "unix:/run/serial.sock,server=on,wait=on"
    );
}

#[test]
fn enum_tokens() {
    assert_eq!(XlGuestType::PV.to_string(), "pv");
    assert_eq!(EventAction::SoftReset.to_string(), "soft-reset");
    assert_eq!(XlDiskFormat::Vhd.to_string(), "vhd");
    assert_eq!(XlVgaDev::Disabled.to_string(), "none");
    assert_eq!(XlDiskVdev::Sd("b".to_string()).to_string(), "sdb");
    assert_eq!(XlDiskVdev::default().to_string(), "xvda");
}

#[test]
fn control_characters_are_escaped() {
    let cfg = XlCfgBuilder::default()
        .name("a\tb\\c\u{1}".to_string())
        .build()
        .unwrap();
    assert_eq!(
        cfg.to_string(),
        r#"name = "a\tb\\c\u0001"; type = "hvm""#
    );
}
