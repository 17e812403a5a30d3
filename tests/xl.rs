use xltools::addr::MacAddr;
use xltools::config::XlCfgBuilder;
use xltools::xl::{
    create_args, destroy_args, parse_domid, parse_domname, parse_list, parse_network_list,
    reboot_args, restore_args, save_args, shutdown_args, ParseError, XlDomainState, XlListInfo,
    XlNetworkListEntry, XlShutdownTarget,
};

#[test]
fn list_row_parses() {
    let info = XlListInfo::from_str("agent1 3 2048 2 r----- 12.5").unwrap();
    assert_eq!(info.name, "agent1");
    assert_eq!(info.id, 3);
    assert_eq!(info.mem, 2048);
    assert_eq!(info.vcpus, 2);
    assert_eq!(info.state, vec![XlDomainState::Running]);
    assert_eq!(info.time_tenths, 125);
}

#[test]
fn list_skips_header_and_bad_rows() {
    let out = "Name ID Mem VCPUs State Time(s)\n\
               Domain-0 0 4096 4 r----- 1234.5\n\
               bad1 7 1024 1 -x---- 1.0\n\
               agent1 3 2048 2 -b-p-- 12.5\n";
    let rows = parse_list(out);
    assert_eq!(rows.len(), 2);
    assert_eq!(rows[0].name, "Domain-0");
    assert_eq!(rows[0].time_tenths, 12345);
    assert_eq!(rows[1].name, "agent1");
    assert_eq!(
        rows[1].state,
        vec![XlDomainState::Blocked, XlDomainState::Paused]
    );
}

#[test]
fn list_row_errors() {
    assert_eq!(
        XlListInfo::from_str("a 1 2").unwrap_err(),
        ParseError::MissingField
    );
    assert_eq!(
        XlListInfo::from_str("a x 2 1 r----- 1.0").unwrap_err(),
        ParseError::InvalidNumber
    );
    assert_eq!(
        XlListInfo::from_str("a 1 2 1 q----- 1.0").unwrap_err(),
        ParseError::UnknownState
    );
    assert_eq!(
        XlListInfo::from_str("a 4294967296 2 1 r----- 1.0").unwrap_err(),
        ParseError::InvalidNumber
    );
}

#[test]
fn domain_state_flags() {
    assert_eq!(XlDomainState::from_str("d").unwrap(), XlDomainState::Dying);
    assert_eq!(XlDomainState::from_str("c").unwrap(), XlDomainState::Crashed);
    assert!(XlDomainState::from_str("x").is_err());
    assert!(XlDomainState::from_str("rb").is_err());
}

#[test]
fn network_list_parses() {
    let out = "Idx BE Mac Addr.         handle state evt-ch   tx-/rx-ring-ref BE-path\n\
               0   0  00:16:3e:5a:01:02    0     4     17   768/769     /local/domain/0/backend/vif/3/0\n\
               garbage\n";
    let rows = parse_network_list(out);
    assert_eq!(rows.len(), 1);
    let e = &rows[0];
    assert_eq!(e.idx, 0);
    assert_eq!(e.mac, MacAddr::new([0x00, 0x16, 0x3e, 0x5a, 0x01, 0x02]));
    assert_eq!(e.state, 4);
    assert_eq!(e.evt_ch, 17);
    assert_eq!(e.tx, 768);
    assert_eq!(e.rx, 769);
    assert_eq!(e.be_path, "/local/domain/0/backend/vif/3/0");
    assert!(XlNetworkListEntry::from_str("0 0 zz:16:3e:5a:01:02 0 4 17 768/769 /p").is_err());
    assert!(XlNetworkListEntry::from_str("0 0 00:16:3e:5a:01:02 0 4 17 768 /p").is_err());
}

#[test]
fn domid_and_domname() {
    assert_eq!(parse_domid("  12\n").unwrap(), 12);
    assert!(parse_domid("abc\n").is_err());
    assert!(parse_domid("").is_err());
    assert_eq!(parse_domname("\tagent1 \n"), "agent1");
}

#[test]
fn command_arguments() {
    assert_eq!(destroy_args(7), vec!["destroy", "7"]);
    assert_eq!(reboot_args(3, true), vec!["reboot", "-F", "3"]);
    assert_eq!(reboot_args(3, false), vec!["reboot", "3"]);
    assert_eq!(
        save_args(5, true, false, "/tmp/ck", Some("/tmp/cfg".to_string())),
        vec!["save", "-c", "5", "/tmp/ck", "/tmp/cfg"]
    );
    assert_eq!(
        restore_args(true, "/tmp/ck", None),
        vec!["restore", "-p", "/tmp/ck"]
    );
    assert_eq!(
        shutdown_args(XlShutdownTarget::All, true, false),
        vec!["shutdown", "-w", "-a"]
    );
    assert_eq!(
        shutdown_args(XlShutdownTarget::DomId(9), false, true),
        vec!["shutdown", "-F", "9"]
    );
    let cfg = XlCfgBuilder::default()
        .name("agent".to_string())
        .build()
        .unwrap();
    assert_eq!(
        create_args("/tmp/empty.cfg", &cfg),
        vec!["create", "/tmp/empty.cfg", r#"name = "agent"; type = "hvm""#]
    );
}

#[test]
fn numbers_with_plus_sign() {
    let info = XlListInfo::from_str("agent1 +3 +2048 +2 r----- +12.53").unwrap();
    assert_eq!(info.id, 3);
    assert_eq!(info.mem, 2048);
    assert_eq!(info.vcpus, 2);
    assert_eq!(info.time_tenths, 125);
    assert_eq!(parse_domid("+5\n").unwrap(), 5);
    assert!(parse_domid("++5").is_err());
    assert!(parse_domid("-5").is_err());
    let e = XlNetworkListEntry::from_str("+0 -1 00:16:3e:5a:01:02 0 4 17 +768/-769 /p").unwrap();
    assert_eq!(e.idx, 0);
    assert_eq!(e.be, -1);
    assert_eq!(e.tx, 768);
    assert_eq!(e.rx, -769);
}

#[test]
fn times_with_many_decimals_are_truncated() {
    assert_eq!(XlListInfo::from_str("a 1 2 1 r----- 12.59").unwrap().time_tenths, 125);
    assert_eq!(XlListInfo::from_str("a 1 2 1 r----- 12.").unwrap().time_tenths, 120);
    assert_eq!(XlListInfo::from_str("a 1 2 1 r----- 7").unwrap().time_tenths, 70);
    assert!(XlListInfo::from_str("a 1 2 1 r----- 1.2.3").is_err());
    assert!(XlListInfo::from_str("a 1 2 1 r----- .5").is_err());
}
