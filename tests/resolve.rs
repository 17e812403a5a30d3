use xltools::addr::{Ipv4Addr, MacAddr};
use xltools::allocate::{new_domnaname, probe_step, PortProbe, DEFAULT_VNC_PORT};
use xltools::neighbor::{parse_neighbor, parse_neighbors, select_ip, Backoff, IPSearchCodec, ResolveStep};

#[test]
fn unique_name_follows_largest_suffix() {
    let running = vec![
        "agent1".to_string(),
        "agent3".to_string(),
        "other7".to_string(),
    ];
    assert_eq!(new_domnaname("agent", &running), "agent4");
    assert_eq!(new_domnaname("agent", &vec!["other7".to_string()]), "agent1");
    assert_eq!(
        new_domnaname("agent", &vec!["agentx".to_string(), "agent".to_string()]),
        "agent1"
    );
    assert_eq!(new_domnaname("a", &vec!["a+5".to_string()]), "a6");
    assert_eq!(new_domnaname("a", &vec!["aa5".to_string()]), "a1");
}

#[test]
fn port_probe_steps() {
    assert_eq!(probe_step(DEFAULT_VNC_PORT, true), PortProbe::Found(5900));
    assert_eq!(probe_step(5900, false), PortProbe::Next(5901));
    assert_eq!(probe_step(65535, false), PortProbe::Exhausted);
}

#[test]
fn neighbor_rows() {
    let n = parse_neighbor("192.168.1.20 dev xenbr0 lladdr 00:16:3e:00:00:01 REACHABLE").unwrap();
    assert_eq!(n.ip, Ipv4Addr::new(192, 168, 1, 20));
    assert_eq!(n.dev, "xenbr0");
    assert_eq!(n.lladdr, Some(MacAddr::new([0, 0x16, 0x3e, 0, 0, 1])));
    assert_eq!(n.state, "REACHABLE");
    let f = parse_neighbor("10.0.0.9 dev eth0 FAILED").unwrap();
    assert_eq!(f.lladdr, None);
    assert!(parse_neighbor("10.0.0.300 dev eth0 FAILED").is_none());
    let all = parse_neighbors("10.0.0.9 dev eth0 FAILED\n\nnonsense\n10.0.0.8 dev eth0 STALE\n");
    assert_eq!(all.len(), 2);
}

#[test]
fn lowest_matching_address_wins() {
    let table = "10.0.0.9 dev xenbr0 lladdr 00:16:3e:00:00:01 STALE\n\
                 10.0.0.3 dev xenbr0 lladdr 00:16:3e:00:00:01 REACHABLE\n\
                 10.0.0.1 dev xenbr0 lladdr 00:16:3e:00:00:02 REACHABLE\n\
                 10.0.0.2 dev xenbr0 FAILED\n";
    let ns = parse_neighbors(table);
    let macs = vec![MacAddr::new([0, 0x16, 0x3e, 0, 0, 1])];
    assert_eq!(select_ip(&ns, &macs), Some(Ipv4Addr::new(10, 0, 0, 3)));
    let none = vec![MacAddr::new([0, 0x16, 0x3e, 0, 0, 9])];
    assert_eq!(select_ip(&ns, &none), None);
}

#[test]
fn backoff_doubles_until_timeout() {
    let mut b = Backoff::new();
    let mut elapsed: u64 = 0;
    let mut last: u64 = 0;
    let timeout: u64 = 10_000;
    loop {
        match b.step(None, elapsed, timeout) {
            ResolveStep::Sleep(ms) => {
                last = ms;
                elapsed += ms;
            }
            ResolveStep::TimedOut { elapsed_ms } => {
                assert_eq!(elapsed_ms, 15_000);
                assert!(elapsed_ms >= timeout && elapsed_ms < timeout + last);
                break;
            }
            ResolveStep::Found(_) => panic!("nothing to find"),
        }
    }
    assert_eq!(last, 8_000);
    let a = Ipv4Addr::new(1, 2, 3, 4);
    assert!(matches!(b.step(Some(a), 0, 1), ResolveStep::Found(x) if x == a));
}

#[test]
fn frame_match_prefers_source() {
    let m = MacAddr::new([1, 2, 3, 4, 5, 6]);
    let o = MacAddr::new([9, 9, 9, 9, 9, 9]);
    let s = Ipv4Addr::new(10, 0, 0, 1);
    let d = Ipv4Addr::new(10, 0, 0, 2);
    assert_eq!(IPSearchCodec::match_frame(&m, (m, s), (o, d)), Some(s));
    assert_eq!(IPSearchCodec::match_frame(&m, (o, s), (m, d)), Some(d));
    assert_eq!(IPSearchCodec::match_frame(&m, (o, s), (o, d)), None);
}

#[test]
fn mac_text_round_trip() {
    let m = MacAddr::parse("ab-0d-ef-12-34-56").unwrap();
    assert_eq!(m.to_string(), "AB:0D:EF:12:34:56");
    assert!(MacAddr::parse("ab:0d:ef:12:34").is_none());
    assert_eq!(Ipv4Addr::parse("192.168.0.1").unwrap().to_string(), "192.168.0.1");
    assert!(Ipv4Addr::parse("1.2.3").is_none());
    assert!(Ipv4Addr::parse("1.2.3.4.").is_none());
    assert!(Ipv4Addr::parse("1.2.03.4").is_none());
    assert!(Ipv4Addr::parse("+1.2.3.4").is_none());
    assert!(Ipv4Addr::parse("1..3.4").is_none());
    assert_eq!(Ipv4Addr::parse("10.0.0.0").unwrap(), Ipv4Addr::new(10, 0, 0, 0));
}

fn frame(src: [u8; 6], sip: [u8; 4], dst: [u8; 6], dip: [u8; 4]) -> Vec<u8> {
    let mut f = Vec::new();
    f.extend_from_slice(&dst);
    f.extend_from_slice(&src);
    f.extend_from_slice(&[0x08, 0x00]);
    f.extend_from_slice(&[0x45, 0, 0, 20, 0, 0, 0, 0, 64, 253, 0, 0]);
    f.extend_from_slice(&sip);
    f.extend_from_slice(&dip);
    f
}

#[test]
fn captured_frame_search() {
    let codec = IPSearchCodec;
    let guest = [0, 0x16, 0x3e, 0, 0, 7];
    let host = [0, 0x16, 0x3e, 0, 0, 1];
    let out = frame(guest, [10, 0, 0, 7], host, [10, 0, 0, 1]);
    let back = frame(host, [10, 0, 0, 1], guest, [10, 0, 0, 7]);
    let g = MacAddr::new(guest);
    assert_eq!(codec.search(&g, &out), Some(Ipv4Addr::new(10, 0, 0, 7)));
    assert_eq!(codec.search(&g, &back), Some(Ipv4Addr::new(10, 0, 0, 7)));
    assert_eq!(codec.search(&MacAddr::new([1; 6]), &out), None);
    assert_eq!(codec.search(&g, &out[..10]), None);
    let (s, d) = codec.decode(&out).unwrap();
    assert_eq!(s.0, g);
    assert_eq!(d.1, Ipv4Addr::new(10, 0, 0, 1));
}
