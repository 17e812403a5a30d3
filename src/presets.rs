//! Ready-made machine configurations.
use vstd::prelude::*;
use vstd::string::StringExecFns;

use crate::addr::Ipv4Addr;
use crate::allocate::{max_suffix, new_domnaname};
use crate::config::{
    ConfigError, XlCfg, XlCfgBuilder, XlDiskCfg, XlDiskCfgBuilder, XlDiskFormat, XlDiskVdev,
    XlGuestType, XlNetCfgBuilder, XlSerialDev, XlVgaDev,
};
use crate::text::{dec, views};

verus! {

/// Name prefix of Windows development machines.
pub const WINDEV_VMNAME: &'static str = "windev";

/// Whether `d` is a raw read-write disk at `target` seen as `vdev`, a cdrom or not.
pub open spec fn is_raw_disk(
    d: XlDiskCfg,
    target: Seq<char>,
    vdev: Seq<char>,
    cdrom: bool,
) -> bool {
    &&& d.target@ == target
    &&& d.format == XlDiskFormat::Raw
    &&& d.vdev.text() == vdev
    &&& d.access == crate::config::XlDiskAccess::RW
    &&& d.cdrom == cdrom
    &&& d.script is None
}

/// The Windows development machine: HVM, 4096 MB, two vCPUs, standard VGA with 32 MB,
/// serial on a pty, one interface on `xenbr0`, the install image as cdrom `hdc` and the
/// system disk as `xvda`, and a VNC display on all addresses at `vnc_port`.
pub open spec fn is_windows_dev(
    c: XlCfg,
    name: Seq<char>,
    iso: Seq<char>,
    img: Seq<char>,
    vnc_port: u16,
) -> bool {
    &&& c.name@ == name
    &&& c.type_ == XlGuestType::HVM
    &&& c.memory == Some(4096i64)
    &&& c.vcpus == Some(2i64)
    &&& c.vga == Some(XlVgaDev::StdVga)
    &&& c.videoram == Some(32u32)
    &&& c.serial matches Some(XlSerialDev::Pty)
    &&& c.vif@.len() == 1
    &&& c.vif@[0].bridge matches Some(b) && b@ == "xenbr0"@
    &&& c.vif@[0].mac is None && c.vif@[0].gatewaydev is None && c.vif@[0].type_ is None
    &&& c.vif@[0].model is None && c.vif@[0].vifname is None && c.vif@[0].script is None
    &&& c.vif@[0].ip is None
    &&& c.disk@.len() == 2
    &&& is_raw_disk(c.disk@[0], iso, "hdc"@, true)
    &&& is_raw_disk(c.disk@[1], img, "xvda"@, false)
    &&& c.vnc == Some(true)
    &&& c.vnclisten matches Some((a, p)) && a.octets@ == seq![0u8, 0, 0, 0] && p == vnc_port
    &&& c.pool is None && c.maxvcpus is None && c.cpus is None && c.cpus_soft is None
    &&& c.cpu_weight is None && c.cap is None && c.maxmem is None && c.vnuma is None
    &&& c.on_poweroff is None && c.on_reboot is None && c.on_watchdog is None
    &&& c.on_crash is None && c.on_soft_reset is None
    &&& c.kernel is None && c.ramdisk is None && c.cmdline is None && c.root is None
    &&& c.extra is None && c.usbdevice@.len() == 0
}

/// A Windows development machine named after the running domains (see `new_domnaname`),
/// booting the install image `auto_iso` beside the system disk `img`. Fails when either
/// path is empty.
pub fn windows_dev_cfg(
    running: &Vec<String>,
    auto_iso: String,
    img: String,
    vnc_port: u16,
) -> (r: Result<XlCfg, ConfigError>)
    ensures
        auto_iso@.len() > 0 && img@.len() > 0 ==> (r matches Ok(c) && is_windows_dev(
            c,
            "windev"@ + dec(max_suffix(views(running@), "windev"@) + 1),
            auto_iso@,
            img@,
            vnc_port,
        )),
        !(auto_iso@.len() > 0 && img@.len() > 0) ==> (r matches Err(
            ConfigError::MissingRequiredField(f),
        ) && f@ == "target"@),
{
    proof {
        reveal_strlit("windev");
        reveal_strlit("c");
        reveal_strlit("a");
        reveal_strlit("hdc");
        reveal_strlit("xvda");
        reveal_strlit("hd");
        reveal_strlit("xvd");
    }
    let name = new_domnaname(WINDEV_VMNAME, running);
    let cd = XlDiskCfgBuilder::default()
        .target(auto_iso)
        .format(XlDiskFormat::Raw)
        .cdrom(true)
        .vdev(XlDiskVdev::Hd(String::from_str("c")))
        .build();
    let cd = match cd {
        Ok(d) => d,
        Err(e) => {
            return Err(e);
        },
    };
    assert(cd.vdev.text() =~= "hdc"@);
    let sys = XlDiskCfgBuilder::default()
        .target(img)
        .format(XlDiskFormat::Raw)
        .vdev(XlDiskVdev::Xvd(String::from_str("a")))
        .build();
    let sys = match sys {
        Ok(d) => d,
        Err(e) => {
            return Err(e);
        },
    };
    assert(sys.vdev.text() =~= "xvda"@);
    let vif = XlNetCfgBuilder::default().bridge(String::from_str("xenbr0")).build();
    let vif = match vif {
        Ok(v) => v,
        Err(e) => {
            return Err(e);
        },
    };
    let ghost gvif = vif;
    let ghost gcd = cd;
    let ghost gsys = sys;
    let r = XlCfgBuilder::default()
        .name(name)
        .type_(XlGuestType::HVM)
        .memory(4096)
        .vcpus(2)
        .vga(XlVgaDev::StdVga)
        .videoram(32)
        .serial(XlSerialDev::Pty)
        .vif(vec![vif])
        .disk(vec![cd, sys])
        .vnc(true)
        .vnclisten((Ipv4Addr::new(0, 0, 0, 0), vnc_port))
        .build();
    assert(r matches Ok(c) ==> (c.vif@[0] == gvif && c.disk@[0] == gcd && c.disk@[1] == gsys));
    r
}

/// Bytes in `gb` gibibytes.
pub fn gigabytes_to_bytes(gb: u64) -> (r: u64)
    requires
        gb * 1073741824 <= u64::MAX,
    ensures
        r == gb * 1073741824,
{
    gb * 1024 * 1024 * 1024
}

} // verus!
