//! The `xl.cfg` data model and its renderer.
use vstd::prelude::*;
use vstd::string::StringExecFns;

use crate::addr::{Ipv4Addr, MacAddr};
use crate::order::{keys_sorted, lemma_push_sorted, lex_lt, sorted_up_to};
use crate::text::{
    Entries,
    int_text, push_int,
    dec, join, json_array, json_str, kv_join, opt_push, opt_view, push_chars, push_dec,
    push_json, push_json_array, push_opt, push_str, string_of, views, chars_of,
};

verus! {

/// The virtualization mode a guest boots under.
#[derive(Clone, Copy, Debug, PartialEq, Eq, Structural)]
pub enum XlGuestType {
    /// Paravirtualized guest aware of the Xen host.
    PV,
    /// Paravirtualized guest using hardware assistance, without most emulated devices.
    PVH,
    /// Fully hardware-virtualized guest with emulated firmware and devices.
    HVM,
}

impl XlGuestType {
    /// The token that stands for this value in the configuration grammar.
    pub open spec fn text(self) -> Seq<char> {
        match self {
            XlGuestType::PV => "pv"@,
            XlGuestType::PVH => "pvh"@,
            XlGuestType::HVM => "hvm"@,
        }
    }

    /// The grammar token of this value.
    pub fn token(&self) -> (r: &'static str)
        ensures
            r@ == self.text(),
    {
        match self {
            XlGuestType::PV => "pv",
            XlGuestType::PVH => "pvh",
            XlGuestType::HVM => "hvm",
        }
    }

    /// Renders the grammar token.
    pub fn to_string(&self) -> (r: String)
        ensures
            r@ == self.text(),
    {
        String::from_str(self.token())
    }
}

/// Action the hypervisor takes when a guest powers off, reboots, crashes or similar.
#[derive(Clone, Copy, Debug, PartialEq, Eq, Structural)]
pub enum EventAction {
    Destroy,
    Restart,
    RenameRestart,
    Preserve,
    CoredumpDestroy,
    CoredumpRestart,
    SoftReset,
}

impl EventAction {
    /// The token that stands for this value in the configuration grammar.
    pub open spec fn text(self) -> Seq<char> {
        match self {
            EventAction::Destroy => "destroy"@,
            EventAction::Restart => "restart"@,
            EventAction::RenameRestart => "rename-restart"@,
            EventAction::Preserve => "preserve"@,
            EventAction::CoredumpDestroy => "coredump-destroy"@,
            EventAction::CoredumpRestart => "coredump-restart"@,
            EventAction::SoftReset => "soft-reset"@,
        }
    }

    /// The grammar token of this value.
    pub fn token(&self) -> (r: &'static str)
        ensures
            r@ == self.text(),
    {
        match self {
            EventAction::Destroy => "destroy",
            EventAction::Restart => "restart",
            EventAction::RenameRestart => "rename-restart",
            EventAction::Preserve => "preserve",
            EventAction::CoredumpDestroy => "coredump-destroy",
            EventAction::CoredumpRestart => "coredump-restart",
            EventAction::SoftReset => "soft-reset",
        }
    }

    /// Renders the grammar token.
    pub fn to_string(&self) -> (r: String)
        ensures
            r@ == self.text(),
    {
        String::from_str(self.token())
    }
}

/// Firmware for paravirtualized guests.
#[derive(Clone, Copy, Debug, PartialEq, Eq, Structural)]
pub enum PvFirmware {
    PvGrub32,
    PvGrub64,
}

impl PvFirmware {
    /// The token that stands for this value in the configuration grammar.
    pub open spec fn text(self) -> Seq<char> {
        match self {
            PvFirmware::PvGrub32 => "pvgrub32"@,
            PvFirmware::PvGrub64 => "pvgrub64"@,
        }
    }

    /// The grammar token of this value.
    pub fn token(&self) -> (r: &'static str)
        ensures
            r@ == self.text(),
    {
        match self {
            PvFirmware::PvGrub32 => "pvgrub32",
            PvFirmware::PvGrub64 => "pvgrub64",
        }
    }

    /// Renders the grammar token.
    pub fn to_string(&self) -> (r: String)
        ensures
            r@ == self.text(),
    {
        String::from_str(self.token())
    }
}

/// On-disk format of a virtual disk.
#[derive(Clone, Copy, Debug, PartialEq, Eq, Structural)]
pub enum XlDiskFormat {
    Raw,
    Qcow,
    Qcow2,
    Vhd,
    Qed,
}

impl XlDiskFormat {
    /// The token that stands for this value in the configuration grammar.
    pub open spec fn text(self) -> Seq<char> {
        match self {
            XlDiskFormat::Raw => "raw"@,
            XlDiskFormat::Qcow => "qcow"@,
            XlDiskFormat::Qcow2 => "qcow2"@,
            XlDiskFormat::Vhd => "vhd"@,
            XlDiskFormat::Qed => "qed"@,
        }
    }

    /// The grammar token of this value.
    pub fn token(&self) -> (r: &'static str)
        ensures
            r@ == self.text(),
    {
        match self {
            XlDiskFormat::Raw => "raw",
            XlDiskFormat::Qcow => "qcow",
            XlDiskFormat::Qcow2 => "qcow2",
            XlDiskFormat::Vhd => "vhd",
            XlDiskFormat::Qed => "qed",
        }
    }

    /// Renders the grammar token.
    pub fn to_string(&self) -> (r: String)
        ensures
            r@ == self.text(),
    {
        String::from_str(self.token())
    }
}

/// Access mode of a virtual disk.
#[derive(Clone, Copy, Debug, PartialEq, Eq, Structural)]
pub enum XlDiskAccess {
    RW,
    RO,
}

impl XlDiskAccess {
    /// The token that stands for this value in the configuration grammar.
    pub open spec fn text(self) -> Seq<char> {
        match self {
            XlDiskAccess::RW => "rw"@,
            XlDiskAccess::RO => "ro"@,
        }
    }

    /// The grammar token of this value.
    pub fn token(&self) -> (r: &'static str)
        ensures
            r@ == self.text(),
    {
        match self {
            XlDiskAccess::RW => "rw",
            XlDiskAccess::RO => "ro",
        }
    }

    /// Renders the grammar token.
    pub fn to_string(&self) -> (r: String)
        ensures
            r@ == self.text(),
    {
        String::from_str(self.token())
    }
}

/// Device type of a virtual network interface for HVM guests.
#[derive(Clone, Copy, Debug, PartialEq, Eq, Structural)]
pub enum XlVifType {
    Ioemu,
    Vif,
}

impl XlVifType {
    /// The token that stands for this value in the configuration grammar.
    pub open spec fn text(self) -> Seq<char> {
        match self {
            XlVifType::Ioemu => "ioemu"@,
            XlVifType::Vif => "vif"@,
        }
    }

    /// The grammar token of this value.
    pub fn token(&self) -> (r: &'static str)
        ensures
            r@ == self.text(),
    {
        match self {
            XlVifType::Ioemu => "ioemu",
            XlVifType::Vif => "vif",
        }
    }

    /// Renders the grammar token.
    pub fn to_string(&self) -> (r: String)
        ensures
            r@ == self.text(),
    {
        String::from_str(self.token())
    }
}

/// Emulated VGA device.
#[derive(Clone, Copy, Debug, PartialEq, Eq, Structural)]
pub enum XlVgaDev {
    Disabled,
    StdVga,
    Cirrus,
    Qxl,
}

impl XlVgaDev {
    /// The token that stands for this value in the configuration grammar.
    pub open spec fn text(self) -> Seq<char> {
        match self {
            XlVgaDev::Disabled => "none"@,
            XlVgaDev::StdVga => "stdvga"@,
            XlVgaDev::Cirrus => "cirrus"@,
            XlVgaDev::Qxl => "qxl"@,
        }
    }

    /// The grammar token of this value.
    pub fn token(&self) -> (r: &'static str)
        ensures
            r@ == self.text(),
    {
        match self {
            XlVgaDev::Disabled => "none",
            XlVgaDev::StdVga => "stdvga",
            XlVgaDev::Cirrus => "cirrus",
            XlVgaDev::Qxl => "qxl",
        }
    }

    /// Renders the grammar token.
    pub fn to_string(&self) -> (r: String)
        ensures
            r@ == self.text(),
    {
        String::from_str(self.token())
    }
}


/// Guest-visible device name of a virtual disk: a family prefix and an identifier.
#[derive(Clone, Debug)]
pub enum XlDiskVdev {
    Xvd(String),
    Hd(String),
    Sd(String),
}

impl XlDiskVdev {
    /// The device name, such as `xvda` or `hdc`.
    pub open spec fn text(self) -> Seq<char> {
        match self {
            XlDiskVdev::Xvd(id) => "xvd"@ + id@,
            XlDiskVdev::Hd(id) => "hd"@ + id@,
            XlDiskVdev::Sd(id) => "sd"@ + id@,
        }
    }

    /// The first paravirtual disk, `xvda`.
    pub fn default() -> (r: XlDiskVdev)
        ensures
            r.text() == "xvda"@,
    {
        let r = XlDiskVdev::Xvd(String::from_str("a"));
        proof {
            reveal_strlit("xvd");
            reveal_strlit("a");
            reveal_strlit("xvda");
        }
        assert(r.text() =~= "xvda"@);
        r
    }

    pub fn push_text(&self, out: &mut Vec<char>)
        ensures
            final(out)@ == old(out)@ + self.text(),
    {
        let ghost start = out@;
        match self {
            XlDiskVdev::Xvd(id) => {
                push_str(out, "xvd");
                push_str(out, id.as_str());
            },
            XlDiskVdev::Hd(id) => {
                push_str(out, "hd");
                push_str(out, id.as_str());
            },
            XlDiskVdev::Sd(id) => {
                push_str(out, "sd");
                push_str(out, id.as_str());
            },
        }
        assert(out@ =~= start + self.text());
    }

    /// Renders the device name.
    pub fn to_string(&self) -> (r: String)
        ensures
            r@ == self.text(),
    {
        let mut out: Vec<char> = Vec::new();
        self.push_text(&mut out);
        assert(out@ =~= self.text());
        string_of(&out)
    }
}

/// Emulated network device model for HVM guests.
#[derive(Clone, Debug)]
pub enum XlVifModel {
    Rtl8139,
    E1000,
    Other(String),
}

impl XlVifModel {
    /// The model name in the configuration grammar.
    pub open spec fn text(self) -> Seq<char> {
        match self {
            XlVifModel::Rtl8139 => "rtl8139"@,
            XlVifModel::E1000 => "e1000"@,
            XlVifModel::Other(m) => m@,
        }
    }

    pub fn push_text(&self, out: &mut Vec<char>)
        ensures
            final(out)@ == old(out)@ + self.text(),
    {
        match self {
            XlVifModel::Rtl8139 => push_str(out, "rtl8139"),
            XlVifModel::E1000 => push_str(out, "e1000"),
            XlVifModel::Other(m) => push_str(out, m.as_str()),
        }
    }

    /// Renders the model name.
    pub fn to_string(&self) -> (r: String)
        ensures
            r@ == self.text(),
    {
        let mut out: Vec<char> = Vec::new();
        self.push_text(&mut out);
        assert(out@ =~= self.text());
        string_of(&out)
    }
}

/// Error raised when a configuration value is built from incomplete parts.
#[derive(Clone, Debug, PartialEq, Eq)]
pub enum ConfigError {
    /// A field that has no default was not given, or was given empty.
    MissingRequiredField(String),
}

/// A virtual disk, in the keyed disk sub-grammar of `xl.cfg`.
#[derive(Clone, Debug)]
pub struct XlDiskCfg {
    /// Path of the backing file or device on the host.
    pub target: String,
    pub format: XlDiskFormat,
    /// Device name seen by the guest.
    pub vdev: XlDiskVdev,
    pub access: XlDiskAccess,
    /// Whether the guest sees the disk as a CD-ROM drive.
    pub cdrom: bool,
    /// Script that translates the target before use.
    pub script: Option<String>,
}

impl XlDiskCfg {
    /// `format`, `vdev` and `access` in that order, the cdrom marker and the script when
    /// present, and the target last.
    pub open spec fn text(self) -> Seq<char> {
        "format="@ + self.format.text() + ",vdev="@ + self.vdev.text() + ",access="@
            + self.access.text() + ","@ + (if self.cdrom {
            "devtype=cdrom,"@
        } else {
            Seq::<char>::empty()
        }) + (match self.script {
            Some(p) => "script="@ + p@ + ","@,
            None => Seq::<char>::empty(),
        }) + "target="@ + self.target@
    }

    pub fn push_text(&self, out: &mut Vec<char>)
        ensures
            final(out)@ == old(out)@ + self.text(),
    {
        let ghost start = out@;
        push_str(out, "format=");
        push_str(out, self.format.token());
        push_str(out, ",vdev=");
        self.vdev.push_text(out);
        push_str(out, ",access=");
        push_str(out, self.access.token());
        push_str(out, ",");
        let ghost mid = out@;
        if self.cdrom {
            push_str(out, "devtype=cdrom,");
        }
        let ghost mid2 = out@;
        match &self.script {
            Some(p) => {
                push_str(out, "script=");
                push_str(out, p.as_str());
                push_str(out, ",");
            },
            None => {},
        }
        let ghost mid3 = out@;
        push_str(out, "target=");
        push_str(out, self.target.as_str());
        assert(mid2 =~= mid + (if self.cdrom {
            "devtype=cdrom,"@
        } else {
            Seq::<char>::empty()
        }));
        assert(mid3 =~= mid2 + (match self.script {
            Some(p) => "script="@ + p@ + ","@,
            None => Seq::<char>::empty(),
        }));
        assert(out@ =~= start + self.text());
    }

    /// Renders the disk specification.
    pub fn to_string(&self) -> (r: String)
        ensures
            r@ == self.text(),
    {
        let mut out: Vec<char> = Vec::new();
        self.push_text(&mut out);
        assert(out@ =~= self.text());
        string_of(&out)
    }
}

/// Builder of [`XlDiskCfg`]; a field left unset takes its default.
#[derive(Clone, Debug)]
pub struct XlDiskCfgBuilder {
    pub target: Option<String>,
    pub format: Option<XlDiskFormat>,
    pub vdev: Option<XlDiskVdev>,
    pub access: Option<XlDiskAccess>,
    pub cdrom: Option<bool>,
    pub script: Option<String>,
}

impl XlDiskCfgBuilder {
    /// A builder with nothing set.
    pub fn default() -> (r: XlDiskCfgBuilder)
        ensures
            r.target is None,
            r.format is None,
            r.vdev is None,
            r.access is None,
            r.cdrom is None,
            r.script is None,
    {
        XlDiskCfgBuilder {
            target: None,
            format: None,
            vdev: None,
            access: None,
            cdrom: None,
            script: None,
        }
    }

    pub fn target(self, v: String) -> (r: XlDiskCfgBuilder)
        ensures
            r == (XlDiskCfgBuilder { target: Some(v), ..self }),
    {
        XlDiskCfgBuilder { target: Some(v), ..self }
    }

    pub fn format(self, v: XlDiskFormat) -> (r: XlDiskCfgBuilder)
        ensures
            r == (XlDiskCfgBuilder { format: Some(v), ..self }),
    {
        XlDiskCfgBuilder { format: Some(v), ..self }
    }

    pub fn vdev(self, v: XlDiskVdev) -> (r: XlDiskCfgBuilder)
        ensures
            r == (XlDiskCfgBuilder { vdev: Some(v), ..self }),
    {
        XlDiskCfgBuilder { vdev: Some(v), ..self }
    }

    pub fn access(self, v: XlDiskAccess) -> (r: XlDiskCfgBuilder)
        ensures
            r == (XlDiskCfgBuilder { access: Some(v), ..self }),
    {
        XlDiskCfgBuilder { access: Some(v), ..self }
    }

    pub fn cdrom(self, v: bool) -> (r: XlDiskCfgBuilder)
        ensures
            r == (XlDiskCfgBuilder { cdrom: Some(v), ..self }),
    {
        XlDiskCfgBuilder { cdrom: Some(v), ..self }
    }

    pub fn script(self, v: String) -> (r: XlDiskCfgBuilder)
        ensures
            r == (XlDiskCfgBuilder { script: Some(v), ..self }),
    {
        XlDiskCfgBuilder { script: Some(v), ..self }
    }

    /// Builds the disk; the target is required and must not be empty. Defaults: raw
    /// format, `xvda`, read-write, not a cdrom, no script.
    pub fn build(self) -> (r: Result<XlDiskCfg, ConfigError>)
        ensures
            match self.target {
                Some(t) if t@.len() > 0 => r matches Ok(d) && d.target@ == t@ && d.format == (
                match self.format {
                    Some(f) => f,
                    None => XlDiskFormat::Raw,
                }) && d.vdev.text() == (match self.vdev {
                    Some(v) => v.text(),
                    None => "xvda"@,
                }) && d.access == (match self.access {
                    Some(a) => a,
                    None => XlDiskAccess::RW,
                }) && d.cdrom == (self.cdrom == Some(true)) && d.script == self.script,
                _ => r matches Err(ConfigError::MissingRequiredField(f)) && f@ == "target"@,
            },
    {
        let target = match self.target {
            Some(t) => t,
            None => {
                return Err(ConfigError::MissingRequiredField(String::from_str("target")));
            },
        };
        if target.as_str().unicode_len() == 0 {
            return Err(ConfigError::MissingRequiredField(String::from_str("target")));
        }
        let vdev = match self.vdev {
            Some(v) => v,
            None => XlDiskVdev::default(),
        };
        Ok(
            XlDiskCfg {
                target,
                format: match self.format {
                    Some(f) => f,
                    None => XlDiskFormat::Raw,
                },
                vdev,
                access: match self.access {
                    Some(a) => a,
                    None => XlDiskAccess::RW,
                },
                cdrom: match self.cdrom {
                    Some(b) => b,
                    None => false,
                },
                script: self.script,
            },
        )
    }
}

/// A MAC address as it appears in a network interface specification.
#[derive(Clone, Copy, Debug)]
pub struct XlMacAddr6(pub MacAddr);

impl XlMacAddr6 {
    /// Renders the address as colon-separated upper-case hex pairs.
    pub fn to_string(&self) -> (r: String)
        ensures
            r@ == self.0.text(),
    {
        self.0.to_string()
    }
}

/// A virtual network interface, in the `key=value` sub-grammar of `xl.cfg`.
#[derive(Clone, Debug)]
pub struct XlNetCfg {
    /// The MAC address the guest sees.
    pub mac: Option<XlMacAddr6>,
    /// Host bridge the interface joins.
    pub bridge: Option<String>,
    /// Host interface the interface routes through.
    pub gatewaydev: Option<String>,
    /// Emulated device type, for HVM guests.
    pub type_: Option<XlVifType>,
    /// Emulated device model, for HVM guests.
    pub model: Option<XlVifModel>,
    /// Name of the backend interface on the host.
    pub vifname: Option<String>,
    /// Script that attaches the interface on the host.
    pub script: Option<String>,
    /// Static IPv4 address of the guest.
    pub ip: Option<Ipv4Addr>,
}

/// An optional text as it is.
pub open spec fn plain_value(o: Option<String>) -> Option<Seq<char>> {
    match o {
        Some(s) => Some(s@),
        None => None,
    }
}

/// An optional address in dotted-decimal form.
pub open spec fn ip_value(o: Option<Ipv4Addr>) -> Option<Seq<char>> {
    match o {
        Some(a) => Some(a.text()),
        None => None,
    }
}

/// An optional MAC address as colon-separated upper-case hex pairs.
pub open spec fn mac_value(o: Option<XlMacAddr6>) -> Option<Seq<char>> {
    match o {
        Some(m) => Some(m.0.text()),
        None => None,
    }
}

/// An optional device model's name.
pub open spec fn model_value(o: Option<XlVifModel>) -> Option<Seq<char>> {
    match o {
        Some(m) => Some(m.text()),
        None => None,
    }
}

/// An optional device type's token.
pub open spec fn vif_type_value(o: Option<XlVifType>) -> Option<Seq<char>> {
    match o {
        Some(t) => Some(t.text()),
        None => None,
    }
}

/// The entries of a network interface specification that are set, keys in order.
pub open spec fn net_entries(n: XlNetCfg) -> Entries {
    let e0 = opt_push(Seq::empty(), "bridge"@, plain_value(n.bridge));
    let e1 = opt_push(e0, "gatewaydev"@, plain_value(n.gatewaydev));
    let e2 = opt_push(e1, "ip"@, ip_value(n.ip));
    let e3 = opt_push(e2, "mac"@, mac_value(n.mac));
    let e4 = opt_push(e3, "model"@, model_value(n.model));
    let e5 = opt_push(e4, "script"@, plain_value(n.script));
    let e6 = opt_push(e5, "type"@, vif_type_value(n.type_));
    opt_push(e6, "vifname"@, plain_value(n.vifname))
}

fn plain_entry(o: &Option<String>) -> (r: Option<Vec<char>>)
    ensures
        opt_view(r) == plain_value(*o),
{
    match o {
        Some(s) => Some(chars_of(s.as_str())),
        None => None,
    }
}

fn ip_entry(o: &Option<Ipv4Addr>) -> (r: Option<Vec<char>>)
    ensures
        opt_view(r) == ip_value(*o),
{
    match o {
        Some(a) => {
            let mut t: Vec<char> = Vec::new();
            a.push_text(&mut t);
            assert(t@ =~= a.text());
            Some(t)
        },
        None => None,
    }
}

fn mac_entry(o: &Option<XlMacAddr6>) -> (r: Option<Vec<char>>)
    ensures
        opt_view(r) == mac_value(*o),
{
    match o {
        Some(m) => {
            let s = m.to_string();
            Some(chars_of(s.as_str()))
        },
        None => None,
    }
}

fn model_entry(o: &Option<XlVifModel>) -> (r: Option<Vec<char>>)
    ensures
        opt_view(r) == model_value(*o),
{
    match o {
        Some(m) => {
            let mut t: Vec<char> = Vec::new();
            m.push_text(&mut t);
            assert(t@ =~= m.text());
            Some(t)
        },
        None => None,
    }
}

fn vif_type_entry(o: &Option<XlVifType>) -> (r: Option<Vec<char>>)
    ensures
        opt_view(r) == vif_type_value(*o),
{
    match o {
        Some(t) => Some(chars_of(t.token())),
        None => None,
    }
}

impl XlNetCfg {
    /// The set entries as `key=value`, joined by commas, keys in alphabetical order.
    pub open spec fn text(self) -> Seq<char> {
        kv_join(net_entries(self), "="@, ","@)
    }

    pub fn push_text(&self, out: &mut Vec<char>)
        ensures
            final(out)@ == old(out)@ + self.text(),
    {
        let mut t: Vec<char> = Vec::new();
        let ghost mut es = Seq::<(Seq<char>, Seq<char>)>::empty();
        proof {
            reveal_strlit("=");
        }
        let v = plain_entry(&self.bridge);
        push_opt(&mut t, Ghost(es), "=", ",", "bridge", &v);
        proof {
            es = opt_push(es, "bridge"@, opt_view(v));
        }
        let v = plain_entry(&self.gatewaydev);
        push_opt(&mut t, Ghost(es), "=", ",", "gatewaydev", &v);
        proof {
            es = opt_push(es, "gatewaydev"@, opt_view(v));
        }
        let v = ip_entry(&self.ip);
        push_opt(&mut t, Ghost(es), "=", ",", "ip", &v);
        proof {
            es = opt_push(es, "ip"@, opt_view(v));
        }
        let v = mac_entry(&self.mac);
        push_opt(&mut t, Ghost(es), "=", ",", "mac", &v);
        proof {
            es = opt_push(es, "mac"@, opt_view(v));
        }
        let v = model_entry(&self.model);
        push_opt(&mut t, Ghost(es), "=", ",", "model", &v);
        proof {
            es = opt_push(es, "model"@, opt_view(v));
        }
        let v = plain_entry(&self.script);
        push_opt(&mut t, Ghost(es), "=", ",", "script", &v);
        proof {
            es = opt_push(es, "script"@, opt_view(v));
        }
        let v = vif_type_entry(&self.type_);
        push_opt(&mut t, Ghost(es), "=", ",", "type", &v);
        proof {
            es = opt_push(es, "type"@, opt_view(v));
        }
        let v = plain_entry(&self.vifname);
        push_opt(&mut t, Ghost(es), "=", ",", "vifname", &v);
        proof {
            es = opt_push(es, "vifname"@, opt_view(v));
        }
        assert(es == net_entries(*self));
        push_chars(out, &t);
    }

    /// Renders the interface specification.
    pub fn to_string(&self) -> (r: String)
        ensures
            r@ == self.text(),
    {
        let mut out: Vec<char> = Vec::new();
        self.push_text(&mut out);
        assert(out@ =~= self.text());
        string_of(&out)
    }
}

/// Builder of [`XlNetCfg`]; every field is optional.
#[derive(Clone, Debug)]
pub struct XlNetCfgBuilder {
    pub cfg: XlNetCfg,
}

impl XlNetCfgBuilder {
    /// A builder with nothing set.
    pub fn default() -> (r: XlNetCfgBuilder)
        ensures
            r.cfg.mac is None,
            r.cfg.bridge is None,
            r.cfg.gatewaydev is None,
            r.cfg.type_ is None,
            r.cfg.model is None,
            r.cfg.vifname is None,
            r.cfg.script is None,
            r.cfg.ip is None,
    {
        XlNetCfgBuilder {
            cfg: XlNetCfg {
                mac: None,
                bridge: None,
                gatewaydev: None,
                type_: None,
                model: None,
                vifname: None,
                script: None,
                ip: None,
            },
        }
    }

    pub fn mac(self, v: XlMacAddr6) -> (r: XlNetCfgBuilder)
        ensures
            r.cfg == (XlNetCfg { mac: Some(v), ..self.cfg }),
    {
        XlNetCfgBuilder { cfg: XlNetCfg { mac: Some(v), ..self.cfg } }
    }

    pub fn bridge(self, v: String) -> (r: XlNetCfgBuilder)
        ensures
            r.cfg == (XlNetCfg { bridge: Some(v), ..self.cfg }),
    {
        XlNetCfgBuilder { cfg: XlNetCfg { bridge: Some(v), ..self.cfg } }
    }

    pub fn gatewaydev(self, v: String) -> (r: XlNetCfgBuilder)
        ensures
            r.cfg == (XlNetCfg { gatewaydev: Some(v), ..self.cfg }),
    {
        XlNetCfgBuilder { cfg: XlNetCfg { gatewaydev: Some(v), ..self.cfg } }
    }

    pub fn type_(self, v: XlVifType) -> (r: XlNetCfgBuilder)
        ensures
            r.cfg == (XlNetCfg { type_: Some(v), ..self.cfg }),
    {
        XlNetCfgBuilder { cfg: XlNetCfg { type_: Some(v), ..self.cfg } }
    }

    pub fn model(self, v: XlVifModel) -> (r: XlNetCfgBuilder)
        ensures
            r.cfg == (XlNetCfg { model: Some(v), ..self.cfg }),
    {
        XlNetCfgBuilder { cfg: XlNetCfg { model: Some(v), ..self.cfg } }
    }

    pub fn vifname(self, v: String) -> (r: XlNetCfgBuilder)
        ensures
            r.cfg == (XlNetCfg { vifname: Some(v), ..self.cfg }),
    {
        XlNetCfgBuilder { cfg: XlNetCfg { vifname: Some(v), ..self.cfg } }
    }

    pub fn script(self, v: String) -> (r: XlNetCfgBuilder)
        ensures
            r.cfg == (XlNetCfg { script: Some(v), ..self.cfg }),
    {
        XlNetCfgBuilder { cfg: XlNetCfg { script: Some(v), ..self.cfg } }
    }

    pub fn ip(self, v: Ipv4Addr) -> (r: XlNetCfgBuilder)
        ensures
            r.cfg == (XlNetCfg { ip: Some(v), ..self.cfg }),
    {
        XlNetCfgBuilder { cfg: XlNetCfg { ip: Some(v), ..self.cfg } }
    }

    /// Builds the interface; no field is required.
    pub fn build(self) -> (r: Result<XlNetCfg, ConfigError>)
        ensures
            r == Ok::<XlNetCfg, ConfigError>(self.cfg),
    {
        Ok(self.cfg)
    }
}

/// Remote end of a network serial backend: a host name or an IPv4 address.
#[derive(Clone, Debug)]
pub enum XlRemoteHost {
    Hostname(String),
    Ip(Ipv4Addr),
}

impl XlRemoteHost {
    pub open spec fn text(self) -> Seq<char> {
        match self {
            XlRemoteHost::Hostname(h) => h@,
            XlRemoteHost::Ip(a) => a.text(),
        }
    }

    pub fn push_text(&self, out: &mut Vec<char>)
        ensures
            final(out)@ == old(out)@ + self.text(),
    {
        match self {
            XlRemoteHost::Hostname(h) => push_str(out, h.as_str()),
            XlRemoteHost::Ip(a) => a.push_text(out),
        }
    }

    /// Renders the host name or the dotted-decimal address.
    pub fn to_string(&self) -> (r: String)
        ensures
            r@ == self.text(),
    {
        let mut out: Vec<char> = Vec::new();
        self.push_text(&mut out);
        assert(out@ =~= self.text());
        string_of(&out)
    }
}

/// Text of an optional remote host; empty when absent.
pub open spec fn opt_host_text(h: Option<XlRemoteHost>) -> Seq<char> {
    match h {
        Some(h) => h.text(),
        None => Seq::<char>::empty(),
    }
}

/// `text` when `b` holds, else nothing.
pub open spec fn flag_text(b: bool, text: Seq<char>) -> Seq<char> {
    if b {
        text
    } else {
        Seq::<char>::empty()
    }
}

/// `,reconnect=N` when an interval is given, else nothing.
pub open spec fn reconnect_text(r: Option<u32>) -> Seq<char> {
    match r {
        Some(n) => ",reconnect="@ + dec(n as nat),
        None => Seq::<char>::empty(),
    }
}

fn push_flag(out: &mut Vec<char>, b: bool, text: &str)
    ensures
        final(out)@ == old(out)@ + flag_text(b, text@),
{
    if b {
        push_str(out, text);
    } else {
        assert(out@ =~= out@ + flag_text(b, text@));
    }
}

fn push_opt_host(out: &mut Vec<char>, h: &Option<XlRemoteHost>)
    ensures
        final(out)@ == old(out)@ + opt_host_text(*h),
{
    match h {
        Some(h) => h.push_text(out),
        None => {
            assert(out@ =~= out@ + opt_host_text(None));
        },
    }
}

fn push_reconnect(out: &mut Vec<char>, r: Option<u32>)
    ensures
        final(out)@ == old(out)@ + reconnect_text(r),
{
    let ghost start = out@;
    match r {
        Some(n) => {
            push_str(out, ",reconnect=");
            push_dec(out, n as u64);
        },
        None => {},
    }
    assert(out@ =~= start + reconnect_text(r));
}

/// UDP serial backend.
#[derive(Clone, Debug)]
pub struct XlUdpConn {
    pub remote_host: Option<XlRemoteHost>,
    pub remote_port: u16,
    pub src_ip: Option<Ipv4Addr>,
    pub src_port: Option<u16>,
}

impl XlUdpConn {
    /// `udp:host:port`, then `@ip:port` for a given source port (the address may be
    /// empty).
    pub open spec fn text(self) -> Seq<char> {
        "udp:"@ + opt_host_text(self.remote_host) + ":"@ + dec(self.remote_port as nat) + (
        match self.src_port {
            Some(p) => "@"@ + (match self.src_ip {
                Some(a) => a.text(),
                None => Seq::<char>::empty(),
            }) + ":"@ + dec(p as nat),
            None => Seq::<char>::empty(),
        })
    }

    pub fn push_text(&self, out: &mut Vec<char>)
        ensures
            final(out)@ == old(out)@ + self.text(),
    {
        let ghost start = out@;
        push_str(out, "udp:");
        push_opt_host(out, &self.remote_host);
        push_str(out, ":");
        push_dec(out, self.remote_port as u64);
        let ghost mid = out@;
        match self.src_port {
            Some(p) => {
                push_str(out, "@");
                let ghost m2 = out@;
                match &self.src_ip {
                    Some(a) => a.push_text(out),
                    None => {},
                }
                assert(out@ =~= m2 + (match self.src_ip {
                    Some(a) => a.text(),
                    None => Seq::<char>::empty(),
                }));
                push_str(out, ":");
                push_dec(out, p as u64);
            },
            None => {},
        }
        assert(out@ =~= start + self.text());
    }
}

/// TCP serial backend.
#[derive(Clone, Debug)]
pub struct XlTcpConn {
    pub remote_host: Option<XlRemoteHost>,
    pub remote_port: u16,
    pub server: bool,
    pub wait: bool,
    pub nodelay: bool,
    pub reconnect: Option<u32>,
}

impl XlTcpConn {
    pub open spec fn text(self) -> Seq<char> {
        "tcp:"@ + opt_host_text(self.remote_host) + ":"@ + dec(self.remote_port as nat)
            + flag_text(self.server, ",server=on"@) + flag_text(self.wait, ",wait=on"@)
            + flag_text(self.nodelay, ",nodelay=on"@) + reconnect_text(self.reconnect)
    }

    pub fn push_text(&self, out: &mut Vec<char>)
        ensures
            final(out)@ == old(out)@ + self.text(),
    {
        let ghost start = out@;
        push_str(out, "tcp:");
        push_opt_host(out, &self.remote_host);
        push_str(out, ":");
        push_dec(out, self.remote_port as u64);
        push_flag(out, self.server, ",server=on");
        push_flag(out, self.wait, ",wait=on");
        push_flag(out, self.nodelay, ",nodelay=on");
        push_reconnect(out, self.reconnect);
        assert(out@ =~= start + self.text());
    }
}

/// Telnet serial backend.
#[derive(Clone, Debug)]
pub struct XlTelnetConn {
    pub remote_host: XlRemoteHost,
    pub remote_port: u16,
    pub server: bool,
    pub wait: bool,
    pub nodelay: bool,
}

impl XlTelnetConn {
    pub open spec fn text(self) -> Seq<char> {
        "telnet:"@ + self.remote_host.text() + ":"@ + dec(self.remote_port as nat) + flag_text(
            self.server,
            ",server=on"@,
        ) + flag_text(self.wait, ",wait=on"@) + flag_text(self.nodelay, ",nodelay=on"@)
    }

    pub fn push_text(&self, out: &mut Vec<char>)
        ensures
            final(out)@ == old(out)@ + self.text(),
    {
        let ghost start = out@;
        push_str(out, "telnet:");
        self.remote_host.push_text(out);
        push_str(out, ":");
        push_dec(out, self.remote_port as u64);
        push_flag(out, self.server, ",server=on");
        push_flag(out, self.wait, ",wait=on");
        push_flag(out, self.nodelay, ",nodelay=on");
        assert(out@ =~= start + self.text());
    }
}

/// Websocket serial backend; it always listens.
#[derive(Clone, Debug)]
pub struct XlWebsocketConn {
    pub remote_host: XlRemoteHost,
    pub remote_port: u16,
    pub wait: bool,
    pub nodelay: bool,
}

impl XlWebsocketConn {
    pub open spec fn text(self) -> Seq<char> {
        "websocket:"@ + self.remote_host.text() + ":"@ + dec(self.remote_port as nat)
            + ",server=on"@ + flag_text(self.wait, ",wait=on"@) + flag_text(
            self.nodelay,
            ",nodelay=on"@,
        )
    }

    pub fn push_text(&self, out: &mut Vec<char>)
        ensures
            final(out)@ == old(out)@ + self.text(),
    {
        let ghost start = out@;
        push_str(out, "websocket:");
        self.remote_host.push_text(out);
        push_str(out, ":");
        push_dec(out, self.remote_port as u64);
        push_str(out, ",server=on");
        push_flag(out, self.wait, ",wait=on");
        push_flag(out, self.nodelay, ",nodelay=on");
        assert(out@ =~= start + self.text());
    }
}

/// Unix-domain socket serial backend.
#[derive(Clone, Debug)]
pub struct XlUnixConn {
    pub path: String,
    pub server: bool,
    pub wait: bool,
    pub reconnect: Option<u32>,
}

impl XlUnixConn {
    pub open spec fn text(self) -> Seq<char> {
        "unix:"@ + self.path@ + flag_text(self.server, ",server=on"@) + flag_text(
            self.wait,
            ",wait=on"@,
        ) + reconnect_text(self.reconnect)
    }

    pub fn push_text(&self, out: &mut Vec<char>)
        ensures
            final(out)@ == old(out)@ + self.text(),
    {
        let ghost start = out@;
        push_str(out, "unix:");
        push_str(out, self.path.as_str());
        push_flag(out, self.server, ",server=on");
        push_flag(out, self.wait, ",wait=on");
        push_reconnect(out, self.reconnect);
        assert(out@ =~= start + self.text());
    }
}

/// Host-side backend of a guest's emulated serial port.
#[derive(Clone, Debug)]
pub enum XlSerialDev {
    /// Virtual console, with an optional geometry.
    Vc(Option<(usize, usize)>),
    Pty,
    /// No backend (`none`).
    Disabled,
    Null,
    Chardev(String),
    Dev(String),
    Parport(usize),
    File(String),
    Stdio,
    Pipe(String),
    Com(usize),
    Udp(XlUdpConn),
    Tcp(XlTcpConn),
    Telnet(XlTelnetConn),
    Websocket(XlWebsocketConn),
    Unix(XlUnixConn),
    Mon(String),
    Braille,
    MsMouse,
}

impl XlSerialDev {
    pub open spec fn text(self) -> Seq<char> {
        match self {
            XlSerialDev::Vc(Some((x, y))) => "vc:"@ + dec(x as nat) + ":"@ + dec(y as nat),
            XlSerialDev::Vc(None) => "vc"@,
            XlSerialDev::Pty => "pty"@,
            XlSerialDev::Disabled => "none"@,
            XlSerialDev::Null => "null"@,
            XlSerialDev::Chardev(n) => "chardev:"@ + n@,
            XlSerialDev::Dev(n) => "dev:"@ + n@,
            XlSerialDev::Parport(p) => "parport:"@ + dec(p as nat),
            XlSerialDev::File(p) => "file:"@ + p@,
            XlSerialDev::Stdio => "stdio"@,
            XlSerialDev::Pipe(p) => "pipe:"@ + p@,
            XlSerialDev::Com(p) => "com:"@ + dec(p as nat),
            XlSerialDev::Udp(c) => c.text(),
            XlSerialDev::Tcp(c) => c.text(),
            XlSerialDev::Telnet(c) => c.text(),
            XlSerialDev::Websocket(c) => c.text(),
            XlSerialDev::Unix(c) => c.text(),
            XlSerialDev::Mon(p) => "mon:"@ + p@,
            XlSerialDev::Braille => "braille"@,
            XlSerialDev::MsMouse => "msmouse"@,
        }
    }

    pub fn push_text(&self, out: &mut Vec<char>)
        ensures
            final(out)@ == old(out)@ + self.text(),
    {
        let ghost start = out@;
        match self {
            XlSerialDev::Vc(Some((x, y))) => {
                push_str(out, "vc:");
                push_dec(out, *x as u64);
                push_str(out, ":");
                push_dec(out, *y as u64);
            },
            XlSerialDev::Vc(None) => push_str(out, "vc"),
            XlSerialDev::Pty => push_str(out, "pty"),
            XlSerialDev::Disabled => push_str(out, "none"),
            XlSerialDev::Null => push_str(out, "null"),
            XlSerialDev::Chardev(n) => {
                push_str(out, "chardev:");
                push_str(out, n.as_str());
            },
            XlSerialDev::Dev(n) => {
                push_str(out, "dev:");
                push_str(out, n.as_str());
            },
            XlSerialDev::Parport(p) => {
                push_str(out, "parport:");
                push_dec(out, *p as u64);
            },
            XlSerialDev::File(p) => {
                push_str(out, "file:");
                push_str(out, p.as_str());
            },
            XlSerialDev::Stdio => push_str(out, "stdio"),
            XlSerialDev::Pipe(p) => {
                push_str(out, "pipe:");
                push_str(out, p.as_str());
            },
            XlSerialDev::Com(p) => {
                push_str(out, "com:");
                push_dec(out, *p as u64);
            },
            XlSerialDev::Udp(c) => c.push_text(out),
            XlSerialDev::Tcp(c) => c.push_text(out),
            XlSerialDev::Telnet(c) => c.push_text(out),
            XlSerialDev::Websocket(c) => c.push_text(out),
            XlSerialDev::Unix(c) => c.push_text(out),
            XlSerialDev::Mon(p) => {
                push_str(out, "mon:");
                push_str(out, p.as_str());
            },
            XlSerialDev::Braille => push_str(out, "braille"),
            XlSerialDev::MsMouse => push_str(out, "msmouse"),
        }
        assert(out@ =~= start + self.text());
    }

    /// Renders the backend specification.
    pub fn to_string(&self) -> (r: String)
        ensures
            r@ == self.text(),
    {
        let mut out: Vec<char> = Vec::new();
        self.push_text(&mut out);
        assert(out@ =~= self.text());
        string_of(&out)
    }
}

/// JSON text of a virtual NUMA layout: an array of arrays of string literals.
pub open spec fn vnuma_text(v: Seq<Vec<String>>) -> Seq<char> {
    "["@ + join(v.map_values(|row: Vec<String>| json_array(views(row@))), ","@) + "]"@
}

fn push_vnuma(out: &mut Vec<char>, v: &Vec<Vec<String>>)
    ensures
        final(out)@ == old(out)@ + vnuma_text(v@),
{
    let ghost start = out@;
    push_str(out, "[");
    let mut i: usize = 0;
    while i < v.len()
        invariant
            i <= v@.len(),
            out@ == start + "["@ + join(
                v@.subrange(0, i as int).map_values(|row: Vec<String>| json_array(views(row@))),
                ","@,
            ),
        decreases v@.len() - i,
    {
        let ghost before = v@.subrange(0, i as int).map_values(
            |row: Vec<String>| json_array(views(row@)),
        );
        let ghost after = v@.subrange(0, i + 1).map_values(
            |row: Vec<String>| json_array(views(row@)),
        );
        assert(after.drop_last() =~= before);
        if i > 0 {
            push_str(out, ",");
        }
        push_json_array(out, &v[i]);
        i = i + 1;
    }
    assert(v@.subrange(0, v@.len() as int) =~= v@);
    push_str(out, "]");
}

/// Rendered value of an optional text: its JSON string literal.
pub open spec fn json_value(o: Option<String>) -> Option<Seq<char>> {
    match o {
        Some(s) => Some(json_str(s@)),
        None => None,
    }
}

/// Rendered value of an optional integer: its decimal text.
pub open spec fn int_value(o: Option<i64>) -> Option<Seq<char>> {
    match o {
        Some(i) => Some(int_text(i as int)),
        None => None,
    }
}

/// Rendered value of an optional event action: its token, quoted.
pub open spec fn action_value(o: Option<EventAction>) -> Option<Seq<char>> {
    match o {
        Some(a) => Some(json_str(a.text())),
        None => None,
    }
}

/// Rendered value of an optional VGA device: its token, quoted.
pub open spec fn vga_value(o: Option<XlVgaDev>) -> Option<Seq<char>> {
    match o {
        Some(v) => Some(json_str(v.text())),
        None => None,
    }
}

/// Rendered value of an optional serial backend: its specification, quoted.
pub open spec fn serial_value(o: Option<XlSerialDev>) -> Option<Seq<char>> {
    match o {
        Some(s) => Some(json_str(s.text())),
        None => None,
    }
}

/// Rendered value of an optional size: its decimal text.
pub open spec fn size_value(o: Option<u32>) -> Option<Seq<char>> {
    match o {
        Some(n) => Some(dec(n as nat)),
        None => None,
    }
}

/// Rendered value of an optional switch: `1` or `0`.
pub open spec fn switch_value(o: Option<bool>) -> Option<Seq<char>> {
    match o {
        Some(b) => Some(
            if b {
                "1"@
            } else {
                "0"@
            },
        ),
        None => None,
    }
}

/// Rendered value of an optional listening address: `address:port`, quoted.
pub open spec fn listen_value(o: Option<(Ipv4Addr, u16)>) -> Option<Seq<char>> {
    match o {
        Some((a, p)) => Some(json_str(a.text() + ":"@ + dec(p as nat))),
        None => None,
    }
}

/// Rendered value of an optional NUMA layout.
pub open spec fn vnuma_value(o: Option<Vec<Vec<String>>>) -> Option<Seq<char>> {
    match o {
        Some(v) => Some(vnuma_text(v@)),
        None => None,
    }
}

/// Rendered value of a disk list: the disks' specifications as a JSON array; absent
/// when there is no disk.
pub open spec fn disk_value(ds: Seq<XlDiskCfg>) -> Option<Seq<char>> {
    if ds.len() > 0 {
        Some(json_array(ds.map_values(|d: XlDiskCfg| d.text())))
    } else {
        None
    }
}

/// Rendered value of an interface list: the interfaces' specifications as a JSON array;
/// absent when there is no interface.
pub open spec fn vif_value(ns: Seq<XlNetCfg>) -> Option<Seq<char>> {
    if ns.len() > 0 {
        Some(json_array(ns.map_values(|n: XlNetCfg| n.text())))
    } else {
        None
    }
}

/// Rendered value of a USB device list; absent when there is none.
pub open spec fn usb_value(us: Seq<String>) -> Option<Seq<char>> {
    if us.len() > 0 {
        Some(json_array(views(us)))
    } else {
        None
    }
}

fn json_entry(o: &Option<String>) -> (r: Option<Vec<char>>)
    ensures
        opt_view(r) == json_value(*o),
{
    match o {
        Some(s) => {
            let mut t: Vec<char> = Vec::new();
            push_json(&mut t, s.as_str());
            Some(t)
        },
        None => None,
    }
}

fn token_entry(s: &str) -> (r: Option<Vec<char>>)
    ensures
        opt_view(r) == Some(json_str(s@)),
{
    let mut t: Vec<char> = Vec::new();
    push_json(&mut t, s);
    Some(t)
}

fn int_entry(o: Option<i64>) -> (r: Option<Vec<char>>)
    ensures
        opt_view(r) == int_value(o),
{
    match o {
        Some(i) => {
            let mut t: Vec<char> = Vec::new();
            push_int(&mut t, i);
            Some(t)
        },
        None => None,
    }
}

fn action_entry(o: &Option<EventAction>) -> (r: Option<Vec<char>>)
    ensures
        opt_view(r) == action_value(*o),
{
    match o {
        Some(a) => token_entry(a.token()),
        None => None,
    }
}

fn vga_entry(o: &Option<XlVgaDev>) -> (r: Option<Vec<char>>)
    ensures
        opt_view(r) == vga_value(*o),
{
    match o {
        Some(v) => token_entry(v.token()),
        None => None,
    }
}

fn serial_entry(o: &Option<XlSerialDev>) -> (r: Option<Vec<char>>)
    ensures
        opt_view(r) == serial_value(*o),
{
    match o {
        Some(s) => {
            let text = s.to_string();
            token_entry(text.as_str())
        },
        None => None,
    }
}

fn size_entry(o: Option<u32>) -> (r: Option<Vec<char>>)
    ensures
        opt_view(r) == size_value(o),
{
    match o {
        Some(n) => {
            let mut t: Vec<char> = Vec::new();
            push_dec(&mut t, n as u64);
            Some(t)
        },
        None => None,
    }
}

fn switch_entry(o: Option<bool>) -> (r: Option<Vec<char>>)
    ensures
        opt_view(r) == switch_value(o),
{
    match o {
        Some(b) => Some(chars_of(if b { "1" } else { "0" })),
        None => None,
    }
}

fn listen_entry(o: &Option<(Ipv4Addr, u16)>) -> (r: Option<Vec<char>>)
    ensures
        opt_view(r) == listen_value(*o),
{
    match o {
        Some((a, p)) => {
            let mut t: Vec<char> = Vec::new();
            a.push_text(&mut t);
            push_str(&mut t, ":");
            push_dec(&mut t, *p as u64);
            assert(t@ =~= a.text() + ":"@ + dec(*p as nat));
            let s = string_of(&t);
            token_entry(s.as_str())
        },
        None => None,
    }
}

fn vnuma_entry(o: &Option<Vec<Vec<String>>>) -> (r: Option<Vec<char>>)
    ensures
        opt_view(r) == vnuma_value(*o),
{
    match o {
        Some(v) => {
            let mut t: Vec<char> = Vec::new();
            push_vnuma(&mut t, v);
            Some(t)
        },
        None => None,
    }
}

fn disk_entry(ds: &Vec<XlDiskCfg>) -> (r: Option<Vec<char>>)
    ensures
        opt_view(r) == disk_value(ds@),
{
    if ds.len() == 0 {
        return None;
    }
    let mut texts: Vec<String> = Vec::new();
    let mut i: usize = 0;
    while i < ds.len()
        invariant
            i <= ds@.len(),
            views(texts@) =~= ds@.subrange(0, i as int).map_values(|d: XlDiskCfg| d.text()),
        decreases ds@.len() - i,
    {
        let s = ds[i].to_string();
        let ghost prev = texts@;
        texts.push(s);
        assert(views(texts@) =~= views(prev).push(s@));
        assert(ds@.subrange(0, i + 1).map_values(|d: XlDiskCfg| d.text()) =~= ds@.subrange(
            0,
            i as int,
        ).map_values(|d: XlDiskCfg| d.text()).push(ds@[i as int].text()));
        i = i + 1;
    }
    assert(ds@.subrange(0, ds@.len() as int) =~= ds@);
    let mut r: Vec<char> = Vec::new();
    push_json_array(&mut r, &texts);
    Some(r)
}

fn vif_entry(ns: &Vec<XlNetCfg>) -> (r: Option<Vec<char>>)
    ensures
        opt_view(r) == vif_value(ns@),
{
    if ns.len() == 0 {
        return None;
    }
    let mut texts: Vec<String> = Vec::new();
    let mut i: usize = 0;
    while i < ns.len()
        invariant
            i <= ns@.len(),
            views(texts@) =~= ns@.subrange(0, i as int).map_values(|n: XlNetCfg| n.text()),
        decreases ns@.len() - i,
    {
        let s = ns[i].to_string();
        let ghost prev = texts@;
        texts.push(s);
        assert(views(texts@) =~= views(prev).push(s@));
        assert(ns@.subrange(0, i + 1).map_values(|n: XlNetCfg| n.text()) =~= ns@.subrange(
            0,
            i as int,
        ).map_values(|n: XlNetCfg| n.text()).push(ns@[i as int].text()));
        i = i + 1;
    }
    assert(ns@.subrange(0, ns@.len() as int) =~= ns@);
    let mut r: Vec<char> = Vec::new();
    push_json_array(&mut r, &texts);
    Some(r)
}

fn usb_entry(us: &Vec<String>) -> (r: Option<Vec<char>>)
    ensures
        opt_view(r) == usb_value(us@),
{
    if us.len() == 0 {
        return None;
    }
    let mut t: Vec<char> = Vec::new();
    push_json_array(&mut t, us);
    Some(t)
}

/// A domain configuration in the `xl.cfg` grammar. Only the fields that are set are
/// rendered.
#[derive(Clone, Debug)]
pub struct XlCfg {
    /// Name of the domain; unique among running domains when it is created.
    pub name: String,
    /// Virtualization mode of the guest.
    pub type_: XlGuestType,
    /// CPU pool that the guest's vCPUs join.
    pub pool: Option<String>,
    /// Number of vCPUs the guest starts with.
    pub vcpus: Option<i64>,
    /// Largest number of vCPUs the guest may use.
    pub maxvcpus: Option<i64>,
    /// Host CPUs the guest's vCPUs are pinned to.
    pub cpus: Option<String>,
    /// Host CPUs the guest's vCPUs prefer.
    pub cpus_soft: Option<String>,
    /// Scheduling weight.
    pub cpu_weight: Option<i64>,
    /// Largest share of a CPU the guest may use, in percent.
    pub cap: Option<i64>,
    /// Memory the guest starts with, in megabytes.
    pub memory: Option<i64>,
    /// Largest memory the guest may use, in megabytes.
    pub maxmem: Option<i64>,
    /// Virtual NUMA layout, one list of settings per node.
    pub vnuma: Option<Vec<Vec<String>>>,
    /// Action when the guest powers off.
    pub on_poweroff: Option<EventAction>,
    /// Action when the guest reboots.
    pub on_reboot: Option<EventAction>,
    /// Action when the watchdog fires.
    pub on_watchdog: Option<EventAction>,
    /// Action when the guest crashes.
    pub on_crash: Option<EventAction>,
    /// Action when the guest performs a soft reset.
    pub on_soft_reset: Option<EventAction>,
    /// Kernel image for direct boot.
    pub kernel: Option<String>,
    /// Initial ramdisk for direct boot.
    pub ramdisk: Option<String>,
    /// Kernel command line.
    pub cmdline: Option<String>,
    /// Root device appended to the kernel command line.
    pub root: Option<String>,
    /// Text appended to the kernel command line.
    pub extra: Option<String>,
    /// Disks, in order.
    pub disk: Vec<XlDiskCfg>,
    /// Network interfaces, in order.
    pub vif: Vec<XlNetCfg>,
    /// Emulated USB devices, such as `tablet`.
    pub usbdevice: Vec<String>,
    /// Emulated VGA device.
    pub vga: Option<XlVgaDev>,
    /// Video memory in megabytes.
    pub videoram: Option<u32>,
    /// Whether the VNC display is enabled.
    pub vnc: Option<bool>,
    /// Address and port the VNC display listens on.
    pub vnclisten: Option<(Ipv4Addr, u16)>,
    /// Backend of the emulated serial port.
    pub serial: Option<XlSerialDev>,
}

pub open spec fn cfg_part0(c: XlCfg, es: Entries) -> Entries {
    let e0 = opt_push(es, "cap"@, int_value(c.cap));
    let e1 = opt_push(e0, "cmdline"@, json_value(c.cmdline));
    let e2 = opt_push(e1, "cpu_weight"@, int_value(c.cpu_weight));
    let e3 = opt_push(e2, "cpus"@, json_value(c.cpus));
    let e4 = opt_push(e3, "cpus_soft"@, json_value(c.cpus_soft));
    let e5 = opt_push(e4, "disk"@, disk_value(c.disk@));
    e5
}

pub open spec fn cfg_part1(c: XlCfg, es: Entries) -> Entries {
    let e0 = opt_push(es, "extra"@, json_value(c.extra));
    let e1 = opt_push(e0, "kernel"@, json_value(c.kernel));
    let e2 = opt_push(e1, "maxmem"@, int_value(c.maxmem));
    let e3 = opt_push(e2, "maxvcpus"@, int_value(c.maxvcpus));
    let e4 = opt_push(e3, "memory"@, int_value(c.memory));
    let e5 = opt_push(e4, "name"@, Some(json_str(c.name@)));
    e5
}

pub open spec fn cfg_part2(c: XlCfg, es: Entries) -> Entries {
    let e0 = opt_push(es, "on_crash"@, action_value(c.on_crash));
    let e1 = opt_push(e0, "on_poweroff"@, action_value(c.on_poweroff));
    let e2 = opt_push(e1, "on_reboot"@, action_value(c.on_reboot));
    let e3 = opt_push(e2, "on_soft_reset"@, action_value(c.on_soft_reset));
    let e4 = opt_push(e3, "on_watchdog"@, action_value(c.on_watchdog));
    let e5 = opt_push(e4, "pool"@, json_value(c.pool));
    e5
}

pub open spec fn cfg_part3(c: XlCfg, es: Entries) -> Entries {
    let e0 = opt_push(es, "ramdisk"@, json_value(c.ramdisk));
    let e1 = opt_push(e0, "root"@, json_value(c.root));
    let e2 = opt_push(e1, "serial"@, serial_value(c.serial));
    let e3 = opt_push(e2, "type"@, Some(json_str(c.type_.text())));
    let e4 = opt_push(e3, "usbdevice"@, usb_value(c.usbdevice@));
    let e5 = opt_push(e4, "vcpus"@, int_value(c.vcpus));
    e5
}

pub open spec fn cfg_part4(c: XlCfg, es: Entries) -> Entries {
    let e0 = opt_push(es, "vga"@, vga_value(c.vga));
    let e1 = opt_push(e0, "videoram"@, size_value(c.videoram));
    let e2 = opt_push(e1, "vif"@, vif_value(c.vif@));
    let e3 = opt_push(e2, "vnc"@, switch_value(c.vnc));
    let e4 = opt_push(e3, "vnclisten"@, listen_value(c.vnclisten));
    let e5 = opt_push(e4, "vnuma"@, vnuma_value(c.vnuma));
    e5
}

/// The entries of a configuration that are set, as key and rendered value, in
/// alphabetical order of their keys.
pub open spec fn cfg_entries(c: XlCfg) -> Entries {
    let e = Seq::empty();
    cfg_part4(c, cfg_part3(c, cfg_part2(c, cfg_part1(c, cfg_part0(c, e)))))
}

impl XlCfg {
    /// The set entries written `key = value`, joined by `; `.
    pub open spec fn text(self) -> Seq<char> {
        kv_join(cfg_entries(self), " = "@, "; "@)
    }

    fn render_part0(&self, out: &mut Vec<char>, Ghost(es0): Ghost<Entries>)
        requires
            old(out)@ == kv_join(es0, " = "@, "; "@),
        ensures
            final(out)@ == kv_join(cfg_part0(*self, es0), " = "@, "; "@),
    {
        let ghost c = *self;
        let ghost mut es = es0;
        proof {
            reveal_strlit(" = ");
        }
        let v = int_entry(self.cap);
        push_opt(out, Ghost(es), " = ", "; ", "cap", &v);
        proof {
            es = opt_push(es, "cap"@, opt_view(v));
        }
        let v = json_entry(&self.cmdline);
        push_opt(out, Ghost(es), " = ", "; ", "cmdline", &v);
        proof {
            es = opt_push(es, "cmdline"@, opt_view(v));
        }
        let v = int_entry(self.cpu_weight);
        push_opt(out, Ghost(es), " = ", "; ", "cpu_weight", &v);
        proof {
            es = opt_push(es, "cpu_weight"@, opt_view(v));
        }
        let v = json_entry(&self.cpus);
        push_opt(out, Ghost(es), " = ", "; ", "cpus", &v);
        proof {
            es = opt_push(es, "cpus"@, opt_view(v));
        }
        let v = json_entry(&self.cpus_soft);
        push_opt(out, Ghost(es), " = ", "; ", "cpus_soft", &v);
        proof {
            es = opt_push(es, "cpus_soft"@, opt_view(v));
        }
        let v = disk_entry(&self.disk);
        push_opt(out, Ghost(es), " = ", "; ", "disk", &v);
        proof {
            es = opt_push(es, "disk"@, opt_view(v));
        }
        assert(es == cfg_part0(c, es0));
    }

    fn render_part1(&self, out: &mut Vec<char>, Ghost(es0): Ghost<Entries>)
        requires
            old(out)@ == kv_join(es0, " = "@, "; "@),
        ensures
            final(out)@ == kv_join(cfg_part1(*self, es0), " = "@, "; "@),
    {
        let ghost c = *self;
        let ghost mut es = es0;
        proof {
            reveal_strlit(" = ");
        }
        let v = json_entry(&self.extra);
        push_opt(out, Ghost(es), " = ", "; ", "extra", &v);
        proof {
            es = opt_push(es, "extra"@, opt_view(v));
        }
        let v = json_entry(&self.kernel);
        push_opt(out, Ghost(es), " = ", "; ", "kernel", &v);
        proof {
            es = opt_push(es, "kernel"@, opt_view(v));
        }
        let v = int_entry(self.maxmem);
        push_opt(out, Ghost(es), " = ", "; ", "maxmem", &v);
        proof {
            es = opt_push(es, "maxmem"@, opt_view(v));
        }
        let v = int_entry(self.maxvcpus);
        push_opt(out, Ghost(es), " = ", "; ", "maxvcpus", &v);
        proof {
            es = opt_push(es, "maxvcpus"@, opt_view(v));
        }
        let v = int_entry(self.memory);
        push_opt(out, Ghost(es), " = ", "; ", "memory", &v);
        proof {
            es = opt_push(es, "memory"@, opt_view(v));
        }
        let v = token_entry(self.name.as_str());
        push_opt(out, Ghost(es), " = ", "; ", "name", &v);
        proof {
            es = opt_push(es, "name"@, opt_view(v));
        }
        assert(es == cfg_part1(c, es0));
    }

    fn render_part2(&self, out: &mut Vec<char>, Ghost(es0): Ghost<Entries>)
        requires
            old(out)@ == kv_join(es0, " = "@, "; "@),
        ensures
            final(out)@ == kv_join(cfg_part2(*self, es0), " = "@, "; "@),
    {
        let ghost c = *self;
        let ghost mut es = es0;
        proof {
            reveal_strlit(" = ");
        }
        let v = action_entry(&self.on_crash);
        push_opt(out, Ghost(es), " = ", "; ", "on_crash", &v);
        proof {
            es = opt_push(es, "on_crash"@, opt_view(v));
        }
        let v = action_entry(&self.on_poweroff);
        push_opt(out, Ghost(es), " = ", "; ", "on_poweroff", &v);
        proof {
            es = opt_push(es, "on_poweroff"@, opt_view(v));
        }
        let v = action_entry(&self.on_reboot);
        push_opt(out, Ghost(es), " = ", "; ", "on_reboot", &v);
        proof {
            es = opt_push(es, "on_reboot"@, opt_view(v));
        }
        let v = action_entry(&self.on_soft_reset);
        push_opt(out, Ghost(es), " = ", "; ", "on_soft_reset", &v);
        proof {
            es = opt_push(es, "on_soft_reset"@, opt_view(v));
        }
        let v = action_entry(&self.on_watchdog);
        push_opt(out, Ghost(es), " = ", "; ", "on_watchdog", &v);
        proof {
            es = opt_push(es, "on_watchdog"@, opt_view(v));
        }
        let v = json_entry(&self.pool);
        push_opt(out, Ghost(es), " = ", "; ", "pool", &v);
        proof {
            es = opt_push(es, "pool"@, opt_view(v));
        }
        assert(es == cfg_part2(c, es0));
    }

    fn render_part3(&self, out: &mut Vec<char>, Ghost(es0): Ghost<Entries>)
        requires
            old(out)@ == kv_join(es0, " = "@, "; "@),
        ensures
            final(out)@ == kv_join(cfg_part3(*self, es0), " = "@, "; "@),
    {
        let ghost c = *self;
        let ghost mut es = es0;
        proof {
            reveal_strlit(" = ");
        }
        let v = json_entry(&self.ramdisk);
        push_opt(out, Ghost(es), " = ", "; ", "ramdisk", &v);
        proof {
            es = opt_push(es, "ramdisk"@, opt_view(v));
        }
        let v = json_entry(&self.root);
        push_opt(out, Ghost(es), " = ", "; ", "root", &v);
        proof {
            es = opt_push(es, "root"@, opt_view(v));
        }
        let v = serial_entry(&self.serial);
        push_opt(out, Ghost(es), " = ", "; ", "serial", &v);
        proof {
            es = opt_push(es, "serial"@, opt_view(v));
        }
        let v = token_entry(self.type_.token());
        push_opt(out, Ghost(es), " = ", "; ", "type", &v);
        proof {
            es = opt_push(es, "type"@, opt_view(v));
        }
        let v = usb_entry(&self.usbdevice);
        push_opt(out, Ghost(es), " = ", "; ", "usbdevice", &v);
        proof {
            es = opt_push(es, "usbdevice"@, opt_view(v));
        }
        let v = int_entry(self.vcpus);
        push_opt(out, Ghost(es), " = ", "; ", "vcpus", &v);
        proof {
            es = opt_push(es, "vcpus"@, opt_view(v));
        }
        assert(es == cfg_part3(c, es0));
    }

    fn render_part4(&self, out: &mut Vec<char>, Ghost(es0): Ghost<Entries>)
        requires
            old(out)@ == kv_join(es0, " = "@, "; "@),
        ensures
            final(out)@ == kv_join(cfg_part4(*self, es0), " = "@, "; "@),
    {
        let ghost c = *self;
        let ghost mut es = es0;
        proof {
            reveal_strlit(" = ");
        }
        let v = vga_entry(&self.vga);
        push_opt(out, Ghost(es), " = ", "; ", "vga", &v);
        proof {
            es = opt_push(es, "vga"@, opt_view(v));
        }
        let v = size_entry(self.videoram);
        push_opt(out, Ghost(es), " = ", "; ", "videoram", &v);
        proof {
            es = opt_push(es, "videoram"@, opt_view(v));
        }
        let v = vif_entry(&self.vif);
        push_opt(out, Ghost(es), " = ", "; ", "vif", &v);
        proof {
            es = opt_push(es, "vif"@, opt_view(v));
        }
        let v = switch_entry(self.vnc);
        push_opt(out, Ghost(es), " = ", "; ", "vnc", &v);
        proof {
            es = opt_push(es, "vnc"@, opt_view(v));
        }
        let v = listen_entry(&self.vnclisten);
        push_opt(out, Ghost(es), " = ", "; ", "vnclisten", &v);
        proof {
            es = opt_push(es, "vnclisten"@, opt_view(v));
        }
        let v = vnuma_entry(&self.vnuma);
        push_opt(out, Ghost(es), " = ", "; ", "vnuma", &v);
        proof {
            es = opt_push(es, "vnuma"@, opt_view(v));
        }
        assert(es == cfg_part4(c, es0));
    }

    /// Renders the configuration.
    pub fn to_string(&self) -> (r: String)
        ensures
            r@ == self.text(),
    {
        let mut t: Vec<char> = Vec::new();
        let ghost mut e = Seq::<(Seq<char>, Seq<char>)>::empty();
        self.render_part0(&mut t, Ghost(e));
        proof {
            e = cfg_part0(*self, e);
        }
        self.render_part1(&mut t, Ghost(e));
        proof {
            e = cfg_part1(*self, e);
        }
        self.render_part2(&mut t, Ghost(e));
        proof {
            e = cfg_part2(*self, e);
        }
        self.render_part3(&mut t, Ghost(e));
        proof {
            e = cfg_part3(*self, e);
        }
        self.render_part4(&mut t, Ghost(e));
        proof {
            e = cfg_part4(*self, e);
        }
        string_of(&t)
    }
}

/// Builder of [`XlCfg`]. The name is required; the guest type defaults to HVM; every
/// other field is absent or empty until set.
#[derive(Clone, Debug)]
pub struct XlCfgBuilder {
    pub name: Option<String>,
    pub type_: Option<XlGuestType>,
    pub pool: Option<String>,
    pub vcpus: Option<i64>,
    pub maxvcpus: Option<i64>,
    pub cpus: Option<String>,
    pub cpus_soft: Option<String>,
    pub cpu_weight: Option<i64>,
    pub cap: Option<i64>,
    pub memory: Option<i64>,
    pub maxmem: Option<i64>,
    pub vnuma: Option<Vec<Vec<String>>>,
    pub on_poweroff: Option<EventAction>,
    pub on_reboot: Option<EventAction>,
    pub on_watchdog: Option<EventAction>,
    pub on_crash: Option<EventAction>,
    pub on_soft_reset: Option<EventAction>,
    pub kernel: Option<String>,
    pub ramdisk: Option<String>,
    pub cmdline: Option<String>,
    pub root: Option<String>,
    pub extra: Option<String>,
    pub disk: Vec<XlDiskCfg>,
    pub vif: Vec<XlNetCfg>,
    pub usbdevice: Vec<String>,
    pub vga: Option<XlVgaDev>,
    pub videoram: Option<u32>,
    pub vnc: Option<bool>,
    pub vnclisten: Option<(Ipv4Addr, u16)>,
    pub serial: Option<XlSerialDev>,
}

impl XlCfgBuilder {
    /// A builder with nothing set.
    pub fn default() -> (r: XlCfgBuilder)
        ensures
            r.name is None,
            r.type_ is None,
            r.pool is None,
            r.vcpus is None,
            r.maxvcpus is None,
            r.cpus is None,
            r.cpus_soft is None,
            r.cpu_weight is None,
            r.cap is None,
            r.memory is None,
            r.maxmem is None,
            r.vnuma is None,
            r.on_poweroff is None,
            r.on_reboot is None,
            r.on_watchdog is None,
            r.on_crash is None,
            r.on_soft_reset is None,
            r.kernel is None,
            r.ramdisk is None,
            r.cmdline is None,
            r.root is None,
            r.extra is None,
            r.disk@.len() == 0,
            r.vif@.len() == 0,
            r.usbdevice@.len() == 0,
            r.vga is None,
            r.videoram is None,
            r.vnc is None,
            r.vnclisten is None,
            r.serial is None,
    {
        XlCfgBuilder {
            name: None,
            type_: None,
            pool: None,
            vcpus: None,
            maxvcpus: None,
            cpus: None,
            cpus_soft: None,
            cpu_weight: None,
            cap: None,
            memory: None,
            maxmem: None,
            vnuma: None,
            on_poweroff: None,
            on_reboot: None,
            on_watchdog: None,
            on_crash: None,
            on_soft_reset: None,
            kernel: None,
            ramdisk: None,
            cmdline: None,
            root: None,
            extra: None,
            disk: Vec::new(),
            vif: Vec::new(),
            usbdevice: Vec::new(),
            vga: None,
            videoram: None,
            vnc: None,
            vnclisten: None,
            serial: None,
        }
    }

    pub fn name(self, v: String) -> (r: XlCfgBuilder)
        ensures
            r == (XlCfgBuilder { name: Some(v), ..self }),
    {
        XlCfgBuilder { name: Some(v), ..self }
    }

    pub fn type_(self, v: XlGuestType) -> (r: XlCfgBuilder)
        ensures
            r == (XlCfgBuilder { type_: Some(v), ..self }),
    {
        XlCfgBuilder { type_: Some(v), ..self }
    }

    pub fn pool(self, v: String) -> (r: XlCfgBuilder)
        ensures
            r == (XlCfgBuilder { pool: Some(v), ..self }),
    {
        XlCfgBuilder { pool: Some(v), ..self }
    }

    pub fn vcpus(self, v: i64) -> (r: XlCfgBuilder)
        ensures
            r == (XlCfgBuilder { vcpus: Some(v), ..self }),
    {
        XlCfgBuilder { vcpus: Some(v), ..self }
    }

    pub fn maxvcpus(self, v: i64) -> (r: XlCfgBuilder)
        ensures
            r == (XlCfgBuilder { maxvcpus: Some(v), ..self }),
    {
        XlCfgBuilder { maxvcpus: Some(v), ..self }
    }

    pub fn cpus(self, v: String) -> (r: XlCfgBuilder)
        ensures
            r == (XlCfgBuilder { cpus: Some(v), ..self }),
    {
        XlCfgBuilder { cpus: Some(v), ..self }
    }

    pub fn cpus_soft(self, v: String) -> (r: XlCfgBuilder)
        ensures
            r == (XlCfgBuilder { cpus_soft: Some(v), ..self }),
    {
        XlCfgBuilder { cpus_soft: Some(v), ..self }
    }

    pub fn cpu_weight(self, v: i64) -> (r: XlCfgBuilder)
        ensures
            r == (XlCfgBuilder { cpu_weight: Some(v), ..self }),
    {
        XlCfgBuilder { cpu_weight: Some(v), ..self }
    }

    pub fn cap(self, v: i64) -> (r: XlCfgBuilder)
        ensures
            r == (XlCfgBuilder { cap: Some(v), ..self }),
    {
        XlCfgBuilder { cap: Some(v), ..self }
    }

    pub fn memory(self, v: i64) -> (r: XlCfgBuilder)
        ensures
            r == (XlCfgBuilder { memory: Some(v), ..self }),
    {
        XlCfgBuilder { memory: Some(v), ..self }
    }

    pub fn maxmem(self, v: i64) -> (r: XlCfgBuilder)
        ensures
            r == (XlCfgBuilder { maxmem: Some(v), ..self }),
    {
        XlCfgBuilder { maxmem: Some(v), ..self }
    }

    pub fn vnuma(self, v: Vec<Vec<String>>) -> (r: XlCfgBuilder)
        ensures
            r == (XlCfgBuilder { vnuma: Some(v), ..self }),
    {
        XlCfgBuilder { vnuma: Some(v), ..self }
    }

    pub fn on_poweroff(self, v: EventAction) -> (r: XlCfgBuilder)
        ensures
            r == (XlCfgBuilder { on_poweroff: Some(v), ..self }),
    {
        XlCfgBuilder { on_poweroff: Some(v), ..self }
    }

    pub fn on_reboot(self, v: EventAction) -> (r: XlCfgBuilder)
        ensures
            r == (XlCfgBuilder { on_reboot: Some(v), ..self }),
    {
        XlCfgBuilder { on_reboot: Some(v), ..self }
    }

    pub fn on_watchdog(self, v: EventAction) -> (r: XlCfgBuilder)
        ensures
            r == (XlCfgBuilder { on_watchdog: Some(v), ..self }),
    {
        XlCfgBuilder { on_watchdog: Some(v), ..self }
    }

    pub fn on_crash(self, v: EventAction) -> (r: XlCfgBuilder)
        ensures
            r == (XlCfgBuilder { on_crash: Some(v), ..self }),
    {
        XlCfgBuilder { on_crash: Some(v), ..self }
    }

    pub fn on_soft_reset(self, v: EventAction) -> (r: XlCfgBuilder)
        ensures
            r == (XlCfgBuilder { on_soft_reset: Some(v), ..self }),
    {
        XlCfgBuilder { on_soft_reset: Some(v), ..self }
    }

    pub fn kernel(self, v: String) -> (r: XlCfgBuilder)
        ensures
            r == (XlCfgBuilder { kernel: Some(v), ..self }),
    {
        XlCfgBuilder { kernel: Some(v), ..self }
    }

    pub fn ramdisk(self, v: String) -> (r: XlCfgBuilder)
        ensures
            r == (XlCfgBuilder { ramdisk: Some(v), ..self }),
    {
        XlCfgBuilder { ramdisk: Some(v), ..self }
    }

    pub fn cmdline(self, v: String) -> (r: XlCfgBuilder)
        ensures
            r == (XlCfgBuilder { cmdline: Some(v), ..self }),
    {
        XlCfgBuilder { cmdline: Some(v), ..self }
    }

    pub fn root(self, v: String) -> (r: XlCfgBuilder)
        ensures
            r == (XlCfgBuilder { root: Some(v), ..self }),
    {
        XlCfgBuilder { root: Some(v), ..self }
    }

    pub fn extra(self, v: String) -> (r: XlCfgBuilder)
        ensures
            r == (XlCfgBuilder { extra: Some(v), ..self }),
    {
        XlCfgBuilder { extra: Some(v), ..self }
    }

    pub fn disk(self, v: Vec<XlDiskCfg>) -> (r: XlCfgBuilder)
        ensures
            r == (XlCfgBuilder { disk: v, ..self }),
    {
        XlCfgBuilder { disk: v, ..self }
    }

    pub fn vif(self, v: Vec<XlNetCfg>) -> (r: XlCfgBuilder)
        ensures
            r == (XlCfgBuilder { vif: v, ..self }),
    {
        XlCfgBuilder { vif: v, ..self }
    }

    pub fn usbdevice(self, v: Vec<String>) -> (r: XlCfgBuilder)
        ensures
            r == (XlCfgBuilder { usbdevice: v, ..self }),
    {
        XlCfgBuilder { usbdevice: v, ..self }
    }

    pub fn vga(self, v: XlVgaDev) -> (r: XlCfgBuilder)
        ensures
            r == (XlCfgBuilder { vga: Some(v), ..self }),
    {
        XlCfgBuilder { vga: Some(v), ..self }
    }

    pub fn videoram(self, v: u32) -> (r: XlCfgBuilder)
        ensures
            r == (XlCfgBuilder { videoram: Some(v), ..self }),
    {
        XlCfgBuilder { videoram: Some(v), ..self }
    }

    pub fn vnc(self, v: bool) -> (r: XlCfgBuilder)
        ensures
            r == (XlCfgBuilder { vnc: Some(v), ..self }),
    {
        XlCfgBuilder { vnc: Some(v), ..self }
    }

    pub fn vnclisten(self, v: (Ipv4Addr, u16)) -> (r: XlCfgBuilder)
        ensures
            r == (XlCfgBuilder { vnclisten: Some(v), ..self }),
    {
        XlCfgBuilder { vnclisten: Some(v), ..self }
    }

    pub fn serial(self, v: XlSerialDev) -> (r: XlCfgBuilder)
        ensures
            r == (XlCfgBuilder { serial: Some(v), ..self }),
    {
        XlCfgBuilder { serial: Some(v), ..self }
    }

    /// Builds the configuration. Fails with `MissingRequiredField` when the name is unset
    /// or empty.
    pub fn build(self) -> (r: Result<XlCfg, ConfigError>)
        ensures
            match self.name {
                Some(n) if n@.len() > 0 => r == Ok::<XlCfg, ConfigError>(
                    XlCfg {
                        name: n,
                        type_: match self.type_ {
                            Some(t) => t,
                            None => XlGuestType::HVM,
                        },
                        pool: self.pool,
                        vcpus: self.vcpus,
                        maxvcpus: self.maxvcpus,
                        cpus: self.cpus,
                        cpus_soft: self.cpus_soft,
                        cpu_weight: self.cpu_weight,
                        cap: self.cap,
                        memory: self.memory,
                        maxmem: self.maxmem,
                        vnuma: self.vnuma,
                        on_poweroff: self.on_poweroff,
                        on_reboot: self.on_reboot,
                        on_watchdog: self.on_watchdog,
                        on_crash: self.on_crash,
                        on_soft_reset: self.on_soft_reset,
                        kernel: self.kernel,
                        ramdisk: self.ramdisk,
                        cmdline: self.cmdline,
                        root: self.root,
                        extra: self.extra,
                        disk: self.disk,
                        vif: self.vif,
                        usbdevice: self.usbdevice,
                        vga: self.vga,
                        videoram: self.videoram,
                        vnc: self.vnc,
                        vnclisten: self.vnclisten,
                        serial: self.serial,
                    },
                ),
                _ => r matches Err(ConfigError::MissingRequiredField(f)) && f@ == "name"@,
            },
    {
        let name = match self.name {
            Some(n) => n,
            None => {
                return Err(ConfigError::MissingRequiredField(String::from_str("name")));
            },
        };
        if name.as_str().unicode_len() == 0 {
            return Err(ConfigError::MissingRequiredField(String::from_str("name")));
        }
        Ok(
            XlCfg {
                name,
                type_: match self.type_ {
                    Some(t) => t,
                    None => XlGuestType::HVM,
                },
                pool: self.pool,
                vcpus: self.vcpus,
                maxvcpus: self.maxvcpus,
                cpus: self.cpus,
                cpus_soft: self.cpus_soft,
                cpu_weight: self.cpu_weight,
                cap: self.cap,
                memory: self.memory,
                maxmem: self.maxmem,
                vnuma: self.vnuma,
                on_poweroff: self.on_poweroff,
                on_reboot: self.on_reboot,
                on_watchdog: self.on_watchdog,
                on_crash: self.on_crash,
                on_soft_reset: self.on_soft_reset,
                kernel: self.kernel,
                ramdisk: self.ramdisk,
                cmdline: self.cmdline,
                root: self.root,
                extra: self.extra,
                disk: self.disk,
                vif: self.vif,
                usbdevice: self.usbdevice,
                vga: self.vga,
                videoram: self.videoram,
                vnc: self.vnc,
                vnclisten: self.vnclisten,
                serial: self.serial,
            },
        )
    }
}

/// A disk list of one disk renders as a JSON array of one string: the disk's own
/// rendering, quoted.
pub proof fn lemma_single_disk_list(d: XlDiskCfg)
    ensures
        json_array(seq![d].map_values(|x: XlDiskCfg| x.text())) == "["@ + json_str(d.text()) + "]"@,
{
    let items = seq![d].map_values(|x: XlDiskCfg| x.text());
    assert(items.map_values(|t: Seq<char>| json_str(t)) =~= seq![json_str(d.text())]);
}

proof fn lemma_key_order()
    ensures
        lex_lt("cap"@, "cmdline"@),
        lex_lt("cmdline"@, "cpu_weight"@),
        lex_lt("cpu_weight"@, "cpus"@),
        lex_lt("cpus"@, "cpus_soft"@),
        lex_lt("cpus_soft"@, "disk"@),
        lex_lt("disk"@, "extra"@),
        lex_lt("extra"@, "kernel"@),
        lex_lt("kernel"@, "maxmem"@),
        lex_lt("maxmem"@, "maxvcpus"@),
        lex_lt("maxvcpus"@, "memory"@),
        lex_lt("memory"@, "name"@),
        lex_lt("name"@, "on_crash"@),
        lex_lt("on_crash"@, "on_poweroff"@),
        lex_lt("on_poweroff"@, "on_reboot"@),
        lex_lt("on_reboot"@, "on_soft_reset"@),
        lex_lt("on_soft_reset"@, "on_watchdog"@),
        lex_lt("on_watchdog"@, "pool"@),
        lex_lt("pool"@, "ramdisk"@),
        lex_lt("ramdisk"@, "root"@),
        lex_lt("root"@, "serial"@),
        lex_lt("serial"@, "type"@),
        lex_lt("type"@, "usbdevice"@),
        lex_lt("usbdevice"@, "vcpus"@),
        lex_lt("vcpus"@, "vga"@),
        lex_lt("vga"@, "videoram"@),
        lex_lt("videoram"@, "vif"@),
        lex_lt("vif"@, "vnc"@),
        lex_lt("vnc"@, "vnclisten"@),
        lex_lt("vnclisten"@, "vnuma"@),
{
    reveal_strlit("cap");
    reveal_strlit("cmdline");
    reveal_strlit("cpu_weight");
    reveal_strlit("cpus");
    reveal_strlit("cpus_soft");
    reveal_strlit("disk");
    reveal_strlit("extra");
    reveal_strlit("kernel");
    reveal_strlit("maxmem");
    reveal_strlit("maxvcpus");
    reveal_strlit("memory");
    reveal_strlit("name");
    reveal_strlit("on_crash");
    reveal_strlit("on_poweroff");
    reveal_strlit("on_reboot");
    reveal_strlit("on_soft_reset");
    reveal_strlit("on_watchdog");
    reveal_strlit("pool");
    reveal_strlit("ramdisk");
    reveal_strlit("root");
    reveal_strlit("serial");
    reveal_strlit("type");
    reveal_strlit("usbdevice");
    reveal_strlit("vcpus");
    reveal_strlit("vga");
    reveal_strlit("videoram");
    reveal_strlit("vif");
    reveal_strlit("vnc");
    reveal_strlit("vnclisten");
    reveal_strlit("vnuma");
    reveal_with_fuel(lex_lt, 12);
}

proof fn lemma_part0_sorted(c: XlCfg, es: Entries, b: Seq<char>)
    requires
        sorted_up_to(es, b),
        lex_lt(b, "cap"@),
    ensures
        sorted_up_to(cfg_part0(c, es), "disk"@),
{
    lemma_key_order();
    let e0 = opt_push(es, "cap"@, int_value(c.cap));
    lemma_push_sorted(es, b, "cap"@, int_value(c.cap));
    let e1 = opt_push(e0, "cmdline"@, json_value(c.cmdline));
    lemma_push_sorted(e0, "cap"@, "cmdline"@, json_value(c.cmdline));
    let e2 = opt_push(e1, "cpu_weight"@, int_value(c.cpu_weight));
    lemma_push_sorted(e1, "cmdline"@, "cpu_weight"@, int_value(c.cpu_weight));
    let e3 = opt_push(e2, "cpus"@, json_value(c.cpus));
    lemma_push_sorted(e2, "cpu_weight"@, "cpus"@, json_value(c.cpus));
    let e4 = opt_push(e3, "cpus_soft"@, json_value(c.cpus_soft));
    lemma_push_sorted(e3, "cpus"@, "cpus_soft"@, json_value(c.cpus_soft));
    let e5 = opt_push(e4, "disk"@, disk_value(c.disk@));
    lemma_push_sorted(e4, "cpus_soft"@, "disk"@, disk_value(c.disk@));
}

proof fn lemma_part1_sorted(c: XlCfg, es: Entries, b: Seq<char>)
    requires
        sorted_up_to(es, b),
        lex_lt(b, "extra"@),
    ensures
        sorted_up_to(cfg_part1(c, es), "name"@),
{
    lemma_key_order();
    let e0 = opt_push(es, "extra"@, json_value(c.extra));
    lemma_push_sorted(es, b, "extra"@, json_value(c.extra));
    let e1 = opt_push(e0, "kernel"@, json_value(c.kernel));
    lemma_push_sorted(e0, "extra"@, "kernel"@, json_value(c.kernel));
    let e2 = opt_push(e1, "maxmem"@, int_value(c.maxmem));
    lemma_push_sorted(e1, "kernel"@, "maxmem"@, int_value(c.maxmem));
    let e3 = opt_push(e2, "maxvcpus"@, int_value(c.maxvcpus));
    lemma_push_sorted(e2, "maxmem"@, "maxvcpus"@, int_value(c.maxvcpus));
    let e4 = opt_push(e3, "memory"@, int_value(c.memory));
    lemma_push_sorted(e3, "maxvcpus"@, "memory"@, int_value(c.memory));
    let e5 = opt_push(e4, "name"@, Some(json_str(c.name@)));
    lemma_push_sorted(e4, "memory"@, "name"@, Some(json_str(c.name@)));
}

proof fn lemma_part2_sorted(c: XlCfg, es: Entries, b: Seq<char>)
    requires
        sorted_up_to(es, b),
        lex_lt(b, "on_crash"@),
    ensures
        sorted_up_to(cfg_part2(c, es), "pool"@),
{
    lemma_key_order();
    let e0 = opt_push(es, "on_crash"@, action_value(c.on_crash));
    lemma_push_sorted(es, b, "on_crash"@, action_value(c.on_crash));
    let e1 = opt_push(e0, "on_poweroff"@, action_value(c.on_poweroff));
    lemma_push_sorted(e0, "on_crash"@, "on_poweroff"@, action_value(c.on_poweroff));
    let e2 = opt_push(e1, "on_reboot"@, action_value(c.on_reboot));
    lemma_push_sorted(e1, "on_poweroff"@, "on_reboot"@, action_value(c.on_reboot));
    let e3 = opt_push(e2, "on_soft_reset"@, action_value(c.on_soft_reset));
    lemma_push_sorted(e2, "on_reboot"@, "on_soft_reset"@, action_value(c.on_soft_reset));
    let e4 = opt_push(e3, "on_watchdog"@, action_value(c.on_watchdog));
    lemma_push_sorted(e3, "on_soft_reset"@, "on_watchdog"@, action_value(c.on_watchdog));
    let e5 = opt_push(e4, "pool"@, json_value(c.pool));
    lemma_push_sorted(e4, "on_watchdog"@, "pool"@, json_value(c.pool));
}

proof fn lemma_part3_sorted(c: XlCfg, es: Entries, b: Seq<char>)
    requires
        sorted_up_to(es, b),
        lex_lt(b, "ramdisk"@),
    ensures
        sorted_up_to(cfg_part3(c, es), "vcpus"@),
{
    lemma_key_order();
    let e0 = opt_push(es, "ramdisk"@, json_value(c.ramdisk));
    lemma_push_sorted(es, b, "ramdisk"@, json_value(c.ramdisk));
    let e1 = opt_push(e0, "root"@, json_value(c.root));
    lemma_push_sorted(e0, "ramdisk"@, "root"@, json_value(c.root));
    let e2 = opt_push(e1, "serial"@, serial_value(c.serial));
    lemma_push_sorted(e1, "root"@, "serial"@, serial_value(c.serial));
    let e3 = opt_push(e2, "type"@, Some(json_str(c.type_.text())));
    lemma_push_sorted(e2, "serial"@, "type"@, Some(json_str(c.type_.text())));
    let e4 = opt_push(e3, "usbdevice"@, usb_value(c.usbdevice@));
    lemma_push_sorted(e3, "type"@, "usbdevice"@, usb_value(c.usbdevice@));
    let e5 = opt_push(e4, "vcpus"@, int_value(c.vcpus));
    lemma_push_sorted(e4, "usbdevice"@, "vcpus"@, int_value(c.vcpus));
}

proof fn lemma_part4_sorted(c: XlCfg, es: Entries, b: Seq<char>)
    requires
        sorted_up_to(es, b),
        lex_lt(b, "vga"@),
    ensures
        sorted_up_to(cfg_part4(c, es), "vnuma"@),
{
    lemma_key_order();
    let e0 = opt_push(es, "vga"@, vga_value(c.vga));
    lemma_push_sorted(es, b, "vga"@, vga_value(c.vga));
    let e1 = opt_push(e0, "videoram"@, size_value(c.videoram));
    lemma_push_sorted(e0, "vga"@, "videoram"@, size_value(c.videoram));
    let e2 = opt_push(e1, "vif"@, vif_value(c.vif@));
    lemma_push_sorted(e1, "videoram"@, "vif"@, vif_value(c.vif@));
    let e3 = opt_push(e2, "vnc"@, switch_value(c.vnc));
    lemma_push_sorted(e2, "vif"@, "vnc"@, switch_value(c.vnc));
    let e4 = opt_push(e3, "vnclisten"@, listen_value(c.vnclisten));
    lemma_push_sorted(e3, "vnc"@, "vnclisten"@, listen_value(c.vnclisten));
    let e5 = opt_push(e4, "vnuma"@, vnuma_value(c.vnuma));
    lemma_push_sorted(e4, "vnclisten"@, "vnuma"@, vnuma_value(c.vnuma));
}

/// Rendering is a function of the configuration's fields alone, and its entries stand
/// in strictly increasing alphabetical order of their keys, whatever order the fields
/// were set in.
pub proof fn lemma_render_sorted(c: XlCfg, d: XlCfg)
    ensures
        keys_sorted(cfg_entries(c)),
        c == d ==> c.text() == d.text(),
{
    let e = Seq::<(Seq<char>, Seq<char>)>::empty();
    reveal_strlit("");
    reveal_strlit("cap");
    lemma_key_order();
    lemma_part0_sorted(c, e, ""@);
    lemma_part1_sorted(c, cfg_part0(c, e), "disk"@);
    lemma_part2_sorted(c, cfg_part1(c, cfg_part0(c, e)), "name"@);
    lemma_part3_sorted(c, cfg_part2(c, cfg_part1(c, cfg_part0(c, e))), "pool"@);
    lemma_part4_sorted(c, cfg_part3(c, cfg_part2(c, cfg_part1(c, cfg_part0(c, e)))), "vcpus"@);
}

} // verus!
