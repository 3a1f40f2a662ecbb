//! Node level types: versions, status, shells, subscriptions and package updates.
use vstd::prelude::*;
use vstd::std_specs::cmp::PartialEqSpecImpl;
use vstd::string::*;

use crate::text::str_eq;

verus! {

/// Object.
#[derive(Debug)]
pub struct AptUpdateInfo {
    pub arch: AptUpdateInfoArch,

    /// Package description.
    pub description: String,

    /// Version for which PVE has already sent an update notification for.
    pub notify_status: Option<String>,

    /// Old version currently installed.
    pub old_version: Option<String>,

    /// Package origin, e.g., 'Proxmox' or 'Debian'.
    pub origin: String,

    /// Package name.
    pub package: String,

    /// Package priority.
    pub priority: String,

    /// Package section.
    pub section: String,

    /// Package title.
    pub title: String,

    /// New version to be updated to.
    pub version: String,
}

/// Package Architecture.
#[derive(Clone, Debug)]
pub enum AptUpdateInfoArch {
    /// armhf.
    Armhf,
    /// arm64.
    Arm64,
    /// amd64.
    Amd64,
    /// ppc64el.
    Ppc64el,
    /// risc64.
    Risc64,
    /// s390x.
    S390x,
    /// Unknown variants for forward compatibility.
    UnknownEnumValue(String),
}

impl PartialEq for AptUpdateInfoArch {
    fn eq(&self, other: &Self) -> (r: bool) {
        match (self, other) {
            (AptUpdateInfoArch::Armhf, AptUpdateInfoArch::Armhf) => true,
            (AptUpdateInfoArch::Arm64, AptUpdateInfoArch::Arm64) => true,
            (AptUpdateInfoArch::Amd64, AptUpdateInfoArch::Amd64) => true,
            (AptUpdateInfoArch::Ppc64el, AptUpdateInfoArch::Ppc64el) => true,
            (AptUpdateInfoArch::Risc64, AptUpdateInfoArch::Risc64) => true,
            (AptUpdateInfoArch::S390x, AptUpdateInfoArch::S390x) => true,
            (AptUpdateInfoArch::UnknownEnumValue(a), AptUpdateInfoArch::UnknownEnumValue(b)) => *a == *b,
            _ => false,
        }
    }
}

impl PartialEqSpecImpl for AptUpdateInfoArch {
    open spec fn obeys_eq_spec() -> bool {
        true
    }

    open spec fn eq_spec(&self, other: &Self) -> bool {
        match (self, other) {
            (AptUpdateInfoArch::UnknownEnumValue(a), AptUpdateInfoArch::UnknownEnumValue(b)) => a@ == b@,
            _ => *self == *other,
        }
    }
}

impl std::str::FromStr for AptUpdateInfoArch {
    type Err = core::convert::Infallible;

    fn from_str(s: &str) -> (r: Result<Self, Self::Err>)
        ensures
            r matches Ok(v) && Self::parses_to(s@, v),
    {
        Ok(AptUpdateInfoArch::from_name(s))
    }
}

impl AptUpdateInfoArch {
    /// The name under which the API writes this value.
    pub open spec fn name(self) -> Seq<char> {
        match self {
            AptUpdateInfoArch::Armhf => "armhf"@,
            AptUpdateInfoArch::Arm64 => "arm64"@,
            AptUpdateInfoArch::Amd64 => "amd64"@,
            AptUpdateInfoArch::Ppc64el => "ppc64el"@,
            AptUpdateInfoArch::Risc64 => "risc64"@,
            AptUpdateInfoArch::S390x => "s390x"@,
            AptUpdateInfoArch::UnknownEnumValue(s) => s@,
        }
    }

    /// The known value that the API name `s` stands for, if any.
    pub open spec fn known(s: Seq<char>) -> Option<Self> {
        if s == "armhf"@ {
            Some(AptUpdateInfoArch::Armhf)
        }         else if s == "arm64"@ {
            Some(AptUpdateInfoArch::Arm64)
        }         else if s == "amd64"@ {
            Some(AptUpdateInfoArch::Amd64)
        }         else if s == "ppc64el"@ {
            Some(AptUpdateInfoArch::Ppc64el)
        }         else if s == "risc64"@ {
            Some(AptUpdateInfoArch::Risc64)
        }         else if s == "s390x"@ {
            Some(AptUpdateInfoArch::S390x)
        } else {
            None
        }
    }

    /// `v` is the value that reading the API name `s` gives.
    pub open spec fn parses_to(s: Seq<char>, v: Self) -> bool {
        match Self::known(s) {
            Some(k) => v == k,
            None => v matches AptUpdateInfoArch::UnknownEnumValue(t) && t@ == s,
        }
    }

    /// The API name of this value.
    pub fn to_string(&self) -> (r: String)
        ensures
            r@ == self.name(),
    {
        match self {
            AptUpdateInfoArch::Armhf => String::from_str("armhf"),
            AptUpdateInfoArch::Arm64 => String::from_str("arm64"),
            AptUpdateInfoArch::Amd64 => String::from_str("amd64"),
            AptUpdateInfoArch::Ppc64el => String::from_str("ppc64el"),
            AptUpdateInfoArch::Risc64 => String::from_str("risc64"),
            AptUpdateInfoArch::S390x => String::from_str("s390x"),
            AptUpdateInfoArch::UnknownEnumValue(s) => s.clone(),
        }
    }

    /// Reads an API name; a name that is not known is kept as an unknown value.
    pub fn from_name(s: &str) -> (r: Self)
        ensures
            Self::parses_to(s@, r),
    {
        if str_eq(s, "armhf") {
            AptUpdateInfoArch::Armhf
        }         else if str_eq(s, "arm64") {
            AptUpdateInfoArch::Arm64
        }         else if str_eq(s, "amd64") {
            AptUpdateInfoArch::Amd64
        }         else if str_eq(s, "ppc64el") {
            AptUpdateInfoArch::Ppc64el
        }         else if str_eq(s, "risc64") {
            AptUpdateInfoArch::Risc64
        }         else if str_eq(s, "s390x") {
            AptUpdateInfoArch::S390x
        } else {
            AptUpdateInfoArch::UnknownEnumValue(String::from_str(s))
        }
    }

    /// Each known value goes with the name the API uses for it: `armhf` for `Armhf`, `arm64` for `Arm64`, `amd64` for `Amd64`, and so on for every known value.
    /// `to_string` writes that name and `from_name` reads it as that value.
    pub proof fn lemma_api_names()
        ensures
            AptUpdateInfoArch::Armhf.name() == "armhf"@,
            Self::parses_to("armhf"@, AptUpdateInfoArch::Armhf),
            AptUpdateInfoArch::Arm64.name() == "arm64"@,
            Self::parses_to("arm64"@, AptUpdateInfoArch::Arm64),
            AptUpdateInfoArch::Amd64.name() == "amd64"@,
            Self::parses_to("amd64"@, AptUpdateInfoArch::Amd64),
            AptUpdateInfoArch::Ppc64el.name() == "ppc64el"@,
            Self::parses_to("ppc64el"@, AptUpdateInfoArch::Ppc64el),
            AptUpdateInfoArch::Risc64.name() == "risc64"@,
            Self::parses_to("risc64"@, AptUpdateInfoArch::Risc64),
            AptUpdateInfoArch::S390x.name() == "s390x"@,
            Self::parses_to("s390x"@, AptUpdateInfoArch::S390x),
    {
        Self::lemma_to_string_from_name(AptUpdateInfoArch::Armhf);
        Self::lemma_to_string_from_name(AptUpdateInfoArch::Arm64);
        Self::lemma_to_string_from_name(AptUpdateInfoArch::Amd64);
        Self::lemma_to_string_from_name(AptUpdateInfoArch::Ppc64el);
        Self::lemma_to_string_from_name(AptUpdateInfoArch::Risc64);
        Self::lemma_to_string_from_name(AptUpdateInfoArch::S390x);
    }

    /// Writing out a value that was read gives back the name that was read.
    pub proof fn lemma_from_name_to_string(s: Seq<char>, v: Self)
        requires
            Self::parses_to(s, v),
        ensures
            v.name() == s,
    {
    }

    /// Reading the name of a value gives back the value, unless the value is an
    /// unknown one that carries the name of a known one.
    pub proof fn lemma_to_string_from_name(v: Self)
        requires
            v is UnknownEnumValue ==> Self::known(v.name()) is None,
        ensures
            Self::parses_to(v.name(), v),
    {
        if !(v is UnknownEnumValue) {
            Self::lemma_known_names(v);
        }
    }

    /// The spelling of known names, character by character.
    proof fn lemma_name_spelling()
        ensures
            "armhf"@.len() == 5 && "armhf"@[0] == 'a' && "armhf"@[1] == 'r' && "armhf"@[2] == 'm' && "armhf"@[3] == 'h' && "armhf"@[4] == 'f',
            "arm64"@.len() == 5 && "arm64"@[0] == 'a' && "arm64"@[1] == 'r' && "arm64"@[2] == 'm' && "arm64"@[3] == '6' && "arm64"@[4] == '4',
            "amd64"@.len() == 5 && "amd64"@[0] == 'a' && "amd64"@[1] == 'm' && "amd64"@[2] == 'd' && "amd64"@[3] == '6' && "amd64"@[4] == '4',
            "ppc64el"@.len() == 7 && "ppc64el"@[0] == 'p' && "ppc64el"@[1] == 'p' && "ppc64el"@[2] == 'c' && "ppc64el"@[3] == '6' && "ppc64el"@[4] == '4' && "ppc64el"@[5] == 'e' && "ppc64el"@[6] == 'l',
            "risc64"@.len() == 6 && "risc64"@[0] == 'r' && "risc64"@[1] == 'i' && "risc64"@[2] == 's' && "risc64"@[3] == 'c' && "risc64"@[4] == '6' && "risc64"@[5] == '4',
            "s390x"@.len() == 5 && "s390x"@[0] == 's' && "s390x"@[1] == '3' && "s390x"@[2] == '9' && "s390x"@[3] == '0' && "s390x"@[4] == 'x',
    {
        broadcast use vstd::string::group_string_axioms;

        reveal_strlit("armhf");
        reveal_strlit("arm64");
        reveal_strlit("amd64");
        reveal_strlit("ppc64el");
        reveal_strlit("risc64");
        reveal_strlit("s390x");
    }

    proof fn lemma_known_names(v: Self)
        requires
            !(v is UnknownEnumValue),
        ensures
            Self::known(v.name()) == Some(v),
    {
        Self::lemma_name_spelling();
    }

}

/// Object.
#[derive(Debug)]
pub struct AptUpdateParams {
    /// Send notification about new packages.
    pub notify: Option<bool>,

    /// Only produces output suitable for logging, omitting progress indicators.
    pub quiet: Option<bool>,
}

/// Object.
#[derive(Debug)]
pub struct NodeShellTermproxy {
    pub cmd: Option<NodeShellTermproxyCmd>,

    /// Add parameters to a command. Encoded as null terminated strings.
    pub cmd_opts: Option<String>,
}

/// Run specific command or default to login (requires 'root@pam')
#[derive(Clone, Debug)]
pub enum NodeShellTermproxyCmd {
    /// ceph_install.
    CephInstall,
    /// login.
    Login,
    /// upgrade.
    Upgrade,
    /// Unknown variants for forward compatibility.
    UnknownEnumValue(String),
}

impl PartialEq for NodeShellTermproxyCmd {
    fn eq(&self, other: &Self) -> (r: bool) {
        match (self, other) {
            (NodeShellTermproxyCmd::CephInstall, NodeShellTermproxyCmd::CephInstall) => true,
            (NodeShellTermproxyCmd::Login, NodeShellTermproxyCmd::Login) => true,
            (NodeShellTermproxyCmd::Upgrade, NodeShellTermproxyCmd::Upgrade) => true,
            (NodeShellTermproxyCmd::UnknownEnumValue(a), NodeShellTermproxyCmd::UnknownEnumValue(b)) => *a == *b,
            _ => false,
        }
    }
}

impl PartialEqSpecImpl for NodeShellTermproxyCmd {
    open spec fn obeys_eq_spec() -> bool {
        true
    }

    open spec fn eq_spec(&self, other: &Self) -> bool {
        match (self, other) {
            (NodeShellTermproxyCmd::UnknownEnumValue(a), NodeShellTermproxyCmd::UnknownEnumValue(b)) => a@ == b@,
            _ => *self == *other,
        }
    }
}

impl Default for NodeShellTermproxyCmd {
    fn default() -> (r: Self)
        ensures
            r == NodeShellTermproxyCmd::Login,
    {
        NodeShellTermproxyCmd::Login
    }
}

impl std::str::FromStr for NodeShellTermproxyCmd {
    type Err = core::convert::Infallible;

    fn from_str(s: &str) -> (r: Result<Self, Self::Err>)
        ensures
            r matches Ok(v) && Self::parses_to(s@, v),
    {
        Ok(NodeShellTermproxyCmd::from_name(s))
    }
}

impl NodeShellTermproxyCmd {
    /// The name under which the API writes this value.
    pub open spec fn name(self) -> Seq<char> {
        match self {
            NodeShellTermproxyCmd::CephInstall => "ceph_install"@,
            NodeShellTermproxyCmd::Login => "login"@,
            NodeShellTermproxyCmd::Upgrade => "upgrade"@,
            NodeShellTermproxyCmd::UnknownEnumValue(s) => s@,
        }
    }

    /// The known value that the API name `s` stands for, if any.
    pub open spec fn known(s: Seq<char>) -> Option<Self> {
        if s == "ceph_install"@ {
            Some(NodeShellTermproxyCmd::CephInstall)
        }         else if s == "login"@ {
            Some(NodeShellTermproxyCmd::Login)
        }         else if s == "upgrade"@ {
            Some(NodeShellTermproxyCmd::Upgrade)
        } else {
            None
        }
    }

    /// `v` is the value that reading the API name `s` gives.
    pub open spec fn parses_to(s: Seq<char>, v: Self) -> bool {
        match Self::known(s) {
            Some(k) => v == k,
            None => v matches NodeShellTermproxyCmd::UnknownEnumValue(t) && t@ == s,
        }
    }

    /// The API name of this value.
    pub fn to_string(&self) -> (r: String)
        ensures
            r@ == self.name(),
    {
        match self {
            NodeShellTermproxyCmd::CephInstall => String::from_str("ceph_install"),
            NodeShellTermproxyCmd::Login => String::from_str("login"),
            NodeShellTermproxyCmd::Upgrade => String::from_str("upgrade"),
            NodeShellTermproxyCmd::UnknownEnumValue(s) => s.clone(),
        }
    }

    /// Reads an API name; a name that is not known is kept as an unknown value.
    pub fn from_name(s: &str) -> (r: Self)
        ensures
            Self::parses_to(s@, r),
    {
        if str_eq(s, "ceph_install") {
            NodeShellTermproxyCmd::CephInstall
        }         else if str_eq(s, "login") {
            NodeShellTermproxyCmd::Login
        }         else if str_eq(s, "upgrade") {
            NodeShellTermproxyCmd::Upgrade
        } else {
            NodeShellTermproxyCmd::UnknownEnumValue(String::from_str(s))
        }
    }

    /// Each known value goes with the name the API uses for it: `ceph_install` for `CephInstall`, `login` for `Login`, `upgrade` for `Upgrade`.
    /// `to_string` writes that name and `from_name` reads it as that value.
    pub proof fn lemma_api_names()
        ensures
            NodeShellTermproxyCmd::CephInstall.name() == "ceph_install"@,
            Self::parses_to("ceph_install"@, NodeShellTermproxyCmd::CephInstall),
            NodeShellTermproxyCmd::Login.name() == "login"@,
            Self::parses_to("login"@, NodeShellTermproxyCmd::Login),
            NodeShellTermproxyCmd::Upgrade.name() == "upgrade"@,
            Self::parses_to("upgrade"@, NodeShellTermproxyCmd::Upgrade),
    {
        Self::lemma_to_string_from_name(NodeShellTermproxyCmd::CephInstall);
        Self::lemma_to_string_from_name(NodeShellTermproxyCmd::Login);
        Self::lemma_to_string_from_name(NodeShellTermproxyCmd::Upgrade);
    }

    /// Writing out a value that was read gives back the name that was read.
    pub proof fn lemma_from_name_to_string(s: Seq<char>, v: Self)
        requires
            Self::parses_to(s, v),
        ensures
            v.name() == s,
    {
    }

    /// Reading the name of a value gives back the value, unless the value is an
    /// unknown one that carries the name of a known one.
    pub proof fn lemma_to_string_from_name(v: Self)
        requires
            v is UnknownEnumValue ==> Self::known(v.name()) is None,
        ensures
            Self::parses_to(v.name(), v),
    {
        if !(v is UnknownEnumValue) {
            Self::lemma_known_names(v);
        }
    }

    /// The spelling of known names, character by character.
    proof fn lemma_name_spelling()
        ensures
            "ceph_install"@.len() == 12 && "ceph_install"@[0] == 'c' && "ceph_install"@[1] == 'e' && "ceph_install"@[2] == 'p' && "ceph_install"@[3] == 'h' && "ceph_install"@[4] == '_' && "ceph_install"@[5] == 'i' && "ceph_install"@[6] == 'n' && "ceph_install"@[7] == 's' && "ceph_install"@[8] == 't' && "ceph_install"@[9] == 'a' && "ceph_install"@[10] == 'l' && "ceph_install"@[11] == 'l',
            "login"@.len() == 5 && "login"@[0] == 'l' && "login"@[1] == 'o' && "login"@[2] == 'g' && "login"@[3] == 'i' && "login"@[4] == 'n',
            "upgrade"@.len() == 7 && "upgrade"@[0] == 'u' && "upgrade"@[1] == 'p' && "upgrade"@[2] == 'g' && "upgrade"@[3] == 'r' && "upgrade"@[4] == 'a' && "upgrade"@[5] == 'd' && "upgrade"@[6] == 'e',
    {
        broadcast use vstd::string::group_string_axioms;

        reveal_strlit("ceph_install");
        reveal_strlit("login");
        reveal_strlit("upgrade");
    }

    proof fn lemma_known_names(v: Self)
        requires
            !(v is UnknownEnumValue),
        ensures
            Self::known(v.name()) == Some(v),
    {
        Self::lemma_name_spelling();
    }

}

/// Object.
#[derive(Debug)]
pub struct NodeShellTicket {
    /// port used to bind termproxy to
    pub port: i64,

    /// ticket used to verifiy websocket connection
    pub ticket: String,

    /// UPID for termproxy worker task
    pub upid: String,

    /// user
    pub user: String,
}

/// Meta-information about the boot mode.
#[derive(Debug)]
pub struct NodeStatusBootInfo {
    pub mode: NodeStatusBootInfoMode,

    /// System is booted in secure mode, only applicable for the "efi" mode.
    pub secureboot: Option<bool>,
}

/// Through which firmware the system got booted.
#[derive(Clone, Debug)]
pub enum NodeStatusBootInfoMode {
    /// efi.
    Efi,
    /// legacy-bios.
    LegacyBios,
    /// Unknown variants for forward compatibility.
    UnknownEnumValue(String),
}

impl PartialEq for NodeStatusBootInfoMode {
    fn eq(&self, other: &Self) -> (r: bool) {
        match (self, other) {
            (NodeStatusBootInfoMode::Efi, NodeStatusBootInfoMode::Efi) => true,
            (NodeStatusBootInfoMode::LegacyBios, NodeStatusBootInfoMode::LegacyBios) => true,
            (NodeStatusBootInfoMode::UnknownEnumValue(a), NodeStatusBootInfoMode::UnknownEnumValue(b)) => *a == *b,
            _ => false,
        }
    }
}

impl PartialEqSpecImpl for NodeStatusBootInfoMode {
    open spec fn obeys_eq_spec() -> bool {
        true
    }

    open spec fn eq_spec(&self, other: &Self) -> bool {
        match (self, other) {
            (NodeStatusBootInfoMode::UnknownEnumValue(a), NodeStatusBootInfoMode::UnknownEnumValue(b)) => a@ == b@,
            _ => *self == *other,
        }
    }
}

impl std::str::FromStr for NodeStatusBootInfoMode {
    type Err = core::convert::Infallible;

    fn from_str(s: &str) -> (r: Result<Self, Self::Err>)
        ensures
            r matches Ok(v) && Self::parses_to(s@, v),
    {
        Ok(NodeStatusBootInfoMode::from_name(s))
    }
}

impl NodeStatusBootInfoMode {
    /// The name under which the API writes this value.
    pub open spec fn name(self) -> Seq<char> {
        match self {
            NodeStatusBootInfoMode::Efi => "efi"@,
            NodeStatusBootInfoMode::LegacyBios => "legacy-bios"@,
            NodeStatusBootInfoMode::UnknownEnumValue(s) => s@,
        }
    }

    /// The known value that the API name `s` stands for, if any.
    pub open spec fn known(s: Seq<char>) -> Option<Self> {
        if s == "efi"@ {
            Some(NodeStatusBootInfoMode::Efi)
        }         else if s == "legacy-bios"@ {
            Some(NodeStatusBootInfoMode::LegacyBios)
        } else {
            None
        }
    }

    /// `v` is the value that reading the API name `s` gives.
    pub open spec fn parses_to(s: Seq<char>, v: Self) -> bool {
        match Self::known(s) {
            Some(k) => v == k,
            None => v matches NodeStatusBootInfoMode::UnknownEnumValue(t) && t@ == s,
        }
    }

    /// The API name of this value.
    pub fn to_string(&self) -> (r: String)
        ensures
            r@ == self.name(),
    {
        match self {
            NodeStatusBootInfoMode::Efi => String::from_str("efi"),
            NodeStatusBootInfoMode::LegacyBios => String::from_str("legacy-bios"),
            NodeStatusBootInfoMode::UnknownEnumValue(s) => s.clone(),
        }
    }

    /// Reads an API name; a name that is not known is kept as an unknown value.
    pub fn from_name(s: &str) -> (r: Self)
        ensures
            Self::parses_to(s@, r),
    {
        if str_eq(s, "efi") {
            NodeStatusBootInfoMode::Efi
        }         else if str_eq(s, "legacy-bios") {
            NodeStatusBootInfoMode::LegacyBios
        } else {
            NodeStatusBootInfoMode::UnknownEnumValue(String::from_str(s))
        }
    }

    /// Each known value goes with the name the API uses for it: `efi` for `Efi`, `legacy-bios` for `LegacyBios`.
    /// `to_string` writes that name and `from_name` reads it as that value.
    pub proof fn lemma_api_names()
        ensures
            NodeStatusBootInfoMode::Efi.name() == "efi"@,
            Self::parses_to("efi"@, NodeStatusBootInfoMode::Efi),
            NodeStatusBootInfoMode::LegacyBios.name() == "legacy-bios"@,
            Self::parses_to("legacy-bios"@, NodeStatusBootInfoMode::LegacyBios),
    {
        Self::lemma_to_string_from_name(NodeStatusBootInfoMode::Efi);
        Self::lemma_to_string_from_name(NodeStatusBootInfoMode::LegacyBios);
    }

    /// Writing out a value that was read gives back the name that was read.
    pub proof fn lemma_from_name_to_string(s: Seq<char>, v: Self)
        requires
            Self::parses_to(s, v),
        ensures
            v.name() == s,
    {
    }

    /// Reading the name of a value gives back the value, unless the value is an
    /// unknown one that carries the name of a known one.
    pub proof fn lemma_to_string_from_name(v: Self)
        requires
            v is UnknownEnumValue ==> Self::known(v.name()) is None,
        ensures
            Self::parses_to(v.name(), v),
    {
        if !(v is UnknownEnumValue) {
            Self::lemma_known_names(v);
        }
    }

    /// The spelling of known names, character by character.
    proof fn lemma_name_spelling()
        ensures
            "efi"@.len() == 3 && "efi"@[0] == 'e' && "efi"@[1] == 'f' && "efi"@[2] == 'i',
            "legacy-bios"@.len() == 11 && "legacy-bios"@[0] == 'l' && "legacy-bios"@[1] == 'e' && "legacy-bios"@[2] == 'g' && "legacy-bios"@[3] == 'a' && "legacy-bios"@[4] == 'c' && "legacy-bios"@[5] == 'y' && "legacy-bios"@[6] == '-' && "legacy-bios"@[7] == 'b' && "legacy-bios"@[8] == 'i' && "legacy-bios"@[9] == 'o' && "legacy-bios"@[10] == 's',
    {
        broadcast use vstd::string::group_string_axioms;

        reveal_strlit("efi");
        reveal_strlit("legacy-bios");
    }

    proof fn lemma_known_names(v: Self)
        requires
            !(v is UnknownEnumValue),
        ensures
            Self::known(v.name()) == Some(v),
    {
        Self::lemma_name_spelling();
    }

}

/// Object.
#[derive(Debug)]
pub struct NodeStatusCpuinfo {
    /// The number of physical cores of the CPU.
    pub cores: i64,

    /// The number of logical threads of the CPU.
    pub cpus: i64,

    /// The CPU model
    pub model: String,

    /// The number of logical threads of the CPU.
    pub sockets: i64,
}

/// Meta-information about the currently booted kernel of this node.
#[derive(Debug)]
pub struct NodeStatusCurrentKernel {
    /// Hardware (architecture) type
    pub machine: String,

    /// OS kernel release (e.g., "6.8.0")
    pub release: String,

    /// OS kernel name (e.g., "Linux")
    pub sysname: String,

    /// OS kernel version with build info
    pub version: String,
}

/// Object.
#[derive(Debug)]
pub struct NodeStatusMemory {
    /// The available memory in bytes.
    pub available: Option<i64>,

    /// The free memory in bytes.
    pub free: i64,

    /// The total memory in bytes.
    pub total: i64,

    /// The used memory in bytes.
    pub used: i64,
}

/// Object.
#[derive(Debug)]
pub struct NodeStatusRootfs {
    /// The available bytes in the root filesystem.
    pub avail: i64,

    /// The free bytes on the root filesystem.
    pub free: i64,

    /// The total size of the root filesystem in bytes.
    pub total: i64,

    /// The used bytes in the root filesystem.
    pub used: i64,
}

/// Object.
#[derive(Debug)]
pub struct NodeSubscriptionInfo {
    /// Timestamp of the last check done.
    pub checktime: Option<i64>,

    /// The subscription key, if set and permitted to access.
    pub key: Option<String>,

    /// A short code for the subscription level.
    pub level: Option<String>,

    /// A more human readable status message.
    pub message: Option<String>,

    /// Next due date of the set subscription.
    pub nextduedate: Option<String>,

    /// Human readable productname of the set subscription.
    pub productname: Option<String>,

    /// Register date of the set subscription.
    pub regdate: Option<String>,

    /// The server ID, if permitted to access.
    pub serverid: Option<String>,

    /// Signature for offline keys
    pub signature: Option<String>,

    /// The number of sockets for this host.
    pub sockets: Option<i64>,

    pub status: NodeSubscriptionInfoStatus,

    /// URL to the web shop.
    pub url: Option<String>,
}

/// The current subscription status.
#[derive(Clone, Debug)]
pub enum NodeSubscriptionInfoStatus {
    /// new.
    New,
    /// notfound.
    NotFound,
    /// active.
    Active,
    /// invalid.
    Invalid,
    /// expired.
    Expired,
    /// suspended.
    Suspended,
    /// Unknown variants for forward compatibility.
    UnknownEnumValue(String),
}

impl PartialEq for NodeSubscriptionInfoStatus {
    fn eq(&self, other: &Self) -> (r: bool) {
        match (self, other) {
            (NodeSubscriptionInfoStatus::New, NodeSubscriptionInfoStatus::New) => true,
            (NodeSubscriptionInfoStatus::NotFound, NodeSubscriptionInfoStatus::NotFound) => true,
            (NodeSubscriptionInfoStatus::Active, NodeSubscriptionInfoStatus::Active) => true,
            (NodeSubscriptionInfoStatus::Invalid, NodeSubscriptionInfoStatus::Invalid) => true,
            (NodeSubscriptionInfoStatus::Expired, NodeSubscriptionInfoStatus::Expired) => true,
            (NodeSubscriptionInfoStatus::Suspended, NodeSubscriptionInfoStatus::Suspended) => true,
            (NodeSubscriptionInfoStatus::UnknownEnumValue(a), NodeSubscriptionInfoStatus::UnknownEnumValue(b)) => *a == *b,
            _ => false,
        }
    }
}

impl PartialEqSpecImpl for NodeSubscriptionInfoStatus {
    open spec fn obeys_eq_spec() -> bool {
        true
    }

    open spec fn eq_spec(&self, other: &Self) -> bool {
        match (self, other) {
            (NodeSubscriptionInfoStatus::UnknownEnumValue(a), NodeSubscriptionInfoStatus::UnknownEnumValue(b)) => a@ == b@,
            _ => *self == *other,
        }
    }
}

impl std::str::FromStr for NodeSubscriptionInfoStatus {
    type Err = core::convert::Infallible;

    fn from_str(s: &str) -> (r: Result<Self, Self::Err>)
        ensures
            r matches Ok(v) && Self::parses_to(s@, v),
    {
        Ok(NodeSubscriptionInfoStatus::from_name(s))
    }
}

impl NodeSubscriptionInfoStatus {
    /// The name under which the API writes this value.
    pub open spec fn name(self) -> Seq<char> {
        match self {
            NodeSubscriptionInfoStatus::New => "new"@,
            NodeSubscriptionInfoStatus::NotFound => "notfound"@,
            NodeSubscriptionInfoStatus::Active => "active"@,
            NodeSubscriptionInfoStatus::Invalid => "invalid"@,
            NodeSubscriptionInfoStatus::Expired => "expired"@,
            NodeSubscriptionInfoStatus::Suspended => "suspended"@,
            NodeSubscriptionInfoStatus::UnknownEnumValue(s) => s@,
        }
    }

    /// The known value that the API name `s` stands for, if any.
    pub open spec fn known(s: Seq<char>) -> Option<Self> {
        if s == "new"@ {
            Some(NodeSubscriptionInfoStatus::New)
        }         else if s == "notfound"@ {
            Some(NodeSubscriptionInfoStatus::NotFound)
        }         else if s == "active"@ {
            Some(NodeSubscriptionInfoStatus::Active)
        }         else if s == "invalid"@ {
            Some(NodeSubscriptionInfoStatus::Invalid)
        }         else if s == "expired"@ {
            Some(NodeSubscriptionInfoStatus::Expired)
        }         else if s == "suspended"@ {
            Some(NodeSubscriptionInfoStatus::Suspended)
        } else {
            None
        }
    }

    /// `v` is the value that reading the API name `s` gives.
    pub open spec fn parses_to(s: Seq<char>, v: Self) -> bool {
        match Self::known(s) {
            Some(k) => v == k,
            None => v matches NodeSubscriptionInfoStatus::UnknownEnumValue(t) && t@ == s,
        }
    }

    /// The API name of this value.
    pub fn to_string(&self) -> (r: String)
        ensures
            r@ == self.name(),
    {
        match self {
            NodeSubscriptionInfoStatus::New => String::from_str("new"),
            NodeSubscriptionInfoStatus::NotFound => String::from_str("notfound"),
            NodeSubscriptionInfoStatus::Active => String::from_str("active"),
            NodeSubscriptionInfoStatus::Invalid => String::from_str("invalid"),
            NodeSubscriptionInfoStatus::Expired => String::from_str("expired"),
            NodeSubscriptionInfoStatus::Suspended => String::from_str("suspended"),
            NodeSubscriptionInfoStatus::UnknownEnumValue(s) => s.clone(),
        }
    }

    /// Reads an API name; a name that is not known is kept as an unknown value.
    pub fn from_name(s: &str) -> (r: Self)
        ensures
            Self::parses_to(s@, r),
    {
        if str_eq(s, "new") {
            NodeSubscriptionInfoStatus::New
        }         else if str_eq(s, "notfound") {
            NodeSubscriptionInfoStatus::NotFound
        }         else if str_eq(s, "active") {
            NodeSubscriptionInfoStatus::Active
        }         else if str_eq(s, "invalid") {
            NodeSubscriptionInfoStatus::Invalid
        }         else if str_eq(s, "expired") {
            NodeSubscriptionInfoStatus::Expired
        }         else if str_eq(s, "suspended") {
            NodeSubscriptionInfoStatus::Suspended
        } else {
            NodeSubscriptionInfoStatus::UnknownEnumValue(String::from_str(s))
        }
    }

    /// Each known value goes with the name the API uses for it: `new` for `New`, `notfound` for `NotFound`, `active` for `Active`, and so on for every known value.
    /// `to_string` writes that name and `from_name` reads it as that value.
    pub proof fn lemma_api_names()
        ensures
            NodeSubscriptionInfoStatus::New.name() == "new"@,
            Self::parses_to("new"@, NodeSubscriptionInfoStatus::New),
            NodeSubscriptionInfoStatus::NotFound.name() == "notfound"@,
            Self::parses_to("notfound"@, NodeSubscriptionInfoStatus::NotFound),
            NodeSubscriptionInfoStatus::Active.name() == "active"@,
            Self::parses_to("active"@, NodeSubscriptionInfoStatus::Active),
            NodeSubscriptionInfoStatus::Invalid.name() == "invalid"@,
            Self::parses_to("invalid"@, NodeSubscriptionInfoStatus::Invalid),
            NodeSubscriptionInfoStatus::Expired.name() == "expired"@,
            Self::parses_to("expired"@, NodeSubscriptionInfoStatus::Expired),
            NodeSubscriptionInfoStatus::Suspended.name() == "suspended"@,
            Self::parses_to("suspended"@, NodeSubscriptionInfoStatus::Suspended),
    {
        Self::lemma_to_string_from_name(NodeSubscriptionInfoStatus::New);
        Self::lemma_to_string_from_name(NodeSubscriptionInfoStatus::NotFound);
        Self::lemma_to_string_from_name(NodeSubscriptionInfoStatus::Active);
        Self::lemma_to_string_from_name(NodeSubscriptionInfoStatus::Invalid);
        Self::lemma_to_string_from_name(NodeSubscriptionInfoStatus::Expired);
        Self::lemma_to_string_from_name(NodeSubscriptionInfoStatus::Suspended);
    }

    /// Writing out a value that was read gives back the name that was read.
    pub proof fn lemma_from_name_to_string(s: Seq<char>, v: Self)
        requires
            Self::parses_to(s, v),
        ensures
            v.name() == s,
    {
    }

    /// Reading the name of a value gives back the value, unless the value is an
    /// unknown one that carries the name of a known one.
    pub proof fn lemma_to_string_from_name(v: Self)
        requires
            v is UnknownEnumValue ==> Self::known(v.name()) is None,
        ensures
            Self::parses_to(v.name(), v),
    {
        if !(v is UnknownEnumValue) {
            Self::lemma_known_names(v);
        }
    }

    /// The spelling of known names, character by character.
    proof fn lemma_name_spelling()
        ensures
            "new"@.len() == 3 && "new"@[0] == 'n' && "new"@[1] == 'e' && "new"@[2] == 'w',
            "notfound"@.len() == 8 && "notfound"@[0] == 'n' && "notfound"@[1] == 'o' && "notfound"@[2] == 't' && "notfound"@[3] == 'f' && "notfound"@[4] == 'o' && "notfound"@[5] == 'u' && "notfound"@[6] == 'n' && "notfound"@[7] == 'd',
            "active"@.len() == 6 && "active"@[0] == 'a' && "active"@[1] == 'c' && "active"@[2] == 't' && "active"@[3] == 'i' && "active"@[4] == 'v' && "active"@[5] == 'e',
            "invalid"@.len() == 7 && "invalid"@[0] == 'i' && "invalid"@[1] == 'n' && "invalid"@[2] == 'v' && "invalid"@[3] == 'a' && "invalid"@[4] == 'l' && "invalid"@[5] == 'i' && "invalid"@[6] == 'd',
            "expired"@.len() == 7 && "expired"@[0] == 'e' && "expired"@[1] == 'x' && "expired"@[2] == 'p' && "expired"@[3] == 'i' && "expired"@[4] == 'r' && "expired"@[5] == 'e' && "expired"@[6] == 'd',
            "suspended"@.len() == 9 && "suspended"@[0] == 's' && "suspended"@[1] == 'u' && "suspended"@[2] == 's' && "suspended"@[3] == 'p' && "suspended"@[4] == 'e' && "suspended"@[5] == 'n' && "suspended"@[6] == 'd' && "suspended"@[7] == 'e' && "suspended"@[8] == 'd',
    {
        broadcast use vstd::string::group_string_axioms;

        reveal_strlit("new");
        reveal_strlit("notfound");
        reveal_strlit("active");
        reveal_strlit("invalid");
        reveal_strlit("expired");
        reveal_strlit("suspended");
    }

    proof fn lemma_known_names(v: Self)
        requires
            !(v is UnknownEnumValue),
        ensures
            Self::known(v.name()) == Some(v),
    {
        Self::lemma_name_spelling();
    }

}

/// Object.
#[derive(Debug)]
pub struct VersionResponse {
    pub console: Option<VersionResponseConsole>,

    /// The current Proxmox VE point release in `x.y` format.
    pub release: String,

    /// The short git revision from which this version was build.
    pub repoid: String,

    /// The full pve-manager package version of this node.
    pub version: String,
}

/// The default console viewer to use.
#[derive(Clone, Debug)]
pub enum VersionResponseConsole {
    /// applet.
    Applet,
    /// vv.
    Vv,
    /// html5.
    Html5,
    /// xtermjs.
    Xtermjs,
    /// Unknown variants for forward compatibility.
    UnknownEnumValue(String),
}

impl PartialEq for VersionResponseConsole {
    fn eq(&self, other: &Self) -> (r: bool) {
        match (self, other) {
            (VersionResponseConsole::Applet, VersionResponseConsole::Applet) => true,
            (VersionResponseConsole::Vv, VersionResponseConsole::Vv) => true,
            (VersionResponseConsole::Html5, VersionResponseConsole::Html5) => true,
            (VersionResponseConsole::Xtermjs, VersionResponseConsole::Xtermjs) => true,
            (VersionResponseConsole::UnknownEnumValue(a), VersionResponseConsole::UnknownEnumValue(b)) => *a == *b,
            _ => false,
        }
    }
}

impl PartialEqSpecImpl for VersionResponseConsole {
    open spec fn obeys_eq_spec() -> bool {
        true
    }

    open spec fn eq_spec(&self, other: &Self) -> bool {
        match (self, other) {
            (VersionResponseConsole::UnknownEnumValue(a), VersionResponseConsole::UnknownEnumValue(b)) => a@ == b@,
            _ => *self == *other,
        }
    }
}

impl std::str::FromStr for VersionResponseConsole {
    type Err = core::convert::Infallible;

    fn from_str(s: &str) -> (r: Result<Self, Self::Err>)
        ensures
            r matches Ok(v) && Self::parses_to(s@, v),
    {
        Ok(VersionResponseConsole::from_name(s))
    }
}

impl VersionResponseConsole {
    /// The name under which the API writes this value.
    pub open spec fn name(self) -> Seq<char> {
        match self {
            VersionResponseConsole::Applet => "applet"@,
            VersionResponseConsole::Vv => "vv"@,
            VersionResponseConsole::Html5 => "html5"@,
            VersionResponseConsole::Xtermjs => "xtermjs"@,
            VersionResponseConsole::UnknownEnumValue(s) => s@,
        }
    }

    /// The known value that the API name `s` stands for, if any.
    pub open spec fn known(s: Seq<char>) -> Option<Self> {
        if s == "applet"@ {
            Some(VersionResponseConsole::Applet)
        }         else if s == "vv"@ {
            Some(VersionResponseConsole::Vv)
        }         else if s == "html5"@ {
            Some(VersionResponseConsole::Html5)
        }         else if s == "xtermjs"@ {
            Some(VersionResponseConsole::Xtermjs)
        } else {
            None
        }
    }

    /// `v` is the value that reading the API name `s` gives.
    pub open spec fn parses_to(s: Seq<char>, v: Self) -> bool {
        match Self::known(s) {
            Some(k) => v == k,
            None => v matches VersionResponseConsole::UnknownEnumValue(t) && t@ == s,
        }
    }

    /// The API name of this value.
    pub fn to_string(&self) -> (r: String)
        ensures
            r@ == self.name(),
    {
        match self {
            VersionResponseConsole::Applet => String::from_str("applet"),
            VersionResponseConsole::Vv => String::from_str("vv"),
            VersionResponseConsole::Html5 => String::from_str("html5"),
            VersionResponseConsole::Xtermjs => String::from_str("xtermjs"),
            VersionResponseConsole::UnknownEnumValue(s) => s.clone(),
        }
    }

    /// Reads an API name; a name that is not known is kept as an unknown value.
    pub fn from_name(s: &str) -> (r: Self)
        ensures
            Self::parses_to(s@, r),
    {
        if str_eq(s, "applet") {
            VersionResponseConsole::Applet
        }         else if str_eq(s, "vv") {
            VersionResponseConsole::Vv
        }         else if str_eq(s, "html5") {
            VersionResponseConsole::Html5
        }         else if str_eq(s, "xtermjs") {
            VersionResponseConsole::Xtermjs
        } else {
            VersionResponseConsole::UnknownEnumValue(String::from_str(s))
        }
    }

    /// Each known value goes with the name the API uses for it: `applet` for `Applet`, `vv` for `Vv`, `html5` for `Html5`, and so on for every known value.
    /// `to_string` writes that name and `from_name` reads it as that value.
    pub proof fn lemma_api_names()
        ensures
            VersionResponseConsole::Applet.name() == "applet"@,
            Self::parses_to("applet"@, VersionResponseConsole::Applet),
            VersionResponseConsole::Vv.name() == "vv"@,
            Self::parses_to("vv"@, VersionResponseConsole::Vv),
            VersionResponseConsole::Html5.name() == "html5"@,
            Self::parses_to("html5"@, VersionResponseConsole::Html5),
            VersionResponseConsole::Xtermjs.name() == "xtermjs"@,
            Self::parses_to("xtermjs"@, VersionResponseConsole::Xtermjs),
    {
        Self::lemma_to_string_from_name(VersionResponseConsole::Applet);
        Self::lemma_to_string_from_name(VersionResponseConsole::Vv);
        Self::lemma_to_string_from_name(VersionResponseConsole::Html5);
        Self::lemma_to_string_from_name(VersionResponseConsole::Xtermjs);
    }

    /// Writing out a value that was read gives back the name that was read.
    pub proof fn lemma_from_name_to_string(s: Seq<char>, v: Self)
        requires
            Self::parses_to(s, v),
        ensures
            v.name() == s,
    {
    }

    /// Reading the name of a value gives back the value, unless the value is an
    /// unknown one that carries the name of a known one.
    pub proof fn lemma_to_string_from_name(v: Self)
        requires
            v is UnknownEnumValue ==> Self::known(v.name()) is None,
        ensures
            Self::parses_to(v.name(), v),
    {
        if !(v is UnknownEnumValue) {
            Self::lemma_known_names(v);
        }
    }

    /// The spelling of known names, character by character.
    proof fn lemma_name_spelling()
        ensures
            "applet"@.len() == 6 && "applet"@[0] == 'a' && "applet"@[1] == 'p' && "applet"@[2] == 'p' && "applet"@[3] == 'l' && "applet"@[4] == 'e' && "applet"@[5] == 't',
            "vv"@.len() == 2 && "vv"@[0] == 'v' && "vv"@[1] == 'v',
            "html5"@.len() == 5 && "html5"@[0] == 'h' && "html5"@[1] == 't' && "html5"@[2] == 'm' && "html5"@[3] == 'l' && "html5"@[4] == '5',
            "xtermjs"@.len() == 7 && "xtermjs"@[0] == 'x' && "xtermjs"@[1] == 't' && "xtermjs"@[2] == 'e' && "xtermjs"@[3] == 'r' && "xtermjs"@[4] == 'm' && "xtermjs"@[5] == 'j' && "xtermjs"@[6] == 's',
    {
        broadcast use vstd::string::group_string_axioms;

        reveal_strlit("applet");
        reveal_strlit("vv");
        reveal_strlit("html5");
        reveal_strlit("xtermjs");
    }

    proof fn lemma_known_names(v: Self)
        requires
            !(v is UnknownEnumValue),
        ensures
            Self::known(v.name()) == Some(v),
    {
        Self::lemma_name_spelling();
    }

}

} // verus!
