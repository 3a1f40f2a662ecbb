//! Types of the container endpoints.
use vstd::prelude::*;
use vstd::std_specs::cmp::PartialEqSpecImpl;
use vstd::string::*;

use crate::text::str_eq;

verus! {

/// OS architecture type.
#[derive(Clone, Debug)]
pub enum LxcConfigArch {
    /// amd64.
    Amd64,
    /// i386.
    I386,
    /// arm64.
    Arm64,
    /// armhf.
    Armhf,
    /// riscv32.
    Riscv32,
    /// riscv64.
    Riscv64,
    /// Unknown variants for forward compatibility.
    UnknownEnumValue(String),
}

impl PartialEq for LxcConfigArch {
    fn eq(&self, other: &Self) -> (r: bool) {
        match (self, other) {
            (LxcConfigArch::Amd64, LxcConfigArch::Amd64) => true,
            (LxcConfigArch::I386, LxcConfigArch::I386) => true,
            (LxcConfigArch::Arm64, LxcConfigArch::Arm64) => true,
            (LxcConfigArch::Armhf, LxcConfigArch::Armhf) => true,
            (LxcConfigArch::Riscv32, LxcConfigArch::Riscv32) => true,
            (LxcConfigArch::Riscv64, LxcConfigArch::Riscv64) => true,
            (LxcConfigArch::UnknownEnumValue(a), LxcConfigArch::UnknownEnumValue(b)) => *a == *b,
            _ => false,
        }
    }
}

impl PartialEqSpecImpl for LxcConfigArch {
    open spec fn obeys_eq_spec() -> bool {
        true
    }

    open spec fn eq_spec(&self, other: &Self) -> bool {
        match (self, other) {
            (LxcConfigArch::UnknownEnumValue(a), LxcConfigArch::UnknownEnumValue(b)) => a@ == b@,
            _ => *self == *other,
        }
    }
}

impl Default for LxcConfigArch {
    fn default() -> (r: Self)
        ensures
            r == LxcConfigArch::Amd64,
    {
        LxcConfigArch::Amd64
    }
}

impl std::str::FromStr for LxcConfigArch {
    type Err = core::convert::Infallible;

    fn from_str(s: &str) -> (r: Result<Self, Self::Err>)
        ensures
            r matches Ok(v) && Self::parses_to(s@, v),
    {
        Ok(LxcConfigArch::from_name(s))
    }
}

impl LxcConfigArch {
    /// The name under which the API writes this value.
    pub open spec fn name(self) -> Seq<char> {
        match self {
            LxcConfigArch::Amd64 => "amd64"@,
            LxcConfigArch::I386 => "i386"@,
            LxcConfigArch::Arm64 => "arm64"@,
            LxcConfigArch::Armhf => "armhf"@,
            LxcConfigArch::Riscv32 => "riscv32"@,
            LxcConfigArch::Riscv64 => "riscv64"@,
            LxcConfigArch::UnknownEnumValue(s) => s@,
        }
    }

    /// The known value that the API name `s` stands for, if any.
    pub open spec fn known(s: Seq<char>) -> Option<Self> {
        if s == "amd64"@ {
            Some(LxcConfigArch::Amd64)
        }         else if s == "i386"@ {
            Some(LxcConfigArch::I386)
        }         else if s == "arm64"@ {
            Some(LxcConfigArch::Arm64)
        }         else if s == "armhf"@ {
            Some(LxcConfigArch::Armhf)
        }         else if s == "riscv32"@ {
            Some(LxcConfigArch::Riscv32)
        }         else if s == "riscv64"@ {
            Some(LxcConfigArch::Riscv64)
        } else {
            None
        }
    }

    /// `v` is the value that reading the API name `s` gives.
    pub open spec fn parses_to(s: Seq<char>, v: Self) -> bool {
        match Self::known(s) {
            Some(k) => v == k,
            None => v matches LxcConfigArch::UnknownEnumValue(t) && t@ == s,
        }
    }

    /// The API name of this value.
    pub fn to_string(&self) -> (r: String)
        ensures
            r@ == self.name(),
    {
        match self {
            LxcConfigArch::Amd64 => String::from_str("amd64"),
            LxcConfigArch::I386 => String::from_str("i386"),
            LxcConfigArch::Arm64 => String::from_str("arm64"),
            LxcConfigArch::Armhf => String::from_str("armhf"),
            LxcConfigArch::Riscv32 => String::from_str("riscv32"),
            LxcConfigArch::Riscv64 => String::from_str("riscv64"),
            LxcConfigArch::UnknownEnumValue(s) => s.clone(),
        }
    }

    /// Reads an API name; a name that is not known is kept as an unknown value.
    pub fn from_name(s: &str) -> (r: Self)
        ensures
            Self::parses_to(s@, r),
    {
        if str_eq(s, "amd64") {
            LxcConfigArch::Amd64
        }         else if str_eq(s, "i386") {
            LxcConfigArch::I386
        }         else if str_eq(s, "arm64") {
            LxcConfigArch::Arm64
        }         else if str_eq(s, "armhf") {
            LxcConfigArch::Armhf
        }         else if str_eq(s, "riscv32") {
            LxcConfigArch::Riscv32
        }         else if str_eq(s, "riscv64") {
            LxcConfigArch::Riscv64
        } else {
            LxcConfigArch::UnknownEnumValue(String::from_str(s))
        }
    }

    /// Each known value goes with the name the API uses for it: `amd64` for `Amd64`, `i386` for `I386`, `arm64` for `Arm64`, and so on for every known value.
    /// `to_string` writes that name and `from_name` reads it as that value.
    pub proof fn lemma_api_names()
        ensures
            LxcConfigArch::Amd64.name() == "amd64"@,
            Self::parses_to("amd64"@, LxcConfigArch::Amd64),
            LxcConfigArch::I386.name() == "i386"@,
            Self::parses_to("i386"@, LxcConfigArch::I386),
            LxcConfigArch::Arm64.name() == "arm64"@,
            Self::parses_to("arm64"@, LxcConfigArch::Arm64),
            LxcConfigArch::Armhf.name() == "armhf"@,
            Self::parses_to("armhf"@, LxcConfigArch::Armhf),
            LxcConfigArch::Riscv32.name() == "riscv32"@,
            Self::parses_to("riscv32"@, LxcConfigArch::Riscv32),
            LxcConfigArch::Riscv64.name() == "riscv64"@,
            Self::parses_to("riscv64"@, LxcConfigArch::Riscv64),
    {
        Self::lemma_to_string_from_name(LxcConfigArch::Amd64);
        Self::lemma_to_string_from_name(LxcConfigArch::I386);
        Self::lemma_to_string_from_name(LxcConfigArch::Arm64);
        Self::lemma_to_string_from_name(LxcConfigArch::Armhf);
        Self::lemma_to_string_from_name(LxcConfigArch::Riscv32);
        Self::lemma_to_string_from_name(LxcConfigArch::Riscv64);
    }

    /// Writing out a value that was read gives back the name that was read.
    pub proof fn lemma_from_name_to_string(s: Seq<char>, v: Self)
        requires
            Self::parses_to(s, v),
        ensures
            v.name() == s,
    {
    }

    /// Reading the name of a value gives back the value, unless the value is an
    /// unknown one that carries the name of a known one.
    pub proof fn lemma_to_string_from_name(v: Self)
        requires
            v is UnknownEnumValue ==> Self::known(v.name()) is None,
        ensures
            Self::parses_to(v.name(), v),
    {
        if !(v is UnknownEnumValue) {
            Self::lemma_known_names(v);
        }
    }

    /// The spelling of known names, character by character.
    proof fn lemma_name_spelling()
        ensures
            "amd64"@.len() == 5 && "amd64"@[0] == 'a' && "amd64"@[1] == 'm' && "amd64"@[2] == 'd' && "amd64"@[3] == '6' && "amd64"@[4] == '4',
            "i386"@.len() == 4 && "i386"@[0] == 'i' && "i386"@[1] == '3' && "i386"@[2] == '8' && "i386"@[3] == '6',
            "arm64"@.len() == 5 && "arm64"@[0] == 'a' && "arm64"@[1] == 'r' && "arm64"@[2] == 'm' && "arm64"@[3] == '6' && "arm64"@[4] == '4',
            "armhf"@.len() == 5 && "armhf"@[0] == 'a' && "armhf"@[1] == 'r' && "armhf"@[2] == 'm' && "armhf"@[3] == 'h' && "armhf"@[4] == 'f',
            "riscv32"@.len() == 7 && "riscv32"@[0] == 'r' && "riscv32"@[1] == 'i' && "riscv32"@[2] == 's' && "riscv32"@[3] == 'c' && "riscv32"@[4] == 'v' && "riscv32"@[5] == '3' && "riscv32"@[6] == '2',
            "riscv64"@.len() == 7 && "riscv64"@[0] == 'r' && "riscv64"@[1] == 'i' && "riscv64"@[2] == 's' && "riscv64"@[3] == 'c' && "riscv64"@[4] == 'v' && "riscv64"@[5] == '6' && "riscv64"@[6] == '4',
    {
        broadcast use vstd::string::group_string_axioms;

        reveal_strlit("amd64");
        reveal_strlit("i386");
        reveal_strlit("arm64");
        reveal_strlit("armhf");
        reveal_strlit("riscv32");
        reveal_strlit("riscv64");
    }

    proof fn lemma_known_names(v: Self)
        requires
            !(v is UnknownEnumValue),
        ensures
            Self::known(v.name()) == Some(v),
    {
        Self::lemma_name_spelling();
    }

}

/// Console mode. By default, the console command tries to open a connection to
/// one of the available tty devices. By setting cmode to 'console' it tries to
/// attach to /dev/console instead. If you set cmode to 'shell', it simply
/// invokes a shell inside the container (no login).
#[derive(Clone, Debug)]
pub enum LxcConfigCmode {
    /// shell.
    Shell,
    /// console.
    Console,
    /// tty.
    Tty,
    /// Unknown variants for forward compatibility.
    UnknownEnumValue(String),
}

impl PartialEq for LxcConfigCmode {
    fn eq(&self, other: &Self) -> (r: bool) {
        match (self, other) {
            (LxcConfigCmode::Shell, LxcConfigCmode::Shell) => true,
            (LxcConfigCmode::Console, LxcConfigCmode::Console) => true,
            (LxcConfigCmode::Tty, LxcConfigCmode::Tty) => true,
            (LxcConfigCmode::UnknownEnumValue(a), LxcConfigCmode::UnknownEnumValue(b)) => *a == *b,
            _ => false,
        }
    }
}

impl PartialEqSpecImpl for LxcConfigCmode {
    open spec fn obeys_eq_spec() -> bool {
        true
    }

    open spec fn eq_spec(&self, other: &Self) -> bool {
        match (self, other) {
            (LxcConfigCmode::UnknownEnumValue(a), LxcConfigCmode::UnknownEnumValue(b)) => a@ == b@,
            _ => *self == *other,
        }
    }
}

impl Default for LxcConfigCmode {
    fn default() -> (r: Self)
        ensures
            r == LxcConfigCmode::Tty,
    {
        LxcConfigCmode::Tty
    }
}

impl std::str::FromStr for LxcConfigCmode {
    type Err = core::convert::Infallible;

    fn from_str(s: &str) -> (r: Result<Self, Self::Err>)
        ensures
            r matches Ok(v) && Self::parses_to(s@, v),
    {
        Ok(LxcConfigCmode::from_name(s))
    }
}

impl LxcConfigCmode {
    /// The name under which the API writes this value.
    pub open spec fn name(self) -> Seq<char> {
        match self {
            LxcConfigCmode::Shell => "shell"@,
            LxcConfigCmode::Console => "console"@,
            LxcConfigCmode::Tty => "tty"@,
            LxcConfigCmode::UnknownEnumValue(s) => s@,
        }
    }

    /// The known value that the API name `s` stands for, if any.
    pub open spec fn known(s: Seq<char>) -> Option<Self> {
        if s == "shell"@ {
            Some(LxcConfigCmode::Shell)
        }         else if s == "console"@ {
            Some(LxcConfigCmode::Console)
        }         else if s == "tty"@ {
            Some(LxcConfigCmode::Tty)
        } else {
            None
        }
    }

    /// `v` is the value that reading the API name `s` gives.
    pub open spec fn parses_to(s: Seq<char>, v: Self) -> bool {
        match Self::known(s) {
            Some(k) => v == k,
            None => v matches LxcConfigCmode::UnknownEnumValue(t) && t@ == s,
        }
    }

    /// The API name of this value.
    pub fn to_string(&self) -> (r: String)
        ensures
            r@ == self.name(),
    {
        match self {
            LxcConfigCmode::Shell => String::from_str("shell"),
            LxcConfigCmode::Console => String::from_str("console"),
            LxcConfigCmode::Tty => String::from_str("tty"),
            LxcConfigCmode::UnknownEnumValue(s) => s.clone(),
        }
    }

    /// Reads an API name; a name that is not known is kept as an unknown value.
    pub fn from_name(s: &str) -> (r: Self)
        ensures
            Self::parses_to(s@, r),
    {
        if str_eq(s, "shell") {
            LxcConfigCmode::Shell
        }         else if str_eq(s, "console") {
            LxcConfigCmode::Console
        }         else if str_eq(s, "tty") {
            LxcConfigCmode::Tty
        } else {
            LxcConfigCmode::UnknownEnumValue(String::from_str(s))
        }
    }

    /// Each known value goes with the name the API uses for it: `shell` for `Shell`, `console` for `Console`, `tty` for `Tty`.
    /// `to_string` writes that name and `from_name` reads it as that value.
    pub proof fn lemma_api_names()
        ensures
            LxcConfigCmode::Shell.name() == "shell"@,
            Self::parses_to("shell"@, LxcConfigCmode::Shell),
            LxcConfigCmode::Console.name() == "console"@,
            Self::parses_to("console"@, LxcConfigCmode::Console),
            LxcConfigCmode::Tty.name() == "tty"@,
            Self::parses_to("tty"@, LxcConfigCmode::Tty),
    {
        Self::lemma_to_string_from_name(LxcConfigCmode::Shell);
        Self::lemma_to_string_from_name(LxcConfigCmode::Console);
        Self::lemma_to_string_from_name(LxcConfigCmode::Tty);
    }

    /// Writing out a value that was read gives back the name that was read.
    pub proof fn lemma_from_name_to_string(s: Seq<char>, v: Self)
        requires
            Self::parses_to(s, v),
        ensures
            v.name() == s,
    {
    }

    /// Reading the name of a value gives back the value, unless the value is an
    /// unknown one that carries the name of a known one.
    pub proof fn lemma_to_string_from_name(v: Self)
        requires
            v is UnknownEnumValue ==> Self::known(v.name()) is None,
        ensures
            Self::parses_to(v.name(), v),
    {
        if !(v is UnknownEnumValue) {
            Self::lemma_known_names(v);
        }
    }

    /// The spelling of known names, character by character.
    proof fn lemma_name_spelling()
        ensures
            "shell"@.len() == 5 && "shell"@[0] == 's' && "shell"@[1] == 'h' && "shell"@[2] == 'e' && "shell"@[3] == 'l' && "shell"@[4] == 'l',
            "console"@.len() == 7 && "console"@[0] == 'c' && "console"@[1] == 'o' && "console"@[2] == 'n' && "console"@[3] == 's' && "console"@[4] == 'o' && "console"@[5] == 'l' && "console"@[6] == 'e',
            "tty"@.len() == 3 && "tty"@[0] == 't' && "tty"@[1] == 't' && "tty"@[2] == 'y',
    {
        broadcast use vstd::string::group_string_axioms;

        reveal_strlit("shell");
        reveal_strlit("console");
        reveal_strlit("tty");
    }

    proof fn lemma_known_names(v: Self)
        requires
            !(v is UnknownEnumValue),
        ensures
            Self::known(v.name()) == Some(v),
    {
        Self::lemma_name_spelling();
    }

}

/// Object.
#[derive(Debug)]
pub struct LxcConfigDev {
    /// Deny the container to write to the device
    pub deny_write: Option<bool>,

    /// Group ID to be assigned to the device node
    pub gid: Option<u64>,

    /// Access mode to be set on the device node
    pub mode: Option<String>,

    /// Device to pass through to the container
    pub path: Option<String>,

    /// User ID to be assigned to the device node
    pub uid: Option<u64>,
}

/// Object.
#[derive(Debug)]
pub struct LxcConfigFeatures {
    /// Mount /sys in unprivileged containers as `rw` instead of `mixed`. This
    /// can break networking under newer (>= v245) systemd-network use.
    pub force_rw_sys: Option<bool>,

    /// Allow using 'fuse' file systems in a container. Note that interactions
    /// between fuse and the freezer cgroup can potentially cause I/O deadlocks.
    pub fuse: Option<bool>,

    /// For unprivileged containers only: Allow the use of the keyctl() system
    /// call. This is required to use docker inside a container. By default
    /// unprivileged containers will see this system call as non-existent. This
    /// is mostly a workaround for systemd-networkd, as it will treat it as a
    /// fatal error when some keyctl() operations are denied by the kernel due
    /// to lacking permissions. Essentially, you can choose between running
    /// systemd-networkd or docker.
    pub keyctl: Option<bool>,

    /// Allow unprivileged containers to use mknod() to add certain device
    /// nodes. This requires a kernel with seccomp trap to user space support
    /// (5.3 or newer). This is experimental.
    pub mknod: Option<bool>,

    /// Allow mounting file systems of specific types. This should be a list of
    /// file system types as used with the mount command. Note that this can
    /// have negative effects on the container's security. With access to a loop
    /// device, mounting a file can circumvent the mknod permission of the
    /// devices cgroup, mounting an NFS file system can block the host's I/O
    /// completely and prevent it from rebooting, etc.
    pub mount: Option<String>,

    /// Allow nesting. Best used with unprivileged containers with additional id
    /// mapping. Note that this will expose procfs and sysfs contents of the
    /// host to the guest.
    pub nesting: Option<bool>,
}

/// Lock/unlock the container.
#[derive(Clone, Debug)]
pub enum LxcConfigLock {
    /// backup.
    Backup,
    /// create.
    Create,
    /// destroyed.
    Destroyed,
    /// disk.
    Disk,
    /// fstrim.
    Fstrim,
    /// migrate.
    Migrate,
    /// mounted.
    Mounted,
    /// rollback.
    Rollback,
    /// snapshot.
    Snapshot,
    /// snapshot-delete.
    SnapshotDelete,
    /// Unknown variants for forward compatibility.
    UnknownEnumValue(String),
}

impl PartialEq for LxcConfigLock {
    fn eq(&self, other: &Self) -> (r: bool) {
        match (self, other) {
            (LxcConfigLock::Backup, LxcConfigLock::Backup) => true,
            (LxcConfigLock::Create, LxcConfigLock::Create) => true,
            (LxcConfigLock::Destroyed, LxcConfigLock::Destroyed) => true,
            (LxcConfigLock::Disk, LxcConfigLock::Disk) => true,
            (LxcConfigLock::Fstrim, LxcConfigLock::Fstrim) => true,
            (LxcConfigLock::Migrate, LxcConfigLock::Migrate) => true,
            (LxcConfigLock::Mounted, LxcConfigLock::Mounted) => true,
            (LxcConfigLock::Rollback, LxcConfigLock::Rollback) => true,
            (LxcConfigLock::Snapshot, LxcConfigLock::Snapshot) => true,
            (LxcConfigLock::SnapshotDelete, LxcConfigLock::SnapshotDelete) => true,
            (LxcConfigLock::UnknownEnumValue(a), LxcConfigLock::UnknownEnumValue(b)) => *a == *b,
            _ => false,
        }
    }
}

impl PartialEqSpecImpl for LxcConfigLock {
    open spec fn obeys_eq_spec() -> bool {
        true
    }

    open spec fn eq_spec(&self, other: &Self) -> bool {
        match (self, other) {
            (LxcConfigLock::UnknownEnumValue(a), LxcConfigLock::UnknownEnumValue(b)) => a@ == b@,
            _ => *self == *other,
        }
    }
}

impl std::str::FromStr for LxcConfigLock {
    type Err = core::convert::Infallible;

    fn from_str(s: &str) -> (r: Result<Self, Self::Err>)
        ensures
            r matches Ok(v) && Self::parses_to(s@, v),
    {
        Ok(LxcConfigLock::from_name(s))
    }
}

impl LxcConfigLock {
    /// The name under which the API writes this value.
    pub open spec fn name(self) -> Seq<char> {
        match self {
            LxcConfigLock::Backup => "backup"@,
            LxcConfigLock::Create => "create"@,
            LxcConfigLock::Destroyed => "destroyed"@,
            LxcConfigLock::Disk => "disk"@,
            LxcConfigLock::Fstrim => "fstrim"@,
            LxcConfigLock::Migrate => "migrate"@,
            LxcConfigLock::Mounted => "mounted"@,
            LxcConfigLock::Rollback => "rollback"@,
            LxcConfigLock::Snapshot => "snapshot"@,
            LxcConfigLock::SnapshotDelete => "snapshot-delete"@,
            LxcConfigLock::UnknownEnumValue(s) => s@,
        }
    }

    /// The known value that the API name `s` stands for, if any.
    pub open spec fn known(s: Seq<char>) -> Option<Self> {
        if s == "backup"@ {
            Some(LxcConfigLock::Backup)
        }         else if s == "create"@ {
            Some(LxcConfigLock::Create)
        }         else if s == "destroyed"@ {
            Some(LxcConfigLock::Destroyed)
        }         else if s == "disk"@ {
            Some(LxcConfigLock::Disk)
        }         else if s == "fstrim"@ {
            Some(LxcConfigLock::Fstrim)
        }         else if s == "migrate"@ {
            Some(LxcConfigLock::Migrate)
        }         else if s == "mounted"@ {
            Some(LxcConfigLock::Mounted)
        }         else if s == "rollback"@ {
            Some(LxcConfigLock::Rollback)
        }         else if s == "snapshot"@ {
            Some(LxcConfigLock::Snapshot)
        }         else if s == "snapshot-delete"@ {
            Some(LxcConfigLock::SnapshotDelete)
        } else {
            None
        }
    }

    /// `v` is the value that reading the API name `s` gives.
    pub open spec fn parses_to(s: Seq<char>, v: Self) -> bool {
        match Self::known(s) {
            Some(k) => v == k,
            None => v matches LxcConfigLock::UnknownEnumValue(t) && t@ == s,
        }
    }

    /// The API name of this value.
    pub fn to_string(&self) -> (r: String)
        ensures
            r@ == self.name(),
    {
        match self {
            LxcConfigLock::Backup => String::from_str("backup"),
            LxcConfigLock::Create => String::from_str("create"),
            LxcConfigLock::Destroyed => String::from_str("destroyed"),
            LxcConfigLock::Disk => String::from_str("disk"),
            LxcConfigLock::Fstrim => String::from_str("fstrim"),
            LxcConfigLock::Migrate => String::from_str("migrate"),
            LxcConfigLock::Mounted => String::from_str("mounted"),
            LxcConfigLock::Rollback => String::from_str("rollback"),
            LxcConfigLock::Snapshot => String::from_str("snapshot"),
            LxcConfigLock::SnapshotDelete => String::from_str("snapshot-delete"),
            LxcConfigLock::UnknownEnumValue(s) => s.clone(),
        }
    }

    /// Reads an API name; a name that is not known is kept as an unknown value.
    pub fn from_name(s: &str) -> (r: Self)
        ensures
            Self::parses_to(s@, r),
    {
        if str_eq(s, "backup") {
            LxcConfigLock::Backup
        }         else if str_eq(s, "create") {
            LxcConfigLock::Create
        }         else if str_eq(s, "destroyed") {
            LxcConfigLock::Destroyed
        }         else if str_eq(s, "disk") {
            LxcConfigLock::Disk
        }         else if str_eq(s, "fstrim") {
            LxcConfigLock::Fstrim
        }         else if str_eq(s, "migrate") {
            LxcConfigLock::Migrate
        }         else if str_eq(s, "mounted") {
            LxcConfigLock::Mounted
        }         else if str_eq(s, "rollback") {
            LxcConfigLock::Rollback
        }         else if str_eq(s, "snapshot") {
            LxcConfigLock::Snapshot
        }         else if str_eq(s, "snapshot-delete") {
            LxcConfigLock::SnapshotDelete
        } else {
            LxcConfigLock::UnknownEnumValue(String::from_str(s))
        }
    }

    /// Each known value goes with the name the API uses for it: `backup` for `Backup`, `create` for `Create`, `destroyed` for `Destroyed`, and so on for every known value.
    /// `to_string` writes that name and `from_name` reads it as that value.
    pub proof fn lemma_api_names()
        ensures
            LxcConfigLock::Backup.name() == "backup"@,
            Self::parses_to("backup"@, LxcConfigLock::Backup),
            LxcConfigLock::Create.name() == "create"@,
            Self::parses_to("create"@, LxcConfigLock::Create),
            LxcConfigLock::Destroyed.name() == "destroyed"@,
            Self::parses_to("destroyed"@, LxcConfigLock::Destroyed),
            LxcConfigLock::Disk.name() == "disk"@,
            Self::parses_to("disk"@, LxcConfigLock::Disk),
            LxcConfigLock::Fstrim.name() == "fstrim"@,
            Self::parses_to("fstrim"@, LxcConfigLock::Fstrim),
            LxcConfigLock::Migrate.name() == "migrate"@,
            Self::parses_to("migrate"@, LxcConfigLock::Migrate),
            LxcConfigLock::Mounted.name() == "mounted"@,
            Self::parses_to("mounted"@, LxcConfigLock::Mounted),
            LxcConfigLock::Rollback.name() == "rollback"@,
            Self::parses_to("rollback"@, LxcConfigLock::Rollback),
            LxcConfigLock::Snapshot.name() == "snapshot"@,
            Self::parses_to("snapshot"@, LxcConfigLock::Snapshot),
            LxcConfigLock::SnapshotDelete.name() == "snapshot-delete"@,
            Self::parses_to("snapshot-delete"@, LxcConfigLock::SnapshotDelete),
    {
        Self::lemma_to_string_from_name(LxcConfigLock::Backup);
        Self::lemma_to_string_from_name(LxcConfigLock::Create);
        Self::lemma_to_string_from_name(LxcConfigLock::Destroyed);
        Self::lemma_to_string_from_name(LxcConfigLock::Disk);
        Self::lemma_to_string_from_name(LxcConfigLock::Fstrim);
        Self::lemma_to_string_from_name(LxcConfigLock::Migrate);
        Self::lemma_to_string_from_name(LxcConfigLock::Mounted);
        Self::lemma_to_string_from_name(LxcConfigLock::Rollback);
        Self::lemma_to_string_from_name(LxcConfigLock::Snapshot);
        Self::lemma_to_string_from_name(LxcConfigLock::SnapshotDelete);
    }

    /// Writing out a value that was read gives back the name that was read.
    pub proof fn lemma_from_name_to_string(s: Seq<char>, v: Self)
        requires
            Self::parses_to(s, v),
        ensures
            v.name() == s,
    {
    }

    /// Reading the name of a value gives back the value, unless the value is an
    /// unknown one that carries the name of a known one.
    pub proof fn lemma_to_string_from_name(v: Self)
        requires
            v is UnknownEnumValue ==> Self::known(v.name()) is None,
        ensures
            Self::parses_to(v.name(), v),
    {
        if !(v is UnknownEnumValue) {
            Self::lemma_known_names(v);
        }
    }

    /// The spelling of known names, character by character.
    proof fn lemma_name_spelling()
        ensures
            "backup"@.len() == 6 && "backup"@[0] == 'b' && "backup"@[1] == 'a' && "backup"@[2] == 'c' && "backup"@[3] == 'k' && "backup"@[4] == 'u' && "backup"@[5] == 'p',
            "create"@.len() == 6 && "create"@[0] == 'c' && "create"@[1] == 'r' && "create"@[2] == 'e' && "create"@[3] == 'a' && "create"@[4] == 't' && "create"@[5] == 'e',
            "destroyed"@.len() == 9 && "destroyed"@[0] == 'd' && "destroyed"@[1] == 'e' && "destroyed"@[2] == 's' && "destroyed"@[3] == 't' && "destroyed"@[4] == 'r' && "destroyed"@[5] == 'o' && "destroyed"@[6] == 'y' && "destroyed"@[7] == 'e' && "destroyed"@[8] == 'd',
            "disk"@.len() == 4 && "disk"@[0] == 'd' && "disk"@[1] == 'i' && "disk"@[2] == 's' && "disk"@[3] == 'k',
            "fstrim"@.len() == 6 && "fstrim"@[0] == 'f' && "fstrim"@[1] == 's' && "fstrim"@[2] == 't' && "fstrim"@[3] == 'r' && "fstrim"@[4] == 'i' && "fstrim"@[5] == 'm',
            "migrate"@.len() == 7 && "migrate"@[0] == 'm' && "migrate"@[1] == 'i' && "migrate"@[2] == 'g' && "migrate"@[3] == 'r' && "migrate"@[4] == 'a' && "migrate"@[5] == 't' && "migrate"@[6] == 'e',
            "mounted"@.len() == 7 && "mounted"@[0] == 'm' && "mounted"@[1] == 'o' && "mounted"@[2] == 'u' && "mounted"@[3] == 'n' && "mounted"@[4] == 't' && "mounted"@[5] == 'e' && "mounted"@[6] == 'd',
            "rollback"@.len() == 8 && "rollback"@[0] == 'r' && "rollback"@[1] == 'o' && "rollback"@[2] == 'l' && "rollback"@[3] == 'l' && "rollback"@[4] == 'b' && "rollback"@[5] == 'a' && "rollback"@[6] == 'c' && "rollback"@[7] == 'k',
            "snapshot"@.len() == 8 && "snapshot"@[0] == 's' && "snapshot"@[1] == 'n' && "snapshot"@[2] == 'a' && "snapshot"@[3] == 'p' && "snapshot"@[4] == 's' && "snapshot"@[5] == 'h' && "snapshot"@[6] == 'o' && "snapshot"@[7] == 't',
            "snapshot-delete"@.len() == 15 && "snapshot-delete"@[0] == 's' && "snapshot-delete"@[1] == 'n' && "snapshot-delete"@[2] == 'a' && "snapshot-delete"@[3] == 'p' && "snapshot-delete"@[4] == 's' && "snapshot-delete"@[5] == 'h' && "snapshot-delete"@[6] == 'o' && "snapshot-delete"@[7] == 't' && "snapshot-delete"@[8] == '-' && "snapshot-delete"@[9] == 'd' && "snapshot-delete"@[10] == 'e' && "snapshot-delete"@[11] == 'l' && "snapshot-delete"@[12] == 'e' && "snapshot-delete"@[13] == 't' && "snapshot-delete"@[14] == 'e',
    {
        broadcast use vstd::string::group_string_axioms;

        reveal_strlit("backup");
        reveal_strlit("create");
        reveal_strlit("destroyed");
        reveal_strlit("disk");
        reveal_strlit("fstrim");
        reveal_strlit("migrate");
        reveal_strlit("mounted");
        reveal_strlit("rollback");
        reveal_strlit("snapshot");
        reveal_strlit("snapshot-delete");
    }

    proof fn lemma_known_names(v: Self)
        requires
            !(v is UnknownEnumValue),
        ensures
            Self::known(v.name()) == Some(v),
    {
        Self::lemma_name_spelling();
    }

}

/// Object.
#[derive(Debug)]
pub struct LxcConfigMp {
    /// Explicitly enable or disable ACL support.
    pub acl: Option<bool>,

    /// Whether to include the mount point in backups.
    pub backup: Option<bool>,

    /// Extra mount options for rootfs/mps.
    pub mountoptions: Option<String>,

    /// Path to the mount point as seen from inside the container (must not
    /// contain symlinks).
    pub mp: String,

    /// Enable user quotas inside the container (not supported with zfs
    /// subvolumes)
    pub quota: Option<bool>,

    /// Will include this volume to a storage replica job.
    pub replicate: Option<bool>,

    /// Read-only mount point
    pub ro: Option<bool>,

    /// Mark this non-volume mount point as available on multiple nodes (see
    /// 'nodes')
    pub shared: Option<bool>,

    /// Volume size (read only value).
    pub size: Option<String>,

    /// Volume, device or directory to mount into the container.
    pub volume: String,
}

/// Network interface type.
#[derive(Clone, Debug)]
pub enum LxcConfigNetType {
    /// veth.
    Veth,
    /// Unknown variants for forward compatibility.
    UnknownEnumValue(String),
}

impl PartialEq for LxcConfigNetType {
    fn eq(&self, other: &Self) -> (r: bool) {
        match (self, other) {
            (LxcConfigNetType::Veth, LxcConfigNetType::Veth) => true,
            (LxcConfigNetType::UnknownEnumValue(a), LxcConfigNetType::UnknownEnumValue(b)) => *a == *b,
            _ => false,
        }
    }
}

impl PartialEqSpecImpl for LxcConfigNetType {
    open spec fn obeys_eq_spec() -> bool {
        true
    }

    open spec fn eq_spec(&self, other: &Self) -> bool {
        match (self, other) {
            (LxcConfigNetType::UnknownEnumValue(a), LxcConfigNetType::UnknownEnumValue(b)) => a@ == b@,
            _ => *self == *other,
        }
    }
}

impl std::str::FromStr for LxcConfigNetType {
    type Err = core::convert::Infallible;

    fn from_str(s: &str) -> (r: Result<Self, Self::Err>)
        ensures
            r matches Ok(v) && Self::parses_to(s@, v),
    {
        Ok(LxcConfigNetType::from_name(s))
    }
}

impl LxcConfigNetType {
    /// The name under which the API writes this value.
    pub open spec fn name(self) -> Seq<char> {
        match self {
            LxcConfigNetType::Veth => "veth"@,
            LxcConfigNetType::UnknownEnumValue(s) => s@,
        }
    }

    /// The known value that the API name `s` stands for, if any.
    pub open spec fn known(s: Seq<char>) -> Option<Self> {
        if s == "veth"@ {
            Some(LxcConfigNetType::Veth)
        } else {
            None
        }
    }

    /// `v` is the value that reading the API name `s` gives.
    pub open spec fn parses_to(s: Seq<char>, v: Self) -> bool {
        match Self::known(s) {
            Some(k) => v == k,
            None => v matches LxcConfigNetType::UnknownEnumValue(t) && t@ == s,
        }
    }

    /// The API name of this value.
    pub fn to_string(&self) -> (r: String)
        ensures
            r@ == self.name(),
    {
        match self {
            LxcConfigNetType::Veth => String::from_str("veth"),
            LxcConfigNetType::UnknownEnumValue(s) => s.clone(),
        }
    }

    /// Reads an API name; a name that is not known is kept as an unknown value.
    pub fn from_name(s: &str) -> (r: Self)
        ensures
            Self::parses_to(s@, r),
    {
        if str_eq(s, "veth") {
            LxcConfigNetType::Veth
        } else {
            LxcConfigNetType::UnknownEnumValue(String::from_str(s))
        }
    }

    /// Each known value goes with the name the API uses for it: `veth` for `Veth`.
    /// `to_string` writes that name and `from_name` reads it as that value.
    pub proof fn lemma_api_names()
        ensures
            LxcConfigNetType::Veth.name() == "veth"@,
            Self::parses_to("veth"@, LxcConfigNetType::Veth),
    {
        Self::lemma_to_string_from_name(LxcConfigNetType::Veth);
    }

    /// Writing out a value that was read gives back the name that was read.
    pub proof fn lemma_from_name_to_string(s: Seq<char>, v: Self)
        requires
            Self::parses_to(s, v),
        ensures
            v.name() == s,
    {
    }

    /// Reading the name of a value gives back the value, unless the value is an
    /// unknown one that carries the name of a known one.
    pub proof fn lemma_to_string_from_name(v: Self)
        requires
            v is UnknownEnumValue ==> Self::known(v.name()) is None,
        ensures
            Self::parses_to(v.name(), v),
    {
        if !(v is UnknownEnumValue) {
            Self::lemma_known_names(v);
        }
    }

    /// The spelling of known names, character by character.
    proof fn lemma_name_spelling()
        ensures
            "veth"@.len() == 4 && "veth"@[0] == 'v' && "veth"@[1] == 'e' && "veth"@[2] == 't' && "veth"@[3] == 'h',
    {
        broadcast use vstd::string::group_string_axioms;

        reveal_strlit("veth");
    }

    proof fn lemma_known_names(v: Self)
        requires
            !(v is UnknownEnumValue),
        ensures
            Self::known(v.name()) == Some(v),
    {
        Self::lemma_name_spelling();
    }

}

/// OS type. This is used to setup configuration inside the container, and
/// corresponds to lxc setup scripts in
/// /usr/share/lxc/config/<ostype>.common.conf. Value 'unmanaged' can be used to
/// skip and OS specific setup.
#[derive(Clone, Debug)]
pub enum LxcConfigOstype {
    /// debian.
    Debian,
    /// devuan.
    Devuan,
    /// ubuntu.
    Ubuntu,
    /// centos.
    Centos,
    /// fedora.
    Fedora,
    /// opensuse.
    Opensuse,
    /// archlinux.
    Archlinux,
    /// alpine.
    Alpine,
    /// gentoo.
    Gentoo,
    /// nixos.
    Nixos,
    /// unmanaged.
    Unmanaged,
    /// Unknown variants for forward compatibility.
    UnknownEnumValue(String),
}

impl PartialEq for LxcConfigOstype {
    fn eq(&self, other: &Self) -> (r: bool) {
        match (self, other) {
            (LxcConfigOstype::Debian, LxcConfigOstype::Debian) => true,
            (LxcConfigOstype::Devuan, LxcConfigOstype::Devuan) => true,
            (LxcConfigOstype::Ubuntu, LxcConfigOstype::Ubuntu) => true,
            (LxcConfigOstype::Centos, LxcConfigOstype::Centos) => true,
            (LxcConfigOstype::Fedora, LxcConfigOstype::Fedora) => true,
            (LxcConfigOstype::Opensuse, LxcConfigOstype::Opensuse) => true,
            (LxcConfigOstype::Archlinux, LxcConfigOstype::Archlinux) => true,
            (LxcConfigOstype::Alpine, LxcConfigOstype::Alpine) => true,
            (LxcConfigOstype::Gentoo, LxcConfigOstype::Gentoo) => true,
            (LxcConfigOstype::Nixos, LxcConfigOstype::Nixos) => true,
            (LxcConfigOstype::Unmanaged, LxcConfigOstype::Unmanaged) => true,
            (LxcConfigOstype::UnknownEnumValue(a), LxcConfigOstype::UnknownEnumValue(b)) => *a == *b,
            _ => false,
        }
    }
}

impl PartialEqSpecImpl for LxcConfigOstype {
    open spec fn obeys_eq_spec() -> bool {
        true
    }

    open spec fn eq_spec(&self, other: &Self) -> bool {
        match (self, other) {
            (LxcConfigOstype::UnknownEnumValue(a), LxcConfigOstype::UnknownEnumValue(b)) => a@ == b@,
            _ => *self == *other,
        }
    }
}

impl std::str::FromStr for LxcConfigOstype {
    type Err = core::convert::Infallible;

    fn from_str(s: &str) -> (r: Result<Self, Self::Err>)
        ensures
            r matches Ok(v) && Self::parses_to(s@, v),
    {
        Ok(LxcConfigOstype::from_name(s))
    }
}

impl LxcConfigOstype {
    /// The name under which the API writes this value.
    pub open spec fn name(self) -> Seq<char> {
        match self {
            LxcConfigOstype::Debian => "debian"@,
            LxcConfigOstype::Devuan => "devuan"@,
            LxcConfigOstype::Ubuntu => "ubuntu"@,
            LxcConfigOstype::Centos => "centos"@,
            LxcConfigOstype::Fedora => "fedora"@,
            LxcConfigOstype::Opensuse => "opensuse"@,
            LxcConfigOstype::Archlinux => "archlinux"@,
            LxcConfigOstype::Alpine => "alpine"@,
            LxcConfigOstype::Gentoo => "gentoo"@,
            LxcConfigOstype::Nixos => "nixos"@,
            LxcConfigOstype::Unmanaged => "unmanaged"@,
            LxcConfigOstype::UnknownEnumValue(s) => s@,
        }
    }

    /// The known value that the API name `s` stands for, if any.
    pub open spec fn known(s: Seq<char>) -> Option<Self> {
        if s == "debian"@ {
            Some(LxcConfigOstype::Debian)
        }         else if s == "devuan"@ {
            Some(LxcConfigOstype::Devuan)
        }         else if s == "ubuntu"@ {
            Some(LxcConfigOstype::Ubuntu)
        }         else if s == "centos"@ {
            Some(LxcConfigOstype::Centos)
        }         else if s == "fedora"@ {
            Some(LxcConfigOstype::Fedora)
        }         else if s == "opensuse"@ {
            Some(LxcConfigOstype::Opensuse)
        }         else if s == "archlinux"@ {
            Some(LxcConfigOstype::Archlinux)
        }         else if s == "alpine"@ {
            Some(LxcConfigOstype::Alpine)
        }         else if s == "gentoo"@ {
            Some(LxcConfigOstype::Gentoo)
        }         else if s == "nixos"@ {
            Some(LxcConfigOstype::Nixos)
        }         else if s == "unmanaged"@ {
            Some(LxcConfigOstype::Unmanaged)
        } else {
            None
        }
    }

    /// `v` is the value that reading the API name `s` gives.
    pub open spec fn parses_to(s: Seq<char>, v: Self) -> bool {
        match Self::known(s) {
            Some(k) => v == k,
            None => v matches LxcConfigOstype::UnknownEnumValue(t) && t@ == s,
        }
    }

    /// The API name of this value.
    pub fn to_string(&self) -> (r: String)
        ensures
            r@ == self.name(),
    {
        match self {
            LxcConfigOstype::Debian => String::from_str("debian"),
            LxcConfigOstype::Devuan => String::from_str("devuan"),
            LxcConfigOstype::Ubuntu => String::from_str("ubuntu"),
            LxcConfigOstype::Centos => String::from_str("centos"),
            LxcConfigOstype::Fedora => String::from_str("fedora"),
            LxcConfigOstype::Opensuse => String::from_str("opensuse"),
            LxcConfigOstype::Archlinux => String::from_str("archlinux"),
            LxcConfigOstype::Alpine => String::from_str("alpine"),
            LxcConfigOstype::Gentoo => String::from_str("gentoo"),
            LxcConfigOstype::Nixos => String::from_str("nixos"),
            LxcConfigOstype::Unmanaged => String::from_str("unmanaged"),
            LxcConfigOstype::UnknownEnumValue(s) => s.clone(),
        }
    }

    /// Reads an API name; a name that is not known is kept as an unknown value.
    pub fn from_name(s: &str) -> (r: Self)
        ensures
            Self::parses_to(s@, r),
    {
        if str_eq(s, "debian") {
            LxcConfigOstype::Debian
        }         else if str_eq(s, "devuan") {
            LxcConfigOstype::Devuan
        }         else if str_eq(s, "ubuntu") {
            LxcConfigOstype::Ubuntu
        }         else if str_eq(s, "centos") {
            LxcConfigOstype::Centos
        }         else if str_eq(s, "fedora") {
            LxcConfigOstype::Fedora
        }         else if str_eq(s, "opensuse") {
            LxcConfigOstype::Opensuse
        }         else if str_eq(s, "archlinux") {
            LxcConfigOstype::Archlinux
        }         else if str_eq(s, "alpine") {
            LxcConfigOstype::Alpine
        }         else if str_eq(s, "gentoo") {
            LxcConfigOstype::Gentoo
        }         else if str_eq(s, "nixos") {
            LxcConfigOstype::Nixos
        }         else if str_eq(s, "unmanaged") {
            LxcConfigOstype::Unmanaged
        } else {
            LxcConfigOstype::UnknownEnumValue(String::from_str(s))
        }
    }

    /// Each known value goes with the name the API uses for it: `debian` for `Debian`, `devuan` for `Devuan`, `ubuntu` for `Ubuntu`, and so on for every known value.
    /// `to_string` writes that name and `from_name` reads it as that value.
    pub proof fn lemma_api_names()
        ensures
            LxcConfigOstype::Debian.name() == "debian"@,
            Self::parses_to("debian"@, LxcConfigOstype::Debian),
            LxcConfigOstype::Devuan.name() == "devuan"@,
            Self::parses_to("devuan"@, LxcConfigOstype::Devuan),
            LxcConfigOstype::Ubuntu.name() == "ubuntu"@,
            Self::parses_to("ubuntu"@, LxcConfigOstype::Ubuntu),
            LxcConfigOstype::Centos.name() == "centos"@,
            Self::parses_to("centos"@, LxcConfigOstype::Centos),
            LxcConfigOstype::Fedora.name() == "fedora"@,
            Self::parses_to("fedora"@, LxcConfigOstype::Fedora),
            LxcConfigOstype::Opensuse.name() == "opensuse"@,
            Self::parses_to("opensuse"@, LxcConfigOstype::Opensuse),
            LxcConfigOstype::Archlinux.name() == "archlinux"@,
            Self::parses_to("archlinux"@, LxcConfigOstype::Archlinux),
            LxcConfigOstype::Alpine.name() == "alpine"@,
            Self::parses_to("alpine"@, LxcConfigOstype::Alpine),
            LxcConfigOstype::Gentoo.name() == "gentoo"@,
            Self::parses_to("gentoo"@, LxcConfigOstype::Gentoo),
            LxcConfigOstype::Nixos.name() == "nixos"@,
            Self::parses_to("nixos"@, LxcConfigOstype::Nixos),
            LxcConfigOstype::Unmanaged.name() == "unmanaged"@,
            Self::parses_to("unmanaged"@, LxcConfigOstype::Unmanaged),
    {
        Self::lemma_to_string_from_name(LxcConfigOstype::Debian);
        Self::lemma_to_string_from_name(LxcConfigOstype::Devuan);
        Self::lemma_to_string_from_name(LxcConfigOstype::Ubuntu);
        Self::lemma_to_string_from_name(LxcConfigOstype::Centos);
        Self::lemma_to_string_from_name(LxcConfigOstype::Fedora);
        Self::lemma_to_string_from_name(LxcConfigOstype::Opensuse);
        Self::lemma_to_string_from_name(LxcConfigOstype::Archlinux);
        Self::lemma_to_string_from_name(LxcConfigOstype::Alpine);
        Self::lemma_to_string_from_name(LxcConfigOstype::Gentoo);
        Self::lemma_to_string_from_name(LxcConfigOstype::Nixos);
        Self::lemma_to_string_from_name(LxcConfigOstype::Unmanaged);
    }

    /// Writing out a value that was read gives back the name that was read.
    pub proof fn lemma_from_name_to_string(s: Seq<char>, v: Self)
        requires
            Self::parses_to(s, v),
        ensures
            v.name() == s,
    {
    }

    /// Reading the name of a value gives back the value, unless the value is an
    /// unknown one that carries the name of a known one.
    pub proof fn lemma_to_string_from_name(v: Self)
        requires
            v is UnknownEnumValue ==> Self::known(v.name()) is None,
        ensures
            Self::parses_to(v.name(), v),
    {
        if !(v is UnknownEnumValue) {
            Self::lemma_known_names(v);
        }
    }

    /// The spelling of known names, character by character.
    proof fn lemma_name_spelling()
        ensures
            "debian"@.len() == 6 && "debian"@[0] == 'd' && "debian"@[1] == 'e' && "debian"@[2] == 'b' && "debian"@[3] == 'i' && "debian"@[4] == 'a' && "debian"@[5] == 'n',
            "devuan"@.len() == 6 && "devuan"@[0] == 'd' && "devuan"@[1] == 'e' && "devuan"@[2] == 'v' && "devuan"@[3] == 'u' && "devuan"@[4] == 'a' && "devuan"@[5] == 'n',
            "ubuntu"@.len() == 6 && "ubuntu"@[0] == 'u' && "ubuntu"@[1] == 'b' && "ubuntu"@[2] == 'u' && "ubuntu"@[3] == 'n' && "ubuntu"@[4] == 't' && "ubuntu"@[5] == 'u',
            "centos"@.len() == 6 && "centos"@[0] == 'c' && "centos"@[1] == 'e' && "centos"@[2] == 'n' && "centos"@[3] == 't' && "centos"@[4] == 'o' && "centos"@[5] == 's',
            "fedora"@.len() == 6 && "fedora"@[0] == 'f' && "fedora"@[1] == 'e' && "fedora"@[2] == 'd' && "fedora"@[3] == 'o' && "fedora"@[4] == 'r' && "fedora"@[5] == 'a',
            "opensuse"@.len() == 8 && "opensuse"@[0] == 'o' && "opensuse"@[1] == 'p' && "opensuse"@[2] == 'e' && "opensuse"@[3] == 'n' && "opensuse"@[4] == 's' && "opensuse"@[5] == 'u' && "opensuse"@[6] == 's' && "opensuse"@[7] == 'e',
            "archlinux"@.len() == 9 && "archlinux"@[0] == 'a' && "archlinux"@[1] == 'r' && "archlinux"@[2] == 'c' && "archlinux"@[3] == 'h' && "archlinux"@[4] == 'l' && "archlinux"@[5] == 'i' && "archlinux"@[6] == 'n' && "archlinux"@[7] == 'u' && "archlinux"@[8] == 'x',
            "alpine"@.len() == 6 && "alpine"@[0] == 'a' && "alpine"@[1] == 'l' && "alpine"@[2] == 'p' && "alpine"@[3] == 'i' && "alpine"@[4] == 'n' && "alpine"@[5] == 'e',
            "gentoo"@.len() == 6 && "gentoo"@[0] == 'g' && "gentoo"@[1] == 'e' && "gentoo"@[2] == 'n' && "gentoo"@[3] == 't' && "gentoo"@[4] == 'o' && "gentoo"@[5] == 'o',
            "nixos"@.len() == 5 && "nixos"@[0] == 'n' && "nixos"@[1] == 'i' && "nixos"@[2] == 'x' && "nixos"@[3] == 'o' && "nixos"@[4] == 's',
            "unmanaged"@.len() == 9 && "unmanaged"@[0] == 'u' && "unmanaged"@[1] == 'n' && "unmanaged"@[2] == 'm' && "unmanaged"@[3] == 'a' && "unmanaged"@[4] == 'n' && "unmanaged"@[5] == 'a' && "unmanaged"@[6] == 'g' && "unmanaged"@[7] == 'e' && "unmanaged"@[8] == 'd',
    {
        broadcast use vstd::string::group_string_axioms;

        reveal_strlit("debian");
        reveal_strlit("devuan");
        reveal_strlit("ubuntu");
        reveal_strlit("centos");
        reveal_strlit("fedora");
        reveal_strlit("opensuse");
        reveal_strlit("archlinux");
        reveal_strlit("alpine");
        reveal_strlit("gentoo");
        reveal_strlit("nixos");
        reveal_strlit("unmanaged");
    }

    proof fn lemma_known_names(v: Self)
        requires
            !(v is UnknownEnumValue),
        ensures
            Self::known(v.name()) == Some(v),
    {
        Self::lemma_name_spelling();
    }

}

/// Object.
#[derive(Debug)]
pub struct LxcConfigRootfs {
    /// Explicitly enable or disable ACL support.
    pub acl: Option<bool>,

    /// Extra mount options for rootfs/mps.
    pub mountoptions: Option<String>,

    /// Enable user quotas inside the container (not supported with zfs
    /// subvolumes)
    pub quota: Option<bool>,

    /// Will include this volume to a storage replica job.
    pub replicate: Option<bool>,

    /// Read-only mount point
    pub ro: Option<bool>,

    /// Mark this non-volume mount point as available on multiple nodes (see
    /// 'nodes')
    pub shared: Option<bool>,

    /// Volume size (read only value).
    pub size: Option<String>,

    /// Volume, device or directory to mount into the container.
    pub volume: String,
}

/// Object.
#[derive(Debug)]
pub struct LxcConfigUnused {
    /// The volume that is not used currently.
    pub volume: String,
}

/// Object.
#[derive(Debug)]
pub struct ShutdownLxc {
    /// Make sure the Container stops.
    pub force_stop: Option<bool>,

    /// Wait maximal timeout seconds.
    pub timeout: Option<u64>,
}

impl Default for ShutdownLxc {
    /// No parameter is set.
    fn default() -> (r: Self)
        ensures
            r.force_stop is None,
            r.timeout is None,
    {
        ShutdownLxc {
            force_stop: None,
            timeout: None,
        }
    }
}

/// Object.
#[derive(Debug)]
pub struct StartLxc {
    /// If set, enables very verbose debug log-level on start.
    pub debug: Option<bool>,

    /// Ignore locks - only root is allowed to use this option.
    pub skiplock: Option<bool>,
}

impl Default for StartLxc {
    /// No parameter is set.
    fn default() -> (r: Self)
        ensures
            r.debug is None,
            r.skiplock is None,
    {
        StartLxc {
            debug: None,
            skiplock: None,
        }
    }
}

/// Object.
#[derive(Debug)]
pub struct StopLxc {
    /// Try to abort active 'vzshutdown' tasks before stopping.
    pub overrule_shutdown: Option<bool>,

    /// Ignore locks - only root is allowed to use this option.
    pub skiplock: Option<bool>,
}

impl Default for StopLxc {
    /// No parameter is set.
    fn default() -> (r: Self)
        ensures
            r.overrule_shutdown is None,
            r.skiplock is None,
    {
        StopLxc {
            overrule_shutdown: None,
            skiplock: None,
        }
    }
}

} // verus!
