//! Property strings of virtual machine configurations.
use vstd::prelude::*;
use vstd::std_specs::cmp::PartialEqSpecImpl;
use vstd::string::*;

use crate::text::str_eq;
use crate::qemu_config::QemuConfigEfidisk0Efitype;
use crate::qemu_config::QemuConfigTpmstate0Version;

verus! {

/// Object.
#[derive(Debug)]
pub struct PveQemuSevFmt {
    /// Sets policy bit to allow Simultaneous Multi Threading (SMT) (Ignored
    /// unless for SEV-SNP)
    pub allow_smt: Option<bool>,

    /// Add kernel hashes to guest firmware for measured linux kernel launch
    pub kernel_hashes: Option<bool>,

    /// Sets policy bit to disallow debugging of guest
    pub no_debug: Option<bool>,

    /// Sets policy bit to disallow key sharing with other guests (Ignored for
    /// SEV-SNP)
    pub no_key_sharing: Option<bool>,

    pub ty: PveQemuSevFmtType,
}

/// Enable standard SEV with type='std' or enable experimental SEV-ES with the
/// 'es' option or enable experimental SEV-SNP with the 'snp' option.
#[derive(Clone, Debug)]
pub enum PveQemuSevFmtType {
    /// std.
    Std,
    /// es.
    Es,
    /// snp.
    Snp,
    /// Unknown variants for forward compatibility.
    UnknownEnumValue(String),
}

impl PartialEq for PveQemuSevFmtType {
    fn eq(&self, other: &Self) -> (r: bool) {
        match (self, other) {
            (PveQemuSevFmtType::Std, PveQemuSevFmtType::Std) => true,
            (PveQemuSevFmtType::Es, PveQemuSevFmtType::Es) => true,
            (PveQemuSevFmtType::Snp, PveQemuSevFmtType::Snp) => true,
            (PveQemuSevFmtType::UnknownEnumValue(a), PveQemuSevFmtType::UnknownEnumValue(b)) => *a == *b,
            _ => false,
        }
    }
}

impl PartialEqSpecImpl for PveQemuSevFmtType {
    open spec fn obeys_eq_spec() -> bool {
        true
    }

    open spec fn eq_spec(&self, other: &Self) -> bool {
        match (self, other) {
            (PveQemuSevFmtType::UnknownEnumValue(a), PveQemuSevFmtType::UnknownEnumValue(b)) => a@ == b@,
            _ => *self == *other,
        }
    }
}

impl std::str::FromStr for PveQemuSevFmtType {
    type Err = core::convert::Infallible;

    fn from_str(s: &str) -> (r: Result<Self, Self::Err>)
        ensures
            r matches Ok(v) && Self::parses_to(s@, v),
    {
        Ok(PveQemuSevFmtType::from_name(s))
    }
}

impl PveQemuSevFmtType {
    /// The name under which the API writes this value.
    pub open spec fn name(self) -> Seq<char> {
        match self {
            PveQemuSevFmtType::Std => "std"@,
            PveQemuSevFmtType::Es => "es"@,
            PveQemuSevFmtType::Snp => "snp"@,
            PveQemuSevFmtType::UnknownEnumValue(s) => s@,
        }
    }

    /// The known value that the API name `s` stands for, if any.
    pub open spec fn known(s: Seq<char>) -> Option<Self> {
        if s == "std"@ {
            Some(PveQemuSevFmtType::Std)
        }         else if s == "es"@ {
            Some(PveQemuSevFmtType::Es)
        }         else if s == "snp"@ {
            Some(PveQemuSevFmtType::Snp)
        } else {
            None
        }
    }

    /// `v` is the value that reading the API name `s` gives.
    pub open spec fn parses_to(s: Seq<char>, v: Self) -> bool {
        match Self::known(s) {
            Some(k) => v == k,
            None => v matches PveQemuSevFmtType::UnknownEnumValue(t) && t@ == s,
        }
    }

    /// The API name of this value.
    pub fn to_string(&self) -> (r: String)
        ensures
            r@ == self.name(),
    {
        match self {
            PveQemuSevFmtType::Std => String::from_str("std"),
            PveQemuSevFmtType::Es => String::from_str("es"),
            PveQemuSevFmtType::Snp => String::from_str("snp"),
            PveQemuSevFmtType::UnknownEnumValue(s) => s.clone(),
        }
    }

    /// Reads an API name; a name that is not known is kept as an unknown value.
    pub fn from_name(s: &str) -> (r: Self)
        ensures
            Self::parses_to(s@, r),
    {
        if str_eq(s, "std") {
            PveQemuSevFmtType::Std
        }         else if str_eq(s, "es") {
            PveQemuSevFmtType::Es
        }         else if str_eq(s, "snp") {
            PveQemuSevFmtType::Snp
        } else {
            PveQemuSevFmtType::UnknownEnumValue(String::from_str(s))
        }
    }

    /// Each known value goes with the name the API uses for it: `std` for `Std`, `es` for `Es`, `snp` for `Snp`.
    /// `to_string` writes that name and `from_name` reads it as that value.
    pub proof fn lemma_api_names()
        ensures
            PveQemuSevFmtType::Std.name() == "std"@,
            Self::parses_to("std"@, PveQemuSevFmtType::Std),
            PveQemuSevFmtType::Es.name() == "es"@,
            Self::parses_to("es"@, PveQemuSevFmtType::Es),
            PveQemuSevFmtType::Snp.name() == "snp"@,
            Self::parses_to("snp"@, PveQemuSevFmtType::Snp),
    {
        Self::lemma_to_string_from_name(PveQemuSevFmtType::Std);
        Self::lemma_to_string_from_name(PveQemuSevFmtType::Es);
        Self::lemma_to_string_from_name(PveQemuSevFmtType::Snp);
    }

    /// Writing out a value that was read gives back the name that was read.
    pub proof fn lemma_from_name_to_string(s: Seq<char>, v: Self)
        requires
            Self::parses_to(s, v),
        ensures
            v.name() == s,
    {
    }

    /// Reading the name of a value gives back the value, unless the value is an
    /// unknown one that carries the name of a known one.
    pub proof fn lemma_to_string_from_name(v: Self)
        requires
            v is UnknownEnumValue ==> Self::known(v.name()) is None,
        ensures
            Self::parses_to(v.name(), v),
    {
        if !(v is UnknownEnumValue) {
            Self::lemma_known_names(v);
        }
    }

    /// The spelling of known names, character by character.
    proof fn lemma_name_spelling()
        ensures
            "std"@.len() == 3 && "std"@[0] == 's' && "std"@[1] == 't' && "std"@[2] == 'd',
            "es"@.len() == 2 && "es"@[0] == 'e' && "es"@[1] == 's',
            "snp"@.len() == 3 && "snp"@[0] == 's' && "snp"@[1] == 'n' && "snp"@[2] == 'p',
    {
        broadcast use vstd::string::group_string_axioms;

        reveal_strlit("std");
        reveal_strlit("es");
        reveal_strlit("snp");
    }

    proof fn lemma_known_names(v: Self)
        requires
            !(v is UnknownEnumValue),
        ensures
            Self::known(v.name()) == Some(v),
    {
        Self::lemma_name_spelling();
    }

}

/// Object.
#[derive(Debug)]
pub struct PveQmBoot {
    /// Boot on floppy (a), hard disk (c), CD-ROM (d), or network (n).
    /// Deprecated, use 'order=' instead.
    pub legacy: Option<String>,

    /// The guest will attempt to boot from devices in the order they appear
    /// here.
    ///
    /// Disks, optical drives and passed-through storage USB devices will be
    /// directly booted from, NICs will load PXE, and PCIe devices will
    /// either behave like disks (e.g. NVMe) or load an option ROM (e.g.
    /// RAID controller, hardware NIC).
    ///
    /// Note that only devices in this list will be marked as bootable and thus
    /// loaded by the guest firmware (BIOS/UEFI). If you require multiple
    /// disks for booting (e.g. software-raid), you need to specify all of
    /// them here.
    ///
    /// Overrides the deprecated 'legacy=[acdn]*' value when given.
    pub order: Option<String>,
}

/// Object.
#[derive(Debug)]
pub struct PveQmCicustom {
    /// Specify a custom file containing all meta data passed to the VM via
    /// cloud-init. This is provider specific meaning configdrive2 and nocloud
    /// differ.
    pub meta: Option<String>,

    /// To pass a custom file containing all network data to the VM via
    /// cloud-init.
    pub network: Option<String>,

    /// To pass a custom file containing all user data to the VM via cloud-init.
    pub user: Option<String>,

    /// To pass a custom file containing all vendor data to the VM via
    /// cloud-init.
    pub vendor: Option<String>,
}

/// Object.
#[derive(Debug)]
pub struct PveQmHostpci {
    /// Override PCI device ID visible to guest
    pub device_id: Option<String>,

    /// Host PCI device pass through. The PCI ID of a host's PCI device or a
    /// list of PCI virtual functions of the host. HOSTPCIID syntax is:
    ///
    /// 'bus:dev.func' (hexadecimal numbers)
    ///
    /// You can use the 'lspci' command to list existing PCI devices.
    ///
    /// Either this or the 'mapping' key must be set.
    pub host: Option<String>,

    /// Pass this device in legacy IGD mode, making it the primary and exclusive
    /// graphics device in the VM. Requires 'pc-i440fx' machine type and VGA set
    /// to 'none'.
    pub legacy_igd: Option<bool>,

    /// The ID of a cluster wide mapping. Either this or the default-key 'host'
    /// must be set.
    pub mapping: Option<String>,

    /// The type of mediated device to use.
    /// An instance of this type will be created on startup of the VM and
    /// will be cleaned up when the VM stops.
    pub mdev: Option<String>,

    /// Choose the PCI-express bus (needs the 'q35' machine model).
    pub pcie: Option<bool>,

    /// Specify whether or not the device's ROM will be visible in the guest's
    /// memory map.
    pub rombar: Option<bool>,

    /// Custom pci device rom filename (must be located in /usr/share/kvm/).
    pub romfile: Option<String>,

    /// Override PCI subsystem device ID visible to guest
    pub sub_device_id: Option<String>,

    /// Override PCI subsystem vendor ID visible to guest
    pub sub_vendor_id: Option<String>,

    /// Override PCI vendor ID visible to guest
    pub vendor_id: Option<String>,

    /// Enable vfio-vga device support.
    pub x_vga: Option<bool>,
}

/// AIO type to use.
#[derive(Clone, Debug)]
pub enum PveQmIdeAio {
    /// native.
    Native,
    /// threads.
    Threads,
    /// io_uring.
    IoUring,
    /// Unknown variants for forward compatibility.
    UnknownEnumValue(String),
}

impl PartialEq for PveQmIdeAio {
    fn eq(&self, other: &Self) -> (r: bool) {
        match (self, other) {
            (PveQmIdeAio::Native, PveQmIdeAio::Native) => true,
            (PveQmIdeAio::Threads, PveQmIdeAio::Threads) => true,
            (PveQmIdeAio::IoUring, PveQmIdeAio::IoUring) => true,
            (PveQmIdeAio::UnknownEnumValue(a), PveQmIdeAio::UnknownEnumValue(b)) => *a == *b,
            _ => false,
        }
    }
}

impl PartialEqSpecImpl for PveQmIdeAio {
    open spec fn obeys_eq_spec() -> bool {
        true
    }

    open spec fn eq_spec(&self, other: &Self) -> bool {
        match (self, other) {
            (PveQmIdeAio::UnknownEnumValue(a), PveQmIdeAio::UnknownEnumValue(b)) => a@ == b@,
            _ => *self == *other,
        }
    }
}

impl std::str::FromStr for PveQmIdeAio {
    type Err = core::convert::Infallible;

    fn from_str(s: &str) -> (r: Result<Self, Self::Err>)
        ensures
            r matches Ok(v) && Self::parses_to(s@, v),
    {
        Ok(PveQmIdeAio::from_name(s))
    }
}

impl PveQmIdeAio {
    /// The name under which the API writes this value.
    pub open spec fn name(self) -> Seq<char> {
        match self {
            PveQmIdeAio::Native => "native"@,
            PveQmIdeAio::Threads => "threads"@,
            PveQmIdeAio::IoUring => "io_uring"@,
            PveQmIdeAio::UnknownEnumValue(s) => s@,
        }
    }

    /// The known value that the API name `s` stands for, if any.
    pub open spec fn known(s: Seq<char>) -> Option<Self> {
        if s == "native"@ {
            Some(PveQmIdeAio::Native)
        }         else if s == "threads"@ {
            Some(PveQmIdeAio::Threads)
        }         else if s == "io_uring"@ {
            Some(PveQmIdeAio::IoUring)
        } else {
            None
        }
    }

    /// `v` is the value that reading the API name `s` gives.
    pub open spec fn parses_to(s: Seq<char>, v: Self) -> bool {
        match Self::known(s) {
            Some(k) => v == k,
            None => v matches PveQmIdeAio::UnknownEnumValue(t) && t@ == s,
        }
    }

    /// The API name of this value.
    pub fn to_string(&self) -> (r: String)
        ensures
            r@ == self.name(),
    {
        match self {
            PveQmIdeAio::Native => String::from_str("native"),
            PveQmIdeAio::Threads => String::from_str("threads"),
            PveQmIdeAio::IoUring => String::from_str("io_uring"),
            PveQmIdeAio::UnknownEnumValue(s) => s.clone(),
        }
    }

    /// Reads an API name; a name that is not known is kept as an unknown value.
    pub fn from_name(s: &str) -> (r: Self)
        ensures
            Self::parses_to(s@, r),
    {
        if str_eq(s, "native") {
            PveQmIdeAio::Native
        }         else if str_eq(s, "threads") {
            PveQmIdeAio::Threads
        }         else if str_eq(s, "io_uring") {
            PveQmIdeAio::IoUring
        } else {
            PveQmIdeAio::UnknownEnumValue(String::from_str(s))
        }
    }

    /// Each known value goes with the name the API uses for it: `native` for `Native`, `threads` for `Threads`, `io_uring` for `IoUring`.
    /// `to_string` writes that name and `from_name` reads it as that value.
    pub proof fn lemma_api_names()
        ensures
            PveQmIdeAio::Native.name() == "native"@,
            Self::parses_to("native"@, PveQmIdeAio::Native),
            PveQmIdeAio::Threads.name() == "threads"@,
            Self::parses_to("threads"@, PveQmIdeAio::Threads),
            PveQmIdeAio::IoUring.name() == "io_uring"@,
            Self::parses_to("io_uring"@, PveQmIdeAio::IoUring),
    {
        Self::lemma_to_string_from_name(PveQmIdeAio::Native);
        Self::lemma_to_string_from_name(PveQmIdeAio::Threads);
        Self::lemma_to_string_from_name(PveQmIdeAio::IoUring);
    }

    /// Writing out a value that was read gives back the name that was read.
    pub proof fn lemma_from_name_to_string(s: Seq<char>, v: Self)
        requires
            Self::parses_to(s, v),
        ensures
            v.name() == s,
    {
    }

    /// Reading the name of a value gives back the value, unless the value is an
    /// unknown one that carries the name of a known one.
    pub proof fn lemma_to_string_from_name(v: Self)
        requires
            v is UnknownEnumValue ==> Self::known(v.name()) is None,
        ensures
            Self::parses_to(v.name(), v),
    {
        if !(v is UnknownEnumValue) {
            Self::lemma_known_names(v);
        }
    }

    /// The spelling of known names, character by character.
    proof fn lemma_name_spelling()
        ensures
            "native"@.len() == 6 && "native"@[0] == 'n' && "native"@[1] == 'a' && "native"@[2] == 't' && "native"@[3] == 'i' && "native"@[4] == 'v' && "native"@[5] == 'e',
            "threads"@.len() == 7 && "threads"@[0] == 't' && "threads"@[1] == 'h' && "threads"@[2] == 'r' && "threads"@[3] == 'e' && "threads"@[4] == 'a' && "threads"@[5] == 'd' && "threads"@[6] == 's',
            "io_uring"@.len() == 8 && "io_uring"@[0] == 'i' && "io_uring"@[1] == 'o' && "io_uring"@[2] == '_' && "io_uring"@[3] == 'u' && "io_uring"@[4] == 'r' && "io_uring"@[5] == 'i' && "io_uring"@[6] == 'n' && "io_uring"@[7] == 'g',
    {
        broadcast use vstd::string::group_string_axioms;

        reveal_strlit("native");
        reveal_strlit("threads");
        reveal_strlit("io_uring");
    }

    proof fn lemma_known_names(v: Self)
        requires
            !(v is UnknownEnumValue),
        ensures
            Self::known(v.name()) == Some(v),
    {
        Self::lemma_name_spelling();
    }

}

/// The drive's cache mode
#[derive(Clone, Debug)]
pub enum PveQmIdeCache {
    /// none.
    NoneValue,
    /// writethrough.
    Writethrough,
    /// writeback.
    Writeback,
    /// unsafe.
    Unsafe,
    /// directsync.
    Directsync,
    /// Unknown variants for forward compatibility.
    UnknownEnumValue(String),
}

impl PartialEq for PveQmIdeCache {
    fn eq(&self, other: &Self) -> (r: bool) {
        match (self, other) {
            (PveQmIdeCache::NoneValue, PveQmIdeCache::NoneValue) => true,
            (PveQmIdeCache::Writethrough, PveQmIdeCache::Writethrough) => true,
            (PveQmIdeCache::Writeback, PveQmIdeCache::Writeback) => true,
            (PveQmIdeCache::Unsafe, PveQmIdeCache::Unsafe) => true,
            (PveQmIdeCache::Directsync, PveQmIdeCache::Directsync) => true,
            (PveQmIdeCache::UnknownEnumValue(a), PveQmIdeCache::UnknownEnumValue(b)) => *a == *b,
            _ => false,
        }
    }
}

impl PartialEqSpecImpl for PveQmIdeCache {
    open spec fn obeys_eq_spec() -> bool {
        true
    }

    open spec fn eq_spec(&self, other: &Self) -> bool {
        match (self, other) {
            (PveQmIdeCache::UnknownEnumValue(a), PveQmIdeCache::UnknownEnumValue(b)) => a@ == b@,
            _ => *self == *other,
        }
    }
}

impl std::str::FromStr for PveQmIdeCache {
    type Err = core::convert::Infallible;

    fn from_str(s: &str) -> (r: Result<Self, Self::Err>)
        ensures
            r matches Ok(v) && Self::parses_to(s@, v),
    {
        Ok(PveQmIdeCache::from_name(s))
    }
}

impl PveQmIdeCache {
    /// The name under which the API writes this value.
    pub open spec fn name(self) -> Seq<char> {
        match self {
            PveQmIdeCache::NoneValue => "none"@,
            PveQmIdeCache::Writethrough => "writethrough"@,
            PveQmIdeCache::Writeback => "writeback"@,
            PveQmIdeCache::Unsafe => "unsafe"@,
            PveQmIdeCache::Directsync => "directsync"@,
            PveQmIdeCache::UnknownEnumValue(s) => s@,
        }
    }

    /// The known value that the API name `s` stands for, if any.
    pub open spec fn known(s: Seq<char>) -> Option<Self> {
        if s == "none"@ {
            Some(PveQmIdeCache::NoneValue)
        }         else if s == "writethrough"@ {
            Some(PveQmIdeCache::Writethrough)
        }         else if s == "writeback"@ {
            Some(PveQmIdeCache::Writeback)
        }         else if s == "unsafe"@ {
            Some(PveQmIdeCache::Unsafe)
        }         else if s == "directsync"@ {
            Some(PveQmIdeCache::Directsync)
        } else {
            None
        }
    }

    /// `v` is the value that reading the API name `s` gives.
    pub open spec fn parses_to(s: Seq<char>, v: Self) -> bool {
        match Self::known(s) {
            Some(k) => v == k,
            None => v matches PveQmIdeCache::UnknownEnumValue(t) && t@ == s,
        }
    }

    /// The API name of this value.
    pub fn to_string(&self) -> (r: String)
        ensures
            r@ == self.name(),
    {
        match self {
            PveQmIdeCache::NoneValue => String::from_str("none"),
            PveQmIdeCache::Writethrough => String::from_str("writethrough"),
            PveQmIdeCache::Writeback => String::from_str("writeback"),
            PveQmIdeCache::Unsafe => String::from_str("unsafe"),
            PveQmIdeCache::Directsync => String::from_str("directsync"),
            PveQmIdeCache::UnknownEnumValue(s) => s.clone(),
        }
    }

    /// Reads an API name; a name that is not known is kept as an unknown value.
    pub fn from_name(s: &str) -> (r: Self)
        ensures
            Self::parses_to(s@, r),
    {
        if str_eq(s, "none") {
            PveQmIdeCache::NoneValue
        }         else if str_eq(s, "writethrough") {
            PveQmIdeCache::Writethrough
        }         else if str_eq(s, "writeback") {
            PveQmIdeCache::Writeback
        }         else if str_eq(s, "unsafe") {
            PveQmIdeCache::Unsafe
        }         else if str_eq(s, "directsync") {
            PveQmIdeCache::Directsync
        } else {
            PveQmIdeCache::UnknownEnumValue(String::from_str(s))
        }
    }

    /// Each known value goes with the name the API uses for it: `none` for `NoneValue`, `writethrough` for `Writethrough`, `writeback` for `Writeback`, and so on for every known value.
    /// `to_string` writes that name and `from_name` reads it as that value.
    pub proof fn lemma_api_names()
        ensures
            PveQmIdeCache::NoneValue.name() == "none"@,
            Self::parses_to("none"@, PveQmIdeCache::NoneValue),
            PveQmIdeCache::Writethrough.name() == "writethrough"@,
            Self::parses_to("writethrough"@, PveQmIdeCache::Writethrough),
            PveQmIdeCache::Writeback.name() == "writeback"@,
            Self::parses_to("writeback"@, PveQmIdeCache::Writeback),
            PveQmIdeCache::Unsafe.name() == "unsafe"@,
            Self::parses_to("unsafe"@, PveQmIdeCache::Unsafe),
            PveQmIdeCache::Directsync.name() == "directsync"@,
            Self::parses_to("directsync"@, PveQmIdeCache::Directsync),
    {
        Self::lemma_to_string_from_name(PveQmIdeCache::NoneValue);
        Self::lemma_to_string_from_name(PveQmIdeCache::Writethrough);
        Self::lemma_to_string_from_name(PveQmIdeCache::Writeback);
        Self::lemma_to_string_from_name(PveQmIdeCache::Unsafe);
        Self::lemma_to_string_from_name(PveQmIdeCache::Directsync);
    }

    /// Writing out a value that was read gives back the name that was read.
    pub proof fn lemma_from_name_to_string(s: Seq<char>, v: Self)
        requires
            Self::parses_to(s, v),
        ensures
            v.name() == s,
    {
    }

    /// Reading the name of a value gives back the value, unless the value is an
    /// unknown one that carries the name of a known one.
    pub proof fn lemma_to_string_from_name(v: Self)
        requires
            v is UnknownEnumValue ==> Self::known(v.name()) is None,
        ensures
            Self::parses_to(v.name(), v),
    {
        if !(v is UnknownEnumValue) {
            Self::lemma_known_names(v);
        }
    }

    /// The spelling of known names, character by character.
    proof fn lemma_name_spelling()
        ensures
            "none"@.len() == 4 && "none"@[0] == 'n' && "none"@[1] == 'o' && "none"@[2] == 'n' && "none"@[3] == 'e',
            "writethrough"@.len() == 12 && "writethrough"@[0] == 'w' && "writethrough"@[1] == 'r' && "writethrough"@[2] == 'i' && "writethrough"@[3] == 't' && "writethrough"@[4] == 'e' && "writethrough"@[5] == 't' && "writethrough"@[6] == 'h' && "writethrough"@[7] == 'r' && "writethrough"@[8] == 'o' && "writethrough"@[9] == 'u' && "writethrough"@[10] == 'g' && "writethrough"@[11] == 'h',
            "writeback"@.len() == 9 && "writeback"@[0] == 'w' && "writeback"@[1] == 'r' && "writeback"@[2] == 'i' && "writeback"@[3] == 't' && "writeback"@[4] == 'e' && "writeback"@[5] == 'b' && "writeback"@[6] == 'a' && "writeback"@[7] == 'c' && "writeback"@[8] == 'k',
            "unsafe"@.len() == 6 && "unsafe"@[0] == 'u' && "unsafe"@[1] == 'n' && "unsafe"@[2] == 's' && "unsafe"@[3] == 'a' && "unsafe"@[4] == 'f' && "unsafe"@[5] == 'e',
            "directsync"@.len() == 10 && "directsync"@[0] == 'd' && "directsync"@[1] == 'i' && "directsync"@[2] == 'r' && "directsync"@[3] == 'e' && "directsync"@[4] == 'c' && "directsync"@[5] == 't' && "directsync"@[6] == 's' && "directsync"@[7] == 'y' && "directsync"@[8] == 'n' && "directsync"@[9] == 'c',
    {
        broadcast use vstd::string::group_string_axioms;

        reveal_strlit("none");
        reveal_strlit("writethrough");
        reveal_strlit("writeback");
        reveal_strlit("unsafe");
        reveal_strlit("directsync");
    }

    proof fn lemma_known_names(v: Self)
        requires
            !(v is UnknownEnumValue),
        ensures
            Self::known(v.name()) == Some(v),
    {
        Self::lemma_name_spelling();
    }

}

/// Controls whether to pass discard/trim requests to the underlying storage.
#[derive(Clone, Debug)]
pub enum PveQmIdeDiscard {
    /// ignore.
    Ignore,
    /// on.
    On,
    /// Unknown variants for forward compatibility.
    UnknownEnumValue(String),
}

impl PartialEq for PveQmIdeDiscard {
    fn eq(&self, other: &Self) -> (r: bool) {
        match (self, other) {
            (PveQmIdeDiscard::Ignore, PveQmIdeDiscard::Ignore) => true,
            (PveQmIdeDiscard::On, PveQmIdeDiscard::On) => true,
            (PveQmIdeDiscard::UnknownEnumValue(a), PveQmIdeDiscard::UnknownEnumValue(b)) => *a == *b,
            _ => false,
        }
    }
}

impl PartialEqSpecImpl for PveQmIdeDiscard {
    open spec fn obeys_eq_spec() -> bool {
        true
    }

    open spec fn eq_spec(&self, other: &Self) -> bool {
        match (self, other) {
            (PveQmIdeDiscard::UnknownEnumValue(a), PveQmIdeDiscard::UnknownEnumValue(b)) => a@ == b@,
            _ => *self == *other,
        }
    }
}

impl std::str::FromStr for PveQmIdeDiscard {
    type Err = core::convert::Infallible;

    fn from_str(s: &str) -> (r: Result<Self, Self::Err>)
        ensures
            r matches Ok(v) && Self::parses_to(s@, v),
    {
        Ok(PveQmIdeDiscard::from_name(s))
    }
}

impl PveQmIdeDiscard {
    /// The name under which the API writes this value.
    pub open spec fn name(self) -> Seq<char> {
        match self {
            PveQmIdeDiscard::Ignore => "ignore"@,
            PveQmIdeDiscard::On => "on"@,
            PveQmIdeDiscard::UnknownEnumValue(s) => s@,
        }
    }

    /// The known value that the API name `s` stands for, if any.
    pub open spec fn known(s: Seq<char>) -> Option<Self> {
        if s == "ignore"@ {
            Some(PveQmIdeDiscard::Ignore)
        }         else if s == "on"@ {
            Some(PveQmIdeDiscard::On)
        } else {
            None
        }
    }

    /// `v` is the value that reading the API name `s` gives.
    pub open spec fn parses_to(s: Seq<char>, v: Self) -> bool {
        match Self::known(s) {
            Some(k) => v == k,
            None => v matches PveQmIdeDiscard::UnknownEnumValue(t) && t@ == s,
        }
    }

    /// The API name of this value.
    pub fn to_string(&self) -> (r: String)
        ensures
            r@ == self.name(),
    {
        match self {
            PveQmIdeDiscard::Ignore => String::from_str("ignore"),
            PveQmIdeDiscard::On => String::from_str("on"),
            PveQmIdeDiscard::UnknownEnumValue(s) => s.clone(),
        }
    }

    /// Reads an API name; a name that is not known is kept as an unknown value.
    pub fn from_name(s: &str) -> (r: Self)
        ensures
            Self::parses_to(s@, r),
    {
        if str_eq(s, "ignore") {
            PveQmIdeDiscard::Ignore
        }         else if str_eq(s, "on") {
            PveQmIdeDiscard::On
        } else {
            PveQmIdeDiscard::UnknownEnumValue(String::from_str(s))
        }
    }

    /// Each known value goes with the name the API uses for it: `ignore` for `Ignore`, `on` for `On`.
    /// `to_string` writes that name and `from_name` reads it as that value.
    pub proof fn lemma_api_names()
        ensures
            PveQmIdeDiscard::Ignore.name() == "ignore"@,
            Self::parses_to("ignore"@, PveQmIdeDiscard::Ignore),
            PveQmIdeDiscard::On.name() == "on"@,
            Self::parses_to("on"@, PveQmIdeDiscard::On),
    {
        Self::lemma_to_string_from_name(PveQmIdeDiscard::Ignore);
        Self::lemma_to_string_from_name(PveQmIdeDiscard::On);
    }

    /// Writing out a value that was read gives back the name that was read.
    pub proof fn lemma_from_name_to_string(s: Seq<char>, v: Self)
        requires
            Self::parses_to(s, v),
        ensures
            v.name() == s,
    {
    }

    /// Reading the name of a value gives back the value, unless the value is an
    /// unknown one that carries the name of a known one.
    pub proof fn lemma_to_string_from_name(v: Self)
        requires
            v is UnknownEnumValue ==> Self::known(v.name()) is None,
        ensures
            Self::parses_to(v.name(), v),
    {
        if !(v is UnknownEnumValue) {
            Self::lemma_known_names(v);
        }
    }

    /// The spelling of known names, character by character.
    proof fn lemma_name_spelling()
        ensures
            "ignore"@.len() == 6 && "ignore"@[0] == 'i' && "ignore"@[1] == 'g' && "ignore"@[2] == 'n' && "ignore"@[3] == 'o' && "ignore"@[4] == 'r' && "ignore"@[5] == 'e',
            "on"@.len() == 2 && "on"@[0] == 'o' && "on"@[1] == 'n',
    {
        broadcast use vstd::string::group_string_axioms;

        reveal_strlit("ignore");
        reveal_strlit("on");
    }

    proof fn lemma_known_names(v: Self)
        requires
            !(v is UnknownEnumValue),
        ensures
            Self::known(v.name()) == Some(v),
    {
        Self::lemma_name_spelling();
    }

}

/// The drive's backing file's data format.
#[derive(Clone, Debug)]
pub enum PveQmIdeFormat {
    /// raw.
    Raw,
    /// qcow.
    Qcow,
    /// qed.
    Qed,
    /// qcow2.
    Qcow2,
    /// vmdk.
    Vmdk,
    /// cloop.
    Cloop,
    /// Unknown variants for forward compatibility.
    UnknownEnumValue(String),
}

impl PartialEq for PveQmIdeFormat {
    fn eq(&self, other: &Self) -> (r: bool) {
        match (self, other) {
            (PveQmIdeFormat::Raw, PveQmIdeFormat::Raw) => true,
            (PveQmIdeFormat::Qcow, PveQmIdeFormat::Qcow) => true,
            (PveQmIdeFormat::Qed, PveQmIdeFormat::Qed) => true,
            (PveQmIdeFormat::Qcow2, PveQmIdeFormat::Qcow2) => true,
            (PveQmIdeFormat::Vmdk, PveQmIdeFormat::Vmdk) => true,
            (PveQmIdeFormat::Cloop, PveQmIdeFormat::Cloop) => true,
            (PveQmIdeFormat::UnknownEnumValue(a), PveQmIdeFormat::UnknownEnumValue(b)) => *a == *b,
            _ => false,
        }
    }
}

impl PartialEqSpecImpl for PveQmIdeFormat {
    open spec fn obeys_eq_spec() -> bool {
        true
    }

    open spec fn eq_spec(&self, other: &Self) -> bool {
        match (self, other) {
            (PveQmIdeFormat::UnknownEnumValue(a), PveQmIdeFormat::UnknownEnumValue(b)) => a@ == b@,
            _ => *self == *other,
        }
    }
}

impl std::str::FromStr for PveQmIdeFormat {
    type Err = core::convert::Infallible;

    fn from_str(s: &str) -> (r: Result<Self, Self::Err>)
        ensures
            r matches Ok(v) && Self::parses_to(s@, v),
    {
        Ok(PveQmIdeFormat::from_name(s))
    }
}

impl PveQmIdeFormat {
    /// The name under which the API writes this value.
    pub open spec fn name(self) -> Seq<char> {
        match self {
            PveQmIdeFormat::Raw => "raw"@,
            PveQmIdeFormat::Qcow => "qcow"@,
            PveQmIdeFormat::Qed => "qed"@,
            PveQmIdeFormat::Qcow2 => "qcow2"@,
            PveQmIdeFormat::Vmdk => "vmdk"@,
            PveQmIdeFormat::Cloop => "cloop"@,
            PveQmIdeFormat::UnknownEnumValue(s) => s@,
        }
    }

    /// The known value that the API name `s` stands for, if any.
    pub open spec fn known(s: Seq<char>) -> Option<Self> {
        if s == "raw"@ {
            Some(PveQmIdeFormat::Raw)
        }         else if s == "qcow"@ {
            Some(PveQmIdeFormat::Qcow)
        }         else if s == "qed"@ {
            Some(PveQmIdeFormat::Qed)
        }         else if s == "qcow2"@ {
            Some(PveQmIdeFormat::Qcow2)
        }         else if s == "vmdk"@ {
            Some(PveQmIdeFormat::Vmdk)
        }         else if s == "cloop"@ {
            Some(PveQmIdeFormat::Cloop)
        } else {
            None
        }
    }

    /// `v` is the value that reading the API name `s` gives.
    pub open spec fn parses_to(s: Seq<char>, v: Self) -> bool {
        match Self::known(s) {
            Some(k) => v == k,
            None => v matches PveQmIdeFormat::UnknownEnumValue(t) && t@ == s,
        }
    }

    /// The API name of this value.
    pub fn to_string(&self) -> (r: String)
        ensures
            r@ == self.name(),
    {
        match self {
            PveQmIdeFormat::Raw => String::from_str("raw"),
            PveQmIdeFormat::Qcow => String::from_str("qcow"),
            PveQmIdeFormat::Qed => String::from_str("qed"),
            PveQmIdeFormat::Qcow2 => String::from_str("qcow2"),
            PveQmIdeFormat::Vmdk => String::from_str("vmdk"),
            PveQmIdeFormat::Cloop => String::from_str("cloop"),
            PveQmIdeFormat::UnknownEnumValue(s) => s.clone(),
        }
    }

    /// Reads an API name; a name that is not known is kept as an unknown value.
    pub fn from_name(s: &str) -> (r: Self)
        ensures
            Self::parses_to(s@, r),
    {
        if str_eq(s, "raw") {
            PveQmIdeFormat::Raw
        }         else if str_eq(s, "qcow") {
            PveQmIdeFormat::Qcow
        }         else if str_eq(s, "qed") {
            PveQmIdeFormat::Qed
        }         else if str_eq(s, "qcow2") {
            PveQmIdeFormat::Qcow2
        }         else if str_eq(s, "vmdk") {
            PveQmIdeFormat::Vmdk
        }         else if str_eq(s, "cloop") {
            PveQmIdeFormat::Cloop
        } else {
            PveQmIdeFormat::UnknownEnumValue(String::from_str(s))
        }
    }

    /// Each known value goes with the name the API uses for it: `raw` for `Raw`, `qcow` for `Qcow`, `qed` for `Qed`, and so on for every known value.
    /// `to_string` writes that name and `from_name` reads it as that value.
    pub proof fn lemma_api_names()
        ensures
            PveQmIdeFormat::Raw.name() == "raw"@,
            Self::parses_to("raw"@, PveQmIdeFormat::Raw),
            PveQmIdeFormat::Qcow.name() == "qcow"@,
            Self::parses_to("qcow"@, PveQmIdeFormat::Qcow),
            PveQmIdeFormat::Qed.name() == "qed"@,
            Self::parses_to("qed"@, PveQmIdeFormat::Qed),
            PveQmIdeFormat::Qcow2.name() == "qcow2"@,
            Self::parses_to("qcow2"@, PveQmIdeFormat::Qcow2),
            PveQmIdeFormat::Vmdk.name() == "vmdk"@,
            Self::parses_to("vmdk"@, PveQmIdeFormat::Vmdk),
            PveQmIdeFormat::Cloop.name() == "cloop"@,
            Self::parses_to("cloop"@, PveQmIdeFormat::Cloop),
    {
        Self::lemma_to_string_from_name(PveQmIdeFormat::Raw);
        Self::lemma_to_string_from_name(PveQmIdeFormat::Qcow);
        Self::lemma_to_string_from_name(PveQmIdeFormat::Qed);
        Self::lemma_to_string_from_name(PveQmIdeFormat::Qcow2);
        Self::lemma_to_string_from_name(PveQmIdeFormat::Vmdk);
        Self::lemma_to_string_from_name(PveQmIdeFormat::Cloop);
    }

    /// Writing out a value that was read gives back the name that was read.
    pub proof fn lemma_from_name_to_string(s: Seq<char>, v: Self)
        requires
            Self::parses_to(s, v),
        ensures
            v.name() == s,
    {
    }

    /// Reading the name of a value gives back the value, unless the value is an
    /// unknown one that carries the name of a known one.
    pub proof fn lemma_to_string_from_name(v: Self)
        requires
            v is UnknownEnumValue ==> Self::known(v.name()) is None,
        ensures
            Self::parses_to(v.name(), v),
    {
        if !(v is UnknownEnumValue) {
            Self::lemma_known_names(v);
        }
    }

    /// The spelling of known names, character by character.
    proof fn lemma_name_spelling()
        ensures
            "raw"@.len() == 3 && "raw"@[0] == 'r' && "raw"@[1] == 'a' && "raw"@[2] == 'w',
            "qcow"@.len() == 4 && "qcow"@[0] == 'q' && "qcow"@[1] == 'c' && "qcow"@[2] == 'o' && "qcow"@[3] == 'w',
            "qed"@.len() == 3 && "qed"@[0] == 'q' && "qed"@[1] == 'e' && "qed"@[2] == 'd',
            "qcow2"@.len() == 5 && "qcow2"@[0] == 'q' && "qcow2"@[1] == 'c' && "qcow2"@[2] == 'o' && "qcow2"@[3] == 'w' && "qcow2"@[4] == '2',
            "vmdk"@.len() == 4 && "vmdk"@[0] == 'v' && "vmdk"@[1] == 'm' && "vmdk"@[2] == 'd' && "vmdk"@[3] == 'k',
            "cloop"@.len() == 5 && "cloop"@[0] == 'c' && "cloop"@[1] == 'l' && "cloop"@[2] == 'o' && "cloop"@[3] == 'o' && "cloop"@[4] == 'p',
    {
        broadcast use vstd::string::group_string_axioms;

        reveal_strlit("raw");
        reveal_strlit("qcow");
        reveal_strlit("qed");
        reveal_strlit("qcow2");
        reveal_strlit("vmdk");
        reveal_strlit("cloop");
    }

    proof fn lemma_known_names(v: Self)
        requires
            !(v is UnknownEnumValue),
        ensures
            Self::known(v.name()) == Some(v),
    {
        Self::lemma_name_spelling();
    }

}

/// The drive's media type.
#[derive(Clone, Debug)]
pub enum PveQmIdeMedia {
    /// cdrom.
    Cdrom,
    /// disk.
    Disk,
    /// Unknown variants for forward compatibility.
    UnknownEnumValue(String),
}

impl PartialEq for PveQmIdeMedia {
    fn eq(&self, other: &Self) -> (r: bool) {
        match (self, other) {
            (PveQmIdeMedia::Cdrom, PveQmIdeMedia::Cdrom) => true,
            (PveQmIdeMedia::Disk, PveQmIdeMedia::Disk) => true,
            (PveQmIdeMedia::UnknownEnumValue(a), PveQmIdeMedia::UnknownEnumValue(b)) => *a == *b,
            _ => false,
        }
    }
}

impl PartialEqSpecImpl for PveQmIdeMedia {
    open spec fn obeys_eq_spec() -> bool {
        true
    }

    open spec fn eq_spec(&self, other: &Self) -> bool {
        match (self, other) {
            (PveQmIdeMedia::UnknownEnumValue(a), PveQmIdeMedia::UnknownEnumValue(b)) => a@ == b@,
            _ => *self == *other,
        }
    }
}

impl Default for PveQmIdeMedia {
    fn default() -> (r: Self)
        ensures
            r == PveQmIdeMedia::Disk,
    {
        PveQmIdeMedia::Disk
    }
}

impl std::str::FromStr for PveQmIdeMedia {
    type Err = core::convert::Infallible;

    fn from_str(s: &str) -> (r: Result<Self, Self::Err>)
        ensures
            r matches Ok(v) && Self::parses_to(s@, v),
    {
        Ok(PveQmIdeMedia::from_name(s))
    }
}

impl PveQmIdeMedia {
    /// The name under which the API writes this value.
    pub open spec fn name(self) -> Seq<char> {
        match self {
            PveQmIdeMedia::Cdrom => "cdrom"@,
            PveQmIdeMedia::Disk => "disk"@,
            PveQmIdeMedia::UnknownEnumValue(s) => s@,
        }
    }

    /// The known value that the API name `s` stands for, if any.
    pub open spec fn known(s: Seq<char>) -> Option<Self> {
        if s == "cdrom"@ {
            Some(PveQmIdeMedia::Cdrom)
        }         else if s == "disk"@ {
            Some(PveQmIdeMedia::Disk)
        } else {
            None
        }
    }

    /// `v` is the value that reading the API name `s` gives.
    pub open spec fn parses_to(s: Seq<char>, v: Self) -> bool {
        match Self::known(s) {
            Some(k) => v == k,
            None => v matches PveQmIdeMedia::UnknownEnumValue(t) && t@ == s,
        }
    }

    /// The API name of this value.
    pub fn to_string(&self) -> (r: String)
        ensures
            r@ == self.name(),
    {
        match self {
            PveQmIdeMedia::Cdrom => String::from_str("cdrom"),
            PveQmIdeMedia::Disk => String::from_str("disk"),
            PveQmIdeMedia::UnknownEnumValue(s) => s.clone(),
        }
    }

    /// Reads an API name; a name that is not known is kept as an unknown value.
    pub fn from_name(s: &str) -> (r: Self)
        ensures
            Self::parses_to(s@, r),
    {
        if str_eq(s, "cdrom") {
            PveQmIdeMedia::Cdrom
        }         else if str_eq(s, "disk") {
            PveQmIdeMedia::Disk
        } else {
            PveQmIdeMedia::UnknownEnumValue(String::from_str(s))
        }
    }

    /// Each known value goes with the name the API uses for it: `cdrom` for `Cdrom`, `disk` for `Disk`.
    /// `to_string` writes that name and `from_name` reads it as that value.
    pub proof fn lemma_api_names()
        ensures
            PveQmIdeMedia::Cdrom.name() == "cdrom"@,
            Self::parses_to("cdrom"@, PveQmIdeMedia::Cdrom),
            PveQmIdeMedia::Disk.name() == "disk"@,
            Self::parses_to("disk"@, PveQmIdeMedia::Disk),
    {
        Self::lemma_to_string_from_name(PveQmIdeMedia::Cdrom);
        Self::lemma_to_string_from_name(PveQmIdeMedia::Disk);
    }

    /// Writing out a value that was read gives back the name that was read.
    pub proof fn lemma_from_name_to_string(s: Seq<char>, v: Self)
        requires
            Self::parses_to(s, v),
        ensures
            v.name() == s,
    {
    }

    /// Reading the name of a value gives back the value, unless the value is an
    /// unknown one that carries the name of a known one.
    pub proof fn lemma_to_string_from_name(v: Self)
        requires
            v is UnknownEnumValue ==> Self::known(v.name()) is None,
        ensures
            Self::parses_to(v.name(), v),
    {
        if !(v is UnknownEnumValue) {
            Self::lemma_known_names(v);
        }
    }

    /// The spelling of known names, character by character.
    proof fn lemma_name_spelling()
        ensures
            "cdrom"@.len() == 5 && "cdrom"@[0] == 'c' && "cdrom"@[1] == 'd' && "cdrom"@[2] == 'r' && "cdrom"@[3] == 'o' && "cdrom"@[4] == 'm',
            "disk"@.len() == 4 && "disk"@[0] == 'd' && "disk"@[1] == 'i' && "disk"@[2] == 's' && "disk"@[3] == 'k',
    {
        broadcast use vstd::string::group_string_axioms;

        reveal_strlit("cdrom");
        reveal_strlit("disk");
    }

    proof fn lemma_known_names(v: Self)
        requires
            !(v is UnknownEnumValue),
        ensures
            Self::known(v.name()) == Some(v),
    {
        Self::lemma_name_spelling();
    }

}

/// Read error action.
#[derive(Clone, Debug)]
pub enum PveQmIdeRerror {
    /// ignore.
    Ignore,
    /// report.
    Report,
    /// stop.
    Stop,
    /// Unknown variants for forward compatibility.
    UnknownEnumValue(String),
}

impl PartialEq for PveQmIdeRerror {
    fn eq(&self, other: &Self) -> (r: bool) {
        match (self, other) {
            (PveQmIdeRerror::Ignore, PveQmIdeRerror::Ignore) => true,
            (PveQmIdeRerror::Report, PveQmIdeRerror::Report) => true,
            (PveQmIdeRerror::Stop, PveQmIdeRerror::Stop) => true,
            (PveQmIdeRerror::UnknownEnumValue(a), PveQmIdeRerror::UnknownEnumValue(b)) => *a == *b,
            _ => false,
        }
    }
}

impl PartialEqSpecImpl for PveQmIdeRerror {
    open spec fn obeys_eq_spec() -> bool {
        true
    }

    open spec fn eq_spec(&self, other: &Self) -> bool {
        match (self, other) {
            (PveQmIdeRerror::UnknownEnumValue(a), PveQmIdeRerror::UnknownEnumValue(b)) => a@ == b@,
            _ => *self == *other,
        }
    }
}

impl std::str::FromStr for PveQmIdeRerror {
    type Err = core::convert::Infallible;

    fn from_str(s: &str) -> (r: Result<Self, Self::Err>)
        ensures
            r matches Ok(v) && Self::parses_to(s@, v),
    {
        Ok(PveQmIdeRerror::from_name(s))
    }
}

impl PveQmIdeRerror {
    /// The name under which the API writes this value.
    pub open spec fn name(self) -> Seq<char> {
        match self {
            PveQmIdeRerror::Ignore => "ignore"@,
            PveQmIdeRerror::Report => "report"@,
            PveQmIdeRerror::Stop => "stop"@,
            PveQmIdeRerror::UnknownEnumValue(s) => s@,
        }
    }

    /// The known value that the API name `s` stands for, if any.
    pub open spec fn known(s: Seq<char>) -> Option<Self> {
        if s == "ignore"@ {
            Some(PveQmIdeRerror::Ignore)
        }         else if s == "report"@ {
            Some(PveQmIdeRerror::Report)
        }         else if s == "stop"@ {
            Some(PveQmIdeRerror::Stop)
        } else {
            None
        }
    }

    /// `v` is the value that reading the API name `s` gives.
    pub open spec fn parses_to(s: Seq<char>, v: Self) -> bool {
        match Self::known(s) {
            Some(k) => v == k,
            None => v matches PveQmIdeRerror::UnknownEnumValue(t) && t@ == s,
        }
    }

    /// The API name of this value.
    pub fn to_string(&self) -> (r: String)
        ensures
            r@ == self.name(),
    {
        match self {
            PveQmIdeRerror::Ignore => String::from_str("ignore"),
            PveQmIdeRerror::Report => String::from_str("report"),
            PveQmIdeRerror::Stop => String::from_str("stop"),
            PveQmIdeRerror::UnknownEnumValue(s) => s.clone(),
        }
    }

    /// Reads an API name; a name that is not known is kept as an unknown value.
    pub fn from_name(s: &str) -> (r: Self)
        ensures
            Self::parses_to(s@, r),
    {
        if str_eq(s, "ignore") {
            PveQmIdeRerror::Ignore
        }         else if str_eq(s, "report") {
            PveQmIdeRerror::Report
        }         else if str_eq(s, "stop") {
            PveQmIdeRerror::Stop
        } else {
            PveQmIdeRerror::UnknownEnumValue(String::from_str(s))
        }
    }

    /// Each known value goes with the name the API uses for it: `ignore` for `Ignore`, `report` for `Report`, `stop` for `Stop`.
    /// `to_string` writes that name and `from_name` reads it as that value.
    pub proof fn lemma_api_names()
        ensures
            PveQmIdeRerror::Ignore.name() == "ignore"@,
            Self::parses_to("ignore"@, PveQmIdeRerror::Ignore),
            PveQmIdeRerror::Report.name() == "report"@,
            Self::parses_to("report"@, PveQmIdeRerror::Report),
            PveQmIdeRerror::Stop.name() == "stop"@,
            Self::parses_to("stop"@, PveQmIdeRerror::Stop),
    {
        Self::lemma_to_string_from_name(PveQmIdeRerror::Ignore);
        Self::lemma_to_string_from_name(PveQmIdeRerror::Report);
        Self::lemma_to_string_from_name(PveQmIdeRerror::Stop);
    }

    /// Writing out a value that was read gives back the name that was read.
    pub proof fn lemma_from_name_to_string(s: Seq<char>, v: Self)
        requires
            Self::parses_to(s, v),
        ensures
            v.name() == s,
    {
    }

    /// Reading the name of a value gives back the value, unless the value is an
    /// unknown one that carries the name of a known one.
    pub proof fn lemma_to_string_from_name(v: Self)
        requires
            v is UnknownEnumValue ==> Self::known(v.name()) is None,
        ensures
            Self::parses_to(v.name(), v),
    {
        if !(v is UnknownEnumValue) {
            Self::lemma_known_names(v);
        }
    }

    /// The spelling of known names, character by character.
    proof fn lemma_name_spelling()
        ensures
            "ignore"@.len() == 6 && "ignore"@[0] == 'i' && "ignore"@[1] == 'g' && "ignore"@[2] == 'n' && "ignore"@[3] == 'o' && "ignore"@[4] == 'r' && "ignore"@[5] == 'e',
            "report"@.len() == 6 && "report"@[0] == 'r' && "report"@[1] == 'e' && "report"@[2] == 'p' && "report"@[3] == 'o' && "report"@[4] == 'r' && "report"@[5] == 't',
            "stop"@.len() == 4 && "stop"@[0] == 's' && "stop"@[1] == 't' && "stop"@[2] == 'o' && "stop"@[3] == 'p',
    {
        broadcast use vstd::string::group_string_axioms;

        reveal_strlit("ignore");
        reveal_strlit("report");
        reveal_strlit("stop");
    }

    proof fn lemma_known_names(v: Self)
        requires
            !(v is UnknownEnumValue),
        ensures
            Self::known(v.name()) == Some(v),
    {
        Self::lemma_name_spelling();
    }

}

/// Write error action.
#[derive(Clone, Debug)]
pub enum PveQmIdeWerror {
    /// enospc.
    Enospc,
    /// ignore.
    Ignore,
    /// report.
    Report,
    /// stop.
    Stop,
    /// Unknown variants for forward compatibility.
    UnknownEnumValue(String),
}

impl PartialEq for PveQmIdeWerror {
    fn eq(&self, other: &Self) -> (r: bool) {
        match (self, other) {
            (PveQmIdeWerror::Enospc, PveQmIdeWerror::Enospc) => true,
            (PveQmIdeWerror::Ignore, PveQmIdeWerror::Ignore) => true,
            (PveQmIdeWerror::Report, PveQmIdeWerror::Report) => true,
            (PveQmIdeWerror::Stop, PveQmIdeWerror::Stop) => true,
            (PveQmIdeWerror::UnknownEnumValue(a), PveQmIdeWerror::UnknownEnumValue(b)) => *a == *b,
            _ => false,
        }
    }
}

impl PartialEqSpecImpl for PveQmIdeWerror {
    open spec fn obeys_eq_spec() -> bool {
        true
    }

    open spec fn eq_spec(&self, other: &Self) -> bool {
        match (self, other) {
            (PveQmIdeWerror::UnknownEnumValue(a), PveQmIdeWerror::UnknownEnumValue(b)) => a@ == b@,
            _ => *self == *other,
        }
    }
}

impl std::str::FromStr for PveQmIdeWerror {
    type Err = core::convert::Infallible;

    fn from_str(s: &str) -> (r: Result<Self, Self::Err>)
        ensures
            r matches Ok(v) && Self::parses_to(s@, v),
    {
        Ok(PveQmIdeWerror::from_name(s))
    }
}

impl PveQmIdeWerror {
    /// The name under which the API writes this value.
    pub open spec fn name(self) -> Seq<char> {
        match self {
            PveQmIdeWerror::Enospc => "enospc"@,
            PveQmIdeWerror::Ignore => "ignore"@,
            PveQmIdeWerror::Report => "report"@,
            PveQmIdeWerror::Stop => "stop"@,
            PveQmIdeWerror::UnknownEnumValue(s) => s@,
        }
    }

    /// The known value that the API name `s` stands for, if any.
    pub open spec fn known(s: Seq<char>) -> Option<Self> {
        if s == "enospc"@ {
            Some(PveQmIdeWerror::Enospc)
        }         else if s == "ignore"@ {
            Some(PveQmIdeWerror::Ignore)
        }         else if s == "report"@ {
            Some(PveQmIdeWerror::Report)
        }         else if s == "stop"@ {
            Some(PveQmIdeWerror::Stop)
        } else {
            None
        }
    }

    /// `v` is the value that reading the API name `s` gives.
    pub open spec fn parses_to(s: Seq<char>, v: Self) -> bool {
        match Self::known(s) {
            Some(k) => v == k,
            None => v matches PveQmIdeWerror::UnknownEnumValue(t) && t@ == s,
        }
    }

    /// The API name of this value.
    pub fn to_string(&self) -> (r: String)
        ensures
            r@ == self.name(),
    {
        match self {
            PveQmIdeWerror::Enospc => String::from_str("enospc"),
            PveQmIdeWerror::Ignore => String::from_str("ignore"),
            PveQmIdeWerror::Report => String::from_str("report"),
            PveQmIdeWerror::Stop => String::from_str("stop"),
            PveQmIdeWerror::UnknownEnumValue(s) => s.clone(),
        }
    }

    /// Reads an API name; a name that is not known is kept as an unknown value.
    pub fn from_name(s: &str) -> (r: Self)
        ensures
            Self::parses_to(s@, r),
    {
        if str_eq(s, "enospc") {
            PveQmIdeWerror::Enospc
        }         else if str_eq(s, "ignore") {
            PveQmIdeWerror::Ignore
        }         else if str_eq(s, "report") {
            PveQmIdeWerror::Report
        }         else if str_eq(s, "stop") {
            PveQmIdeWerror::Stop
        } else {
            PveQmIdeWerror::UnknownEnumValue(String::from_str(s))
        }
    }

    /// Each known value goes with the name the API uses for it: `enospc` for `Enospc`, `ignore` for `Ignore`, `report` for `Report`, and so on for every known value.
    /// `to_string` writes that name and `from_name` reads it as that value.
    pub proof fn lemma_api_names()
        ensures
            PveQmIdeWerror::Enospc.name() == "enospc"@,
            Self::parses_to("enospc"@, PveQmIdeWerror::Enospc),
            PveQmIdeWerror::Ignore.name() == "ignore"@,
            Self::parses_to("ignore"@, PveQmIdeWerror::Ignore),
            PveQmIdeWerror::Report.name() == "report"@,
            Self::parses_to("report"@, PveQmIdeWerror::Report),
            PveQmIdeWerror::Stop.name() == "stop"@,
            Self::parses_to("stop"@, PveQmIdeWerror::Stop),
    {
        Self::lemma_to_string_from_name(PveQmIdeWerror::Enospc);
        Self::lemma_to_string_from_name(PveQmIdeWerror::Ignore);
        Self::lemma_to_string_from_name(PveQmIdeWerror::Report);
        Self::lemma_to_string_from_name(PveQmIdeWerror::Stop);
    }

    /// Writing out a value that was read gives back the name that was read.
    pub proof fn lemma_from_name_to_string(s: Seq<char>, v: Self)
        requires
            Self::parses_to(s, v),
        ensures
            v.name() == s,
    {
    }

    /// Reading the name of a value gives back the value, unless the value is an
    /// unknown one that carries the name of a known one.
    pub proof fn lemma_to_string_from_name(v: Self)
        requires
            v is UnknownEnumValue ==> Self::known(v.name()) is None,
        ensures
            Self::parses_to(v.name(), v),
    {
        if !(v is UnknownEnumValue) {
            Self::lemma_known_names(v);
        }
    }

    /// The spelling of known names, character by character.
    proof fn lemma_name_spelling()
        ensures
            "enospc"@.len() == 6 && "enospc"@[0] == 'e' && "enospc"@[1] == 'n' && "enospc"@[2] == 'o' && "enospc"@[3] == 's' && "enospc"@[4] == 'p' && "enospc"@[5] == 'c',
            "ignore"@.len() == 6 && "ignore"@[0] == 'i' && "ignore"@[1] == 'g' && "ignore"@[2] == 'n' && "ignore"@[3] == 'o' && "ignore"@[4] == 'r' && "ignore"@[5] == 'e',
            "report"@.len() == 6 && "report"@[0] == 'r' && "report"@[1] == 'e' && "report"@[2] == 'p' && "report"@[3] == 'o' && "report"@[4] == 'r' && "report"@[5] == 't',
            "stop"@.len() == 4 && "stop"@[0] == 's' && "stop"@[1] == 't' && "stop"@[2] == 'o' && "stop"@[3] == 'p',
    {
        broadcast use vstd::string::group_string_axioms;

        reveal_strlit("enospc");
        reveal_strlit("ignore");
        reveal_strlit("report");
        reveal_strlit("stop");
    }

    proof fn lemma_known_names(v: Self)
        requires
            !(v is UnknownEnumValue),
        ensures
            Self::known(v.name()) == Some(v),
    {
        Self::lemma_name_spelling();
    }

}

/// Object.
#[derive(Debug)]
pub struct PveQmIpconfig {
    /// Default gateway for IPv4 traffic.
    pub gw: Option<String>,

    /// Default gateway for IPv6 traffic.
    pub gw6: Option<String>,

    /// IPv4 address in CIDR format.
    pub ip: Option<String>,

    /// IPv6 address in CIDR format.
    pub ip6: Option<String>,
}

/// Object.
#[derive(Debug)]
pub struct PveQmRng {
    /// Maximum bytes of entropy allowed to get injected into the guest every
    /// 'period' milliseconds. Use `0` to disable limiting (potentially
    /// dangerous!).
    pub max_bytes: Option<i64>,

    /// Every 'period' milliseconds the entropy-injection quota is reset,
    /// allowing the guest to retrieve another 'max_bytes' of entropy.
    pub period: Option<i64>,

    pub source: PveQmRngSource,
}

/// The file on the host to gather entropy from. Using urandom does *not*
/// decrease security in any meaningful way, as it's still seeded from real
/// entropy, and the bytes provided will most likely be mixed with real entropy
/// on the guest as well. '/dev/hwrng' can be used to pass through a hardware
/// RNG from the host.
#[derive(Clone, Debug)]
pub enum PveQmRngSource {
    /// /dev/urandom.
    DevUrandom,
    /// /dev/random.
    DevRandom,
    /// /dev/hwrng.
    DevHwrng,
    /// Unknown variants for forward compatibility.
    UnknownEnumValue(String),
}

impl PartialEq for PveQmRngSource {
    fn eq(&self, other: &Self) -> (r: bool) {
        match (self, other) {
            (PveQmRngSource::DevUrandom, PveQmRngSource::DevUrandom) => true,
            (PveQmRngSource::DevRandom, PveQmRngSource::DevRandom) => true,
            (PveQmRngSource::DevHwrng, PveQmRngSource::DevHwrng) => true,
            (PveQmRngSource::UnknownEnumValue(a), PveQmRngSource::UnknownEnumValue(b)) => *a == *b,
            _ => false,
        }
    }
}

impl PartialEqSpecImpl for PveQmRngSource {
    open spec fn obeys_eq_spec() -> bool {
        true
    }

    open spec fn eq_spec(&self, other: &Self) -> bool {
        match (self, other) {
            (PveQmRngSource::UnknownEnumValue(a), PveQmRngSource::UnknownEnumValue(b)) => a@ == b@,
            _ => *self == *other,
        }
    }
}

impl std::str::FromStr for PveQmRngSource {
    type Err = core::convert::Infallible;

    fn from_str(s: &str) -> (r: Result<Self, Self::Err>)
        ensures
            r matches Ok(v) && Self::parses_to(s@, v),
    {
        Ok(PveQmRngSource::from_name(s))
    }
}

impl PveQmRngSource {
    /// The name under which the API writes this value.
    pub open spec fn name(self) -> Seq<char> {
        match self {
            PveQmRngSource::DevUrandom => "/dev/urandom"@,
            PveQmRngSource::DevRandom => "/dev/random"@,
            PveQmRngSource::DevHwrng => "/dev/hwrng"@,
            PveQmRngSource::UnknownEnumValue(s) => s@,
        }
    }

    /// The known value that the API name `s` stands for, if any.
    pub open spec fn known(s: Seq<char>) -> Option<Self> {
        if s == "/dev/urandom"@ {
            Some(PveQmRngSource::DevUrandom)
        }         else if s == "/dev/random"@ {
            Some(PveQmRngSource::DevRandom)
        }         else if s == "/dev/hwrng"@ {
            Some(PveQmRngSource::DevHwrng)
        } else {
            None
        }
    }

    /// `v` is the value that reading the API name `s` gives.
    pub open spec fn parses_to(s: Seq<char>, v: Self) -> bool {
        match Self::known(s) {
            Some(k) => v == k,
            None => v matches PveQmRngSource::UnknownEnumValue(t) && t@ == s,
        }
    }

    /// The API name of this value.
    pub fn to_string(&self) -> (r: String)
        ensures
            r@ == self.name(),
    {
        match self {
            PveQmRngSource::DevUrandom => String::from_str("/dev/urandom"),
            PveQmRngSource::DevRandom => String::from_str("/dev/random"),
            PveQmRngSource::DevHwrng => String::from_str("/dev/hwrng"),
            PveQmRngSource::UnknownEnumValue(s) => s.clone(),
        }
    }

    /// Reads an API name; a name that is not known is kept as an unknown value.
    pub fn from_name(s: &str) -> (r: Self)
        ensures
            Self::parses_to(s@, r),
    {
        if str_eq(s, "/dev/urandom") {
            PveQmRngSource::DevUrandom
        }         else if str_eq(s, "/dev/random") {
            PveQmRngSource::DevRandom
        }         else if str_eq(s, "/dev/hwrng") {
            PveQmRngSource::DevHwrng
        } else {
            PveQmRngSource::UnknownEnumValue(String::from_str(s))
        }
    }

    /// Each known value goes with the name the API uses for it: `/dev/urandom` for `DevUrandom`, `/dev/random` for `DevRandom`, `/dev/hwrng` for `DevHwrng`.
    /// `to_string` writes that name and `from_name` reads it as that value.
    pub proof fn lemma_api_names()
        ensures
            PveQmRngSource::DevUrandom.name() == "/dev/urandom"@,
            Self::parses_to("/dev/urandom"@, PveQmRngSource::DevUrandom),
            PveQmRngSource::DevRandom.name() == "/dev/random"@,
            Self::parses_to("/dev/random"@, PveQmRngSource::DevRandom),
            PveQmRngSource::DevHwrng.name() == "/dev/hwrng"@,
            Self::parses_to("/dev/hwrng"@, PveQmRngSource::DevHwrng),
    {
        Self::lemma_to_string_from_name(PveQmRngSource::DevUrandom);
        Self::lemma_to_string_from_name(PveQmRngSource::DevRandom);
        Self::lemma_to_string_from_name(PveQmRngSource::DevHwrng);
    }

    /// Writing out a value that was read gives back the name that was read.
    pub proof fn lemma_from_name_to_string(s: Seq<char>, v: Self)
        requires
            Self::parses_to(s, v),
        ensures
            v.name() == s,
    {
    }

    /// Reading the name of a value gives back the value, unless the value is an
    /// unknown one that carries the name of a known one.
    pub proof fn lemma_to_string_from_name(v: Self)
        requires
            v is UnknownEnumValue ==> Self::known(v.name()) is None,
        ensures
            Self::parses_to(v.name(), v),
    {
        if !(v is UnknownEnumValue) {
            Self::lemma_known_names(v);
        }
    }

    /// The spelling of known names, character by character.
    proof fn lemma_name_spelling()
        ensures
            "/dev/urandom"@.len() == 12 && "/dev/urandom"@[0] == '/' && "/dev/urandom"@[1] == 'd' && "/dev/urandom"@[2] == 'e' && "/dev/urandom"@[3] == 'v' && "/dev/urandom"@[4] == '/' && "/dev/urandom"@[5] == 'u' && "/dev/urandom"@[6] == 'r' && "/dev/urandom"@[7] == 'a' && "/dev/urandom"@[8] == 'n' && "/dev/urandom"@[9] == 'd' && "/dev/urandom"@[10] == 'o' && "/dev/urandom"@[11] == 'm',
            "/dev/random"@.len() == 11 && "/dev/random"@[0] == '/' && "/dev/random"@[1] == 'd' && "/dev/random"@[2] == 'e' && "/dev/random"@[3] == 'v' && "/dev/random"@[4] == '/' && "/dev/random"@[5] == 'r' && "/dev/random"@[6] == 'a' && "/dev/random"@[7] == 'n' && "/dev/random"@[8] == 'd' && "/dev/random"@[9] == 'o' && "/dev/random"@[10] == 'm',
            "/dev/hwrng"@.len() == 10 && "/dev/hwrng"@[0] == '/' && "/dev/hwrng"@[1] == 'd' && "/dev/hwrng"@[2] == 'e' && "/dev/hwrng"@[3] == 'v' && "/dev/hwrng"@[4] == '/' && "/dev/hwrng"@[5] == 'h' && "/dev/hwrng"@[6] == 'w' && "/dev/hwrng"@[7] == 'r' && "/dev/hwrng"@[8] == 'n' && "/dev/hwrng"@[9] == 'g',
    {
        broadcast use vstd::string::group_string_axioms;

        reveal_strlit("/dev/urandom");
        reveal_strlit("/dev/random");
        reveal_strlit("/dev/hwrng");
    }

    proof fn lemma_known_names(v: Self)
        requires
            !(v is UnknownEnumValue),
        ensures
            Self::known(v.name()) == Some(v),
    {
        Self::lemma_name_spelling();
    }

}

/// Object.
#[derive(Debug)]
pub struct PveQmSmbios1 {
    /// Flag to indicate that the SMBIOS values are base64 encoded
    pub base64: Option<bool>,

    /// Set SMBIOS1 family string.
    pub family: Option<String>,

    /// Set SMBIOS1 manufacturer.
    pub manufacturer: Option<String>,

    /// Set SMBIOS1 product ID.
    pub product: Option<String>,

    /// Set SMBIOS1 serial number.
    pub serial: Option<String>,

    /// Set SMBIOS1 SKU string.
    pub sku: Option<String>,

    /// Set SMBIOS1 UUID.
    pub uuid: Option<String>,

    /// Set SMBIOS1 version.
    pub version: Option<String>,
}

/// Object.
#[derive(Debug)]
pub struct PveQmWatchdog {
    pub action: Option<PveQmWatchdogAction>,

    pub model: Option<PveQmWatchdogModel>,
}

/// The action to perform if after activation the guest fails to poll the
/// watchdog in time.
#[derive(Clone, Debug)]
pub enum PveQmWatchdogAction {
    /// reset.
    Reset,
    /// shutdown.
    Shutdown,
    /// poweroff.
    Poweroff,
    /// pause.
    Pause,
    /// debug.
    Debug,
    /// none.
    NoneValue,
    /// Unknown variants for forward compatibility.
    UnknownEnumValue(String),
}

impl PartialEq for PveQmWatchdogAction {
    fn eq(&self, other: &Self) -> (r: bool) {
        match (self, other) {
            (PveQmWatchdogAction::Reset, PveQmWatchdogAction::Reset) => true,
            (PveQmWatchdogAction::Shutdown, PveQmWatchdogAction::Shutdown) => true,
            (PveQmWatchdogAction::Poweroff, PveQmWatchdogAction::Poweroff) => true,
            (PveQmWatchdogAction::Pause, PveQmWatchdogAction::Pause) => true,
            (PveQmWatchdogAction::Debug, PveQmWatchdogAction::Debug) => true,
            (PveQmWatchdogAction::NoneValue, PveQmWatchdogAction::NoneValue) => true,
            (PveQmWatchdogAction::UnknownEnumValue(a), PveQmWatchdogAction::UnknownEnumValue(b)) => *a == *b,
            _ => false,
        }
    }
}

impl PartialEqSpecImpl for PveQmWatchdogAction {
    open spec fn obeys_eq_spec() -> bool {
        true
    }

    open spec fn eq_spec(&self, other: &Self) -> bool {
        match (self, other) {
            (PveQmWatchdogAction::UnknownEnumValue(a), PveQmWatchdogAction::UnknownEnumValue(b)) => a@ == b@,
            _ => *self == *other,
        }
    }
}

impl std::str::FromStr for PveQmWatchdogAction {
    type Err = core::convert::Infallible;

    fn from_str(s: &str) -> (r: Result<Self, Self::Err>)
        ensures
            r matches Ok(v) && Self::parses_to(s@, v),
    {
        Ok(PveQmWatchdogAction::from_name(s))
    }
}

impl PveQmWatchdogAction {
    /// The name under which the API writes this value.
    pub open spec fn name(self) -> Seq<char> {
        match self {
            PveQmWatchdogAction::Reset => "reset"@,
            PveQmWatchdogAction::Shutdown => "shutdown"@,
            PveQmWatchdogAction::Poweroff => "poweroff"@,
            PveQmWatchdogAction::Pause => "pause"@,
            PveQmWatchdogAction::Debug => "debug"@,
            PveQmWatchdogAction::NoneValue => "none"@,
            PveQmWatchdogAction::UnknownEnumValue(s) => s@,
        }
    }

    /// The known value that the API name `s` stands for, if any.
    pub open spec fn known(s: Seq<char>) -> Option<Self> {
        if s == "reset"@ {
            Some(PveQmWatchdogAction::Reset)
        }         else if s == "shutdown"@ {
            Some(PveQmWatchdogAction::Shutdown)
        }         else if s == "poweroff"@ {
            Some(PveQmWatchdogAction::Poweroff)
        }         else if s == "pause"@ {
            Some(PveQmWatchdogAction::Pause)
        }         else if s == "debug"@ {
            Some(PveQmWatchdogAction::Debug)
        }         else if s == "none"@ {
            Some(PveQmWatchdogAction::NoneValue)
        } else {
            None
        }
    }

    /// `v` is the value that reading the API name `s` gives.
    pub open spec fn parses_to(s: Seq<char>, v: Self) -> bool {
        match Self::known(s) {
            Some(k) => v == k,
            None => v matches PveQmWatchdogAction::UnknownEnumValue(t) && t@ == s,
        }
    }

    /// The API name of this value.
    pub fn to_string(&self) -> (r: String)
        ensures
            r@ == self.name(),
    {
        match self {
            PveQmWatchdogAction::Reset => String::from_str("reset"),
            PveQmWatchdogAction::Shutdown => String::from_str("shutdown"),
            PveQmWatchdogAction::Poweroff => String::from_str("poweroff"),
            PveQmWatchdogAction::Pause => String::from_str("pause"),
            PveQmWatchdogAction::Debug => String::from_str("debug"),
            PveQmWatchdogAction::NoneValue => String::from_str("none"),
            PveQmWatchdogAction::UnknownEnumValue(s) => s.clone(),
        }
    }

    /// Reads an API name; a name that is not known is kept as an unknown value.
    pub fn from_name(s: &str) -> (r: Self)
        ensures
            Self::parses_to(s@, r),
    {
        if str_eq(s, "reset") {
            PveQmWatchdogAction::Reset
        }         else if str_eq(s, "shutdown") {
            PveQmWatchdogAction::Shutdown
        }         else if str_eq(s, "poweroff") {
            PveQmWatchdogAction::Poweroff
        }         else if str_eq(s, "pause") {
            PveQmWatchdogAction::Pause
        }         else if str_eq(s, "debug") {
            PveQmWatchdogAction::Debug
        }         else if str_eq(s, "none") {
            PveQmWatchdogAction::NoneValue
        } else {
            PveQmWatchdogAction::UnknownEnumValue(String::from_str(s))
        }
    }

    /// Each known value goes with the name the API uses for it: `reset` for `Reset`, `shutdown` for `Shutdown`, `poweroff` for `Poweroff`, and so on for every known value.
    /// `to_string` writes that name and `from_name` reads it as that value.
    pub proof fn lemma_api_names()
        ensures
            PveQmWatchdogAction::Reset.name() == "reset"@,
            Self::parses_to("reset"@, PveQmWatchdogAction::Reset),
            PveQmWatchdogAction::Shutdown.name() == "shutdown"@,
            Self::parses_to("shutdown"@, PveQmWatchdogAction::Shutdown),
            PveQmWatchdogAction::Poweroff.name() == "poweroff"@,
            Self::parses_to("poweroff"@, PveQmWatchdogAction::Poweroff),
            PveQmWatchdogAction::Pause.name() == "pause"@,
            Self::parses_to("pause"@, PveQmWatchdogAction::Pause),
            PveQmWatchdogAction::Debug.name() == "debug"@,
            Self::parses_to("debug"@, PveQmWatchdogAction::Debug),
            PveQmWatchdogAction::NoneValue.name() == "none"@,
            Self::parses_to("none"@, PveQmWatchdogAction::NoneValue),
    {
        Self::lemma_to_string_from_name(PveQmWatchdogAction::Reset);
        Self::lemma_to_string_from_name(PveQmWatchdogAction::Shutdown);
        Self::lemma_to_string_from_name(PveQmWatchdogAction::Poweroff);
        Self::lemma_to_string_from_name(PveQmWatchdogAction::Pause);
        Self::lemma_to_string_from_name(PveQmWatchdogAction::Debug);
        Self::lemma_to_string_from_name(PveQmWatchdogAction::NoneValue);
    }

    /// Writing out a value that was read gives back the name that was read.
    pub proof fn lemma_from_name_to_string(s: Seq<char>, v: Self)
        requires
            Self::parses_to(s, v),
        ensures
            v.name() == s,
    {
    }

    /// Reading the name of a value gives back the value, unless the value is an
    /// unknown one that carries the name of a known one.
    pub proof fn lemma_to_string_from_name(v: Self)
        requires
            v is UnknownEnumValue ==> Self::known(v.name()) is None,
        ensures
            Self::parses_to(v.name(), v),
    {
        if !(v is UnknownEnumValue) {
            Self::lemma_known_names(v);
        }
    }

    /// The spelling of known names, character by character.
    proof fn lemma_name_spelling()
        ensures
            "reset"@.len() == 5 && "reset"@[0] == 'r' && "reset"@[1] == 'e' && "reset"@[2] == 's' && "reset"@[3] == 'e' && "reset"@[4] == 't',
            "shutdown"@.len() == 8 && "shutdown"@[0] == 's' && "shutdown"@[1] == 'h' && "shutdown"@[2] == 'u' && "shutdown"@[3] == 't' && "shutdown"@[4] == 'd' && "shutdown"@[5] == 'o' && "shutdown"@[6] == 'w' && "shutdown"@[7] == 'n',
            "poweroff"@.len() == 8 && "poweroff"@[0] == 'p' && "poweroff"@[1] == 'o' && "poweroff"@[2] == 'w' && "poweroff"@[3] == 'e' && "poweroff"@[4] == 'r' && "poweroff"@[5] == 'o' && "poweroff"@[6] == 'f' && "poweroff"@[7] == 'f',
            "pause"@.len() == 5 && "pause"@[0] == 'p' && "pause"@[1] == 'a' && "pause"@[2] == 'u' && "pause"@[3] == 's' && "pause"@[4] == 'e',
            "debug"@.len() == 5 && "debug"@[0] == 'd' && "debug"@[1] == 'e' && "debug"@[2] == 'b' && "debug"@[3] == 'u' && "debug"@[4] == 'g',
            "none"@.len() == 4 && "none"@[0] == 'n' && "none"@[1] == 'o' && "none"@[2] == 'n' && "none"@[3] == 'e',
    {
        broadcast use vstd::string::group_string_axioms;

        reveal_strlit("reset");
        reveal_strlit("shutdown");
        reveal_strlit("poweroff");
        reveal_strlit("pause");
        reveal_strlit("debug");
        reveal_strlit("none");
    }

    proof fn lemma_known_names(v: Self)
        requires
            !(v is UnknownEnumValue),
        ensures
            Self::known(v.name()) == Some(v),
    {
        Self::lemma_name_spelling();
    }

}

/// Watchdog type to emulate.
#[derive(Clone, Debug)]
pub enum PveQmWatchdogModel {
    /// i6300esb.
    I6300esb,
    /// ib700.
    Ib700,
    /// Unknown variants for forward compatibility.
    UnknownEnumValue(String),
}

impl PartialEq for PveQmWatchdogModel {
    fn eq(&self, other: &Self) -> (r: bool) {
        match (self, other) {
            (PveQmWatchdogModel::I6300esb, PveQmWatchdogModel::I6300esb) => true,
            (PveQmWatchdogModel::Ib700, PveQmWatchdogModel::Ib700) => true,
            (PveQmWatchdogModel::UnknownEnumValue(a), PveQmWatchdogModel::UnknownEnumValue(b)) => *a == *b,
            _ => false,
        }
    }
}

impl PartialEqSpecImpl for PveQmWatchdogModel {
    open spec fn obeys_eq_spec() -> bool {
        true
    }

    open spec fn eq_spec(&self, other: &Self) -> bool {
        match (self, other) {
            (PveQmWatchdogModel::UnknownEnumValue(a), PveQmWatchdogModel::UnknownEnumValue(b)) => a@ == b@,
            _ => *self == *other,
        }
    }
}

impl Default for PveQmWatchdogModel {
    fn default() -> (r: Self)
        ensures
            r == PveQmWatchdogModel::I6300esb,
    {
        PveQmWatchdogModel::I6300esb
    }
}

impl std::str::FromStr for PveQmWatchdogModel {
    type Err = core::convert::Infallible;

    fn from_str(s: &str) -> (r: Result<Self, Self::Err>)
        ensures
            r matches Ok(v) && Self::parses_to(s@, v),
    {
        Ok(PveQmWatchdogModel::from_name(s))
    }
}

impl PveQmWatchdogModel {
    /// The name under which the API writes this value.
    pub open spec fn name(self) -> Seq<char> {
        match self {
            PveQmWatchdogModel::I6300esb => "i6300esb"@,
            PveQmWatchdogModel::Ib700 => "ib700"@,
            PveQmWatchdogModel::UnknownEnumValue(s) => s@,
        }
    }

    /// The known value that the API name `s` stands for, if any.
    pub open spec fn known(s: Seq<char>) -> Option<Self> {
        if s == "i6300esb"@ {
            Some(PveQmWatchdogModel::I6300esb)
        }         else if s == "ib700"@ {
            Some(PveQmWatchdogModel::Ib700)
        } else {
            None
        }
    }

    /// `v` is the value that reading the API name `s` gives.
    pub open spec fn parses_to(s: Seq<char>, v: Self) -> bool {
        match Self::known(s) {
            Some(k) => v == k,
            None => v matches PveQmWatchdogModel::UnknownEnumValue(t) && t@ == s,
        }
    }

    /// The API name of this value.
    pub fn to_string(&self) -> (r: String)
        ensures
            r@ == self.name(),
    {
        match self {
            PveQmWatchdogModel::I6300esb => String::from_str("i6300esb"),
            PveQmWatchdogModel::Ib700 => String::from_str("ib700"),
            PveQmWatchdogModel::UnknownEnumValue(s) => s.clone(),
        }
    }

    /// Reads an API name; a name that is not known is kept as an unknown value.
    pub fn from_name(s: &str) -> (r: Self)
        ensures
            Self::parses_to(s@, r),
    {
        if str_eq(s, "i6300esb") {
            PveQmWatchdogModel::I6300esb
        }         else if str_eq(s, "ib700") {
            PveQmWatchdogModel::Ib700
        } else {
            PveQmWatchdogModel::UnknownEnumValue(String::from_str(s))
        }
    }

    /// Each known value goes with the name the API uses for it: `i6300esb` for `I6300esb`, `ib700` for `Ib700`.
    /// `to_string` writes that name and `from_name` reads it as that value.
    pub proof fn lemma_api_names()
        ensures
            PveQmWatchdogModel::I6300esb.name() == "i6300esb"@,
            Self::parses_to("i6300esb"@, PveQmWatchdogModel::I6300esb),
            PveQmWatchdogModel::Ib700.name() == "ib700"@,
            Self::parses_to("ib700"@, PveQmWatchdogModel::Ib700),
    {
        Self::lemma_to_string_from_name(PveQmWatchdogModel::I6300esb);
        Self::lemma_to_string_from_name(PveQmWatchdogModel::Ib700);
    }

    /// Writing out a value that was read gives back the name that was read.
    pub proof fn lemma_from_name_to_string(s: Seq<char>, v: Self)
        requires
            Self::parses_to(s, v),
        ensures
            v.name() == s,
    {
    }

    /// Reading the name of a value gives back the value, unless the value is an
    /// unknown one that carries the name of a known one.
    pub proof fn lemma_to_string_from_name(v: Self)
        requires
            v is UnknownEnumValue ==> Self::known(v.name()) is None,
        ensures
            Self::parses_to(v.name(), v),
    {
        if !(v is UnknownEnumValue) {
            Self::lemma_known_names(v);
        }
    }

    /// The spelling of known names, character by character.
    proof fn lemma_name_spelling()
        ensures
            "i6300esb"@.len() == 8 && "i6300esb"@[0] == 'i' && "i6300esb"@[1] == '6' && "i6300esb"@[2] == '3' && "i6300esb"@[3] == '0' && "i6300esb"@[4] == '0' && "i6300esb"@[5] == 'e' && "i6300esb"@[6] == 's' && "i6300esb"@[7] == 'b',
            "ib700"@.len() == 5 && "ib700"@[0] == 'i' && "ib700"@[1] == 'b' && "ib700"@[2] == '7' && "ib700"@[3] == '0' && "ib700"@[4] == '0',
    {
        broadcast use vstd::string::group_string_axioms;

        reveal_strlit("i6300esb");
        reveal_strlit("ib700");
    }

    proof fn lemma_known_names(v: Self)
        requires
            !(v is UnknownEnumValue),
        ensures
            Self::known(v.name()) == Some(v),
    {
        Self::lemma_name_spelling();
    }

}

/// Object.
#[derive(Debug)]
pub struct PveVmCpuConf {
    /// Emulated CPU type. Can be default or custom name (custom model names
    /// must be prefixed with 'custom-').
    pub cputype: Option<String>,

    /// List of additional CPU flags separated by ';'. Use '+FLAG' to enable,
    /// '-FLAG' to disable a flag. Custom CPU models can specify any flag
    /// supported by QEMU/KVM, VM-specific flags must be from the following set
    /// for security reasons: pcid, spec-ctrl, ibpb, ssbd, virt-ssbd, amd-ssbd,
    /// amd-no-ssb, pdpe1gb, md-clear, hv-tlbflush, hv-evmcs, aes
    pub flags: Option<String>,

    /// Number of physical address bits available to the guest.
    pub guest_phys_bits: Option<u8>,

    /// Do not identify as a KVM virtual machine.
    pub hidden: Option<bool>,

    /// The Hyper-V vendor ID. Some drivers or programs inside Windows guests
    /// need a specific ID.
    pub hv_vendor_id: Option<String>,

    /// The physical memory address bits that are reported to the guest OS.
    /// Should be smaller or equal to the host's. Set to 'host' to use value
    /// from host CPU, but note that doing so will break live migration to CPUs
    /// with other values.
    pub phys_bits: Option<String>,

    pub reported_model: Option<PveVmCpuConfReportedModel>,
}

/// CPU model and vendor to report to the guest. Must be a QEMU/KVM supported
/// model. Only valid for custom CPU model definitions, default models will
/// always report themselves to the guest OS.
#[derive(Clone, Debug)]
pub enum PveVmCpuConfReportedModel {
    /// 486.
    I486,
    /// athlon.
    Athlon,
    /// Broadwell.
    Broadwell,
    /// Broadwell-IBRS.
    BroadwellIbrs,
    /// Broadwell-noTSX.
    BroadwellNoTsx,
    /// Broadwell-noTSX-IBRS.
    BroadwellNoTsxIbrs,
    /// Cascadelake-Server.
    CascadelakeServer,
    /// Cascadelake-Server-noTSX.
    CascadelakeServerNoTsx,
    /// Cascadelake-Server-v2.
    CascadelakeServerV2,
    /// Cascadelake-Server-v4.
    CascadelakeServerV4,
    /// Cascadelake-Server-v5.
    CascadelakeServerV5,
    /// Conroe.
    Conroe,
    /// Cooperlake.
    Cooperlake,
    /// Cooperlake-v2.
    CooperlakeV2,
    /// core2duo.
    Core2duo,
    /// coreduo.
    Coreduo,
    /// EPYC.
    Epyc,
    /// EPYC-Genoa.
    EpycGenoa,
    /// EPYC-IBPB.
    EpycIbpb,
    /// EPYC-Milan.
    EpycMilan,
    /// EPYC-Milan-v2.
    EpycMilanV2,
    /// EPYC-Rome.
    EpycRome,
    /// EPYC-Rome-v2.
    EpycRomeV2,
    /// EPYC-Rome-v3.
    EpycRomeV3,
    /// EPYC-Rome-v4.
    EpycRomeV4,
    /// EPYC-v3.
    EpycV3,
    /// EPYC-v4.
    EpycV4,
    /// GraniteRapids.
    GraniteRapids,
    /// Haswell.
    Haswell,
    /// Haswell-IBRS.
    HaswellIbrs,
    /// Haswell-noTSX.
    HaswellNoTsx,
    /// Haswell-noTSX-IBRS.
    HaswellNoTsxIbrs,
    /// host.
    Host,
    /// Icelake-Client.
    IcelakeClient,
    /// Icelake-Client-noTSX.
    IcelakeClientNoTsx,
    /// Icelake-Server.
    IcelakeServer,
    /// Icelake-Server-noTSX.
    IcelakeServerNoTsx,
    /// Icelake-Server-v3.
    IcelakeServerV3,
    /// Icelake-Server-v4.
    IcelakeServerV4,
    /// Icelake-Server-v5.
    IcelakeServerV5,
    /// Icelake-Server-v6.
    IcelakeServerV6,
    /// IvyBridge.
    IvyBridge,
    /// IvyBridge-IBRS.
    IvyBridgeIbrs,
    /// KnightsMill.
    KnightsMill,
    /// kvm32.
    Kvm32,
    /// kvm64.
    Kvm64,
    /// max.
    Max,
    /// Nehalem.
    Nehalem,
    /// Nehalem-IBRS.
    NehalemIbrs,
    /// Opteron_G1.
    OpteronG1,
    /// Opteron_G2.
    OpteronG2,
    /// Opteron_G3.
    OpteronG3,
    /// Opteron_G4.
    OpteronG4,
    /// Opteron_G5.
    OpteronG5,
    /// Penryn.
    Penryn,
    /// pentium.
    Pentium,
    /// pentium2.
    Pentium2,
    /// pentium3.
    Pentium3,
    /// phenom.
    Phenom,
    /// qemu32.
    Qemu32,
    /// qemu64.
    Qemu64,
    /// SandyBridge.
    SandyBridge,
    /// SandyBridge-IBRS.
    SandyBridgeIbrs,
    /// SapphireRapids.
    SapphireRapids,
    /// SapphireRapids-v2.
    SapphireRapidsV2,
    /// Skylake-Client.
    SkylakeClient,
    /// Skylake-Client-IBRS.
    SkylakeClientIbrs,
    /// Skylake-Client-noTSX-IBRS.
    SkylakeClientNoTsxIbrs,
    /// Skylake-Client-v4.
    SkylakeClientV4,
    /// Skylake-Server.
    SkylakeServer,
    /// Skylake-Server-IBRS.
    SkylakeServerIbrs,
    /// Skylake-Server-noTSX-IBRS.
    SkylakeServerNoTsxIbrs,
    /// Skylake-Server-v4.
    SkylakeServerV4,
    /// Skylake-Server-v5.
    SkylakeServerV5,
    /// Westmere.
    Westmere,
    /// Westmere-IBRS.
    WestmereIbrs,
    /// Unknown variants for forward compatibility.
    UnknownEnumValue(String),
}

impl PartialEq for PveVmCpuConfReportedModel {
    fn eq(&self, other: &Self) -> (r: bool) {
        match (self, other) {
            (PveVmCpuConfReportedModel::I486, PveVmCpuConfReportedModel::I486) => true,
            (PveVmCpuConfReportedModel::Athlon, PveVmCpuConfReportedModel::Athlon) => true,
            (PveVmCpuConfReportedModel::Broadwell, PveVmCpuConfReportedModel::Broadwell) => true,
            (PveVmCpuConfReportedModel::BroadwellIbrs, PveVmCpuConfReportedModel::BroadwellIbrs) => true,
            (PveVmCpuConfReportedModel::BroadwellNoTsx, PveVmCpuConfReportedModel::BroadwellNoTsx) => true,
            (PveVmCpuConfReportedModel::BroadwellNoTsxIbrs, PveVmCpuConfReportedModel::BroadwellNoTsxIbrs) => true,
            (PveVmCpuConfReportedModel::CascadelakeServer, PveVmCpuConfReportedModel::CascadelakeServer) => true,
            (PveVmCpuConfReportedModel::CascadelakeServerNoTsx, PveVmCpuConfReportedModel::CascadelakeServerNoTsx) => true,
            (PveVmCpuConfReportedModel::CascadelakeServerV2, PveVmCpuConfReportedModel::CascadelakeServerV2) => true,
            (PveVmCpuConfReportedModel::CascadelakeServerV4, PveVmCpuConfReportedModel::CascadelakeServerV4) => true,
            (PveVmCpuConfReportedModel::CascadelakeServerV5, PveVmCpuConfReportedModel::CascadelakeServerV5) => true,
            (PveVmCpuConfReportedModel::Conroe, PveVmCpuConfReportedModel::Conroe) => true,
            (PveVmCpuConfReportedModel::Cooperlake, PveVmCpuConfReportedModel::Cooperlake) => true,
            (PveVmCpuConfReportedModel::CooperlakeV2, PveVmCpuConfReportedModel::CooperlakeV2) => true,
            (PveVmCpuConfReportedModel::Core2duo, PveVmCpuConfReportedModel::Core2duo) => true,
            (PveVmCpuConfReportedModel::Coreduo, PveVmCpuConfReportedModel::Coreduo) => true,
            (PveVmCpuConfReportedModel::Epyc, PveVmCpuConfReportedModel::Epyc) => true,
            (PveVmCpuConfReportedModel::EpycGenoa, PveVmCpuConfReportedModel::EpycGenoa) => true,
            (PveVmCpuConfReportedModel::EpycIbpb, PveVmCpuConfReportedModel::EpycIbpb) => true,
            (PveVmCpuConfReportedModel::EpycMilan, PveVmCpuConfReportedModel::EpycMilan) => true,
            (PveVmCpuConfReportedModel::EpycMilanV2, PveVmCpuConfReportedModel::EpycMilanV2) => true,
            (PveVmCpuConfReportedModel::EpycRome, PveVmCpuConfReportedModel::EpycRome) => true,
            (PveVmCpuConfReportedModel::EpycRomeV2, PveVmCpuConfReportedModel::EpycRomeV2) => true,
            (PveVmCpuConfReportedModel::EpycRomeV3, PveVmCpuConfReportedModel::EpycRomeV3) => true,
            (PveVmCpuConfReportedModel::EpycRomeV4, PveVmCpuConfReportedModel::EpycRomeV4) => true,
            (PveVmCpuConfReportedModel::EpycV3, PveVmCpuConfReportedModel::EpycV3) => true,
            (PveVmCpuConfReportedModel::EpycV4, PveVmCpuConfReportedModel::EpycV4) => true,
            (PveVmCpuConfReportedModel::GraniteRapids, PveVmCpuConfReportedModel::GraniteRapids) => true,
            (PveVmCpuConfReportedModel::Haswell, PveVmCpuConfReportedModel::Haswell) => true,
            (PveVmCpuConfReportedModel::HaswellIbrs, PveVmCpuConfReportedModel::HaswellIbrs) => true,
            (PveVmCpuConfReportedModel::HaswellNoTsx, PveVmCpuConfReportedModel::HaswellNoTsx) => true,
            (PveVmCpuConfReportedModel::HaswellNoTsxIbrs, PveVmCpuConfReportedModel::HaswellNoTsxIbrs) => true,
            (PveVmCpuConfReportedModel::Host, PveVmCpuConfReportedModel::Host) => true,
            (PveVmCpuConfReportedModel::IcelakeClient, PveVmCpuConfReportedModel::IcelakeClient) => true,
            (PveVmCpuConfReportedModel::IcelakeClientNoTsx, PveVmCpuConfReportedModel::IcelakeClientNoTsx) => true,
            (PveVmCpuConfReportedModel::IcelakeServer, PveVmCpuConfReportedModel::IcelakeServer) => true,
            (PveVmCpuConfReportedModel::IcelakeServerNoTsx, PveVmCpuConfReportedModel::IcelakeServerNoTsx) => true,
            (PveVmCpuConfReportedModel::IcelakeServerV3, PveVmCpuConfReportedModel::IcelakeServerV3) => true,
            (PveVmCpuConfReportedModel::IcelakeServerV4, PveVmCpuConfReportedModel::IcelakeServerV4) => true,
            (PveVmCpuConfReportedModel::IcelakeServerV5, PveVmCpuConfReportedModel::IcelakeServerV5) => true,
            (PveVmCpuConfReportedModel::IcelakeServerV6, PveVmCpuConfReportedModel::IcelakeServerV6) => true,
            (PveVmCpuConfReportedModel::IvyBridge, PveVmCpuConfReportedModel::IvyBridge) => true,
            (PveVmCpuConfReportedModel::IvyBridgeIbrs, PveVmCpuConfReportedModel::IvyBridgeIbrs) => true,
            (PveVmCpuConfReportedModel::KnightsMill, PveVmCpuConfReportedModel::KnightsMill) => true,
            (PveVmCpuConfReportedModel::Kvm32, PveVmCpuConfReportedModel::Kvm32) => true,
            (PveVmCpuConfReportedModel::Kvm64, PveVmCpuConfReportedModel::Kvm64) => true,
            (PveVmCpuConfReportedModel::Max, PveVmCpuConfReportedModel::Max) => true,
            (PveVmCpuConfReportedModel::Nehalem, PveVmCpuConfReportedModel::Nehalem) => true,
            (PveVmCpuConfReportedModel::NehalemIbrs, PveVmCpuConfReportedModel::NehalemIbrs) => true,
            (PveVmCpuConfReportedModel::OpteronG1, PveVmCpuConfReportedModel::OpteronG1) => true,
            (PveVmCpuConfReportedModel::OpteronG2, PveVmCpuConfReportedModel::OpteronG2) => true,
            (PveVmCpuConfReportedModel::OpteronG3, PveVmCpuConfReportedModel::OpteronG3) => true,
            (PveVmCpuConfReportedModel::OpteronG4, PveVmCpuConfReportedModel::OpteronG4) => true,
            (PveVmCpuConfReportedModel::OpteronG5, PveVmCpuConfReportedModel::OpteronG5) => true,
            (PveVmCpuConfReportedModel::Penryn, PveVmCpuConfReportedModel::Penryn) => true,
            (PveVmCpuConfReportedModel::Pentium, PveVmCpuConfReportedModel::Pentium) => true,
            (PveVmCpuConfReportedModel::Pentium2, PveVmCpuConfReportedModel::Pentium2) => true,
            (PveVmCpuConfReportedModel::Pentium3, PveVmCpuConfReportedModel::Pentium3) => true,
            (PveVmCpuConfReportedModel::Phenom, PveVmCpuConfReportedModel::Phenom) => true,
            (PveVmCpuConfReportedModel::Qemu32, PveVmCpuConfReportedModel::Qemu32) => true,
            (PveVmCpuConfReportedModel::Qemu64, PveVmCpuConfReportedModel::Qemu64) => true,
            (PveVmCpuConfReportedModel::SandyBridge, PveVmCpuConfReportedModel::SandyBridge) => true,
            (PveVmCpuConfReportedModel::SandyBridgeIbrs, PveVmCpuConfReportedModel::SandyBridgeIbrs) => true,
            (PveVmCpuConfReportedModel::SapphireRapids, PveVmCpuConfReportedModel::SapphireRapids) => true,
            (PveVmCpuConfReportedModel::SapphireRapidsV2, PveVmCpuConfReportedModel::SapphireRapidsV2) => true,
            (PveVmCpuConfReportedModel::SkylakeClient, PveVmCpuConfReportedModel::SkylakeClient) => true,
            (PveVmCpuConfReportedModel::SkylakeClientIbrs, PveVmCpuConfReportedModel::SkylakeClientIbrs) => true,
            (PveVmCpuConfReportedModel::SkylakeClientNoTsxIbrs, PveVmCpuConfReportedModel::SkylakeClientNoTsxIbrs) => true,
            (PveVmCpuConfReportedModel::SkylakeClientV4, PveVmCpuConfReportedModel::SkylakeClientV4) => true,
            (PveVmCpuConfReportedModel::SkylakeServer, PveVmCpuConfReportedModel::SkylakeServer) => true,
            (PveVmCpuConfReportedModel::SkylakeServerIbrs, PveVmCpuConfReportedModel::SkylakeServerIbrs) => true,
            (PveVmCpuConfReportedModel::SkylakeServerNoTsxIbrs, PveVmCpuConfReportedModel::SkylakeServerNoTsxIbrs) => true,
            (PveVmCpuConfReportedModel::SkylakeServerV4, PveVmCpuConfReportedModel::SkylakeServerV4) => true,
            (PveVmCpuConfReportedModel::SkylakeServerV5, PveVmCpuConfReportedModel::SkylakeServerV5) => true,
            (PveVmCpuConfReportedModel::Westmere, PveVmCpuConfReportedModel::Westmere) => true,
            (PveVmCpuConfReportedModel::WestmereIbrs, PveVmCpuConfReportedModel::WestmereIbrs) => true,
            (PveVmCpuConfReportedModel::UnknownEnumValue(a), PveVmCpuConfReportedModel::UnknownEnumValue(b)) => *a == *b,
            _ => false,
        }
    }
}

impl PartialEqSpecImpl for PveVmCpuConfReportedModel {
    open spec fn obeys_eq_spec() -> bool {
        true
    }

    open spec fn eq_spec(&self, other: &Self) -> bool {
        match (self, other) {
            (PveVmCpuConfReportedModel::UnknownEnumValue(a), PveVmCpuConfReportedModel::UnknownEnumValue(b)) => a@ == b@,
            _ => *self == *other,
        }
    }
}

impl Default for PveVmCpuConfReportedModel {
    fn default() -> (r: Self)
        ensures
            r == PveVmCpuConfReportedModel::Kvm64,
    {
        PveVmCpuConfReportedModel::Kvm64
    }
}

impl std::str::FromStr for PveVmCpuConfReportedModel {
    type Err = core::convert::Infallible;

    fn from_str(s: &str) -> (r: Result<Self, Self::Err>)
        ensures
            r matches Ok(v) && Self::parses_to(s@, v),
    {
        Ok(PveVmCpuConfReportedModel::from_name(s))
    }
}

impl PveVmCpuConfReportedModel {
    /// The name under which the API writes this value.
    pub open spec fn name(self) -> Seq<char> {
        match self {
            PveVmCpuConfReportedModel::I486 => "486"@,
            PveVmCpuConfReportedModel::Athlon => "athlon"@,
            PveVmCpuConfReportedModel::Broadwell => "Broadwell"@,
            PveVmCpuConfReportedModel::BroadwellIbrs => "Broadwell-IBRS"@,
            PveVmCpuConfReportedModel::BroadwellNoTsx => "Broadwell-noTSX"@,
            PveVmCpuConfReportedModel::BroadwellNoTsxIbrs => "Broadwell-noTSX-IBRS"@,
            PveVmCpuConfReportedModel::CascadelakeServer => "Cascadelake-Server"@,
            PveVmCpuConfReportedModel::CascadelakeServerNoTsx => "Cascadelake-Server-noTSX"@,
            PveVmCpuConfReportedModel::CascadelakeServerV2 => "Cascadelake-Server-v2"@,
            PveVmCpuConfReportedModel::CascadelakeServerV4 => "Cascadelake-Server-v4"@,
            PveVmCpuConfReportedModel::CascadelakeServerV5 => "Cascadelake-Server-v5"@,
            PveVmCpuConfReportedModel::Conroe => "Conroe"@,
            PveVmCpuConfReportedModel::Cooperlake => "Cooperlake"@,
            PveVmCpuConfReportedModel::CooperlakeV2 => "Cooperlake-v2"@,
            PveVmCpuConfReportedModel::Core2duo => "core2duo"@,
            PveVmCpuConfReportedModel::Coreduo => "coreduo"@,
            PveVmCpuConfReportedModel::Epyc => "EPYC"@,
            PveVmCpuConfReportedModel::EpycGenoa => "EPYC-Genoa"@,
            PveVmCpuConfReportedModel::EpycIbpb => "EPYC-IBPB"@,
            PveVmCpuConfReportedModel::EpycMilan => "EPYC-Milan"@,
            PveVmCpuConfReportedModel::EpycMilanV2 => "EPYC-Milan-v2"@,
            PveVmCpuConfReportedModel::EpycRome => "EPYC-Rome"@,
            PveVmCpuConfReportedModel::EpycRomeV2 => "EPYC-Rome-v2"@,
            PveVmCpuConfReportedModel::EpycRomeV3 => "EPYC-Rome-v3"@,
            PveVmCpuConfReportedModel::EpycRomeV4 => "EPYC-Rome-v4"@,
            PveVmCpuConfReportedModel::EpycV3 => "EPYC-v3"@,
            PveVmCpuConfReportedModel::EpycV4 => "EPYC-v4"@,
            PveVmCpuConfReportedModel::GraniteRapids => "GraniteRapids"@,
            PveVmCpuConfReportedModel::Haswell => "Haswell"@,
            PveVmCpuConfReportedModel::HaswellIbrs => "Haswell-IBRS"@,
            PveVmCpuConfReportedModel::HaswellNoTsx => "Haswell-noTSX"@,
            PveVmCpuConfReportedModel::HaswellNoTsxIbrs => "Haswell-noTSX-IBRS"@,
            PveVmCpuConfReportedModel::Host => "host"@,
            PveVmCpuConfReportedModel::IcelakeClient => "Icelake-Client"@,
            PveVmCpuConfReportedModel::IcelakeClientNoTsx => "Icelake-Client-noTSX"@,
            PveVmCpuConfReportedModel::IcelakeServer => "Icelake-Server"@,
            PveVmCpuConfReportedModel::IcelakeServerNoTsx => "Icelake-Server-noTSX"@,
            PveVmCpuConfReportedModel::IcelakeServerV3 => "Icelake-Server-v3"@,
            PveVmCpuConfReportedModel::IcelakeServerV4 => "Icelake-Server-v4"@,
            PveVmCpuConfReportedModel::IcelakeServerV5 => "Icelake-Server-v5"@,
            PveVmCpuConfReportedModel::IcelakeServerV6 => "Icelake-Server-v6"@,
            PveVmCpuConfReportedModel::IvyBridge => "IvyBridge"@,
            PveVmCpuConfReportedModel::IvyBridgeIbrs => "IvyBridge-IBRS"@,
            PveVmCpuConfReportedModel::KnightsMill => "KnightsMill"@,
            PveVmCpuConfReportedModel::Kvm32 => "kvm32"@,
            PveVmCpuConfReportedModel::Kvm64 => "kvm64"@,
            PveVmCpuConfReportedModel::Max => "max"@,
            PveVmCpuConfReportedModel::Nehalem => "Nehalem"@,
            PveVmCpuConfReportedModel::NehalemIbrs => "Nehalem-IBRS"@,
            PveVmCpuConfReportedModel::OpteronG1 => "Opteron_G1"@,
            PveVmCpuConfReportedModel::OpteronG2 => "Opteron_G2"@,
            PveVmCpuConfReportedModel::OpteronG3 => "Opteron_G3"@,
            PveVmCpuConfReportedModel::OpteronG4 => "Opteron_G4"@,
            PveVmCpuConfReportedModel::OpteronG5 => "Opteron_G5"@,
            PveVmCpuConfReportedModel::Penryn => "Penryn"@,
            PveVmCpuConfReportedModel::Pentium => "pentium"@,
            PveVmCpuConfReportedModel::Pentium2 => "pentium2"@,
            PveVmCpuConfReportedModel::Pentium3 => "pentium3"@,
            PveVmCpuConfReportedModel::Phenom => "phenom"@,
            PveVmCpuConfReportedModel::Qemu32 => "qemu32"@,
            PveVmCpuConfReportedModel::Qemu64 => "qemu64"@,
            PveVmCpuConfReportedModel::SandyBridge => "SandyBridge"@,
            PveVmCpuConfReportedModel::SandyBridgeIbrs => "SandyBridge-IBRS"@,
            PveVmCpuConfReportedModel::SapphireRapids => "SapphireRapids"@,
            PveVmCpuConfReportedModel::SapphireRapidsV2 => "SapphireRapids-v2"@,
            PveVmCpuConfReportedModel::SkylakeClient => "Skylake-Client"@,
            PveVmCpuConfReportedModel::SkylakeClientIbrs => "Skylake-Client-IBRS"@,
            PveVmCpuConfReportedModel::SkylakeClientNoTsxIbrs => "Skylake-Client-noTSX-IBRS"@,
            PveVmCpuConfReportedModel::SkylakeClientV4 => "Skylake-Client-v4"@,
            PveVmCpuConfReportedModel::SkylakeServer => "Skylake-Server"@,
            PveVmCpuConfReportedModel::SkylakeServerIbrs => "Skylake-Server-IBRS"@,
            PveVmCpuConfReportedModel::SkylakeServerNoTsxIbrs => "Skylake-Server-noTSX-IBRS"@,
            PveVmCpuConfReportedModel::SkylakeServerV4 => "Skylake-Server-v4"@,
            PveVmCpuConfReportedModel::SkylakeServerV5 => "Skylake-Server-v5"@,
            PveVmCpuConfReportedModel::Westmere => "Westmere"@,
            PveVmCpuConfReportedModel::WestmereIbrs => "Westmere-IBRS"@,
            PveVmCpuConfReportedModel::UnknownEnumValue(s) => s@,
        }
    }

    /// The known value that the API name `s` stands for, if any.
    pub open spec fn known(s: Seq<char>) -> Option<Self> {
        if s == "486"@ {
            Some(PveVmCpuConfReportedModel::I486)
        }         else if s == "athlon"@ {
            Some(PveVmCpuConfReportedModel::Athlon)
        }         else if s == "Broadwell"@ {
            Some(PveVmCpuConfReportedModel::Broadwell)
        }         else if s == "Broadwell-IBRS"@ {
            Some(PveVmCpuConfReportedModel::BroadwellIbrs)
        }         else if s == "Broadwell-noTSX"@ {
            Some(PveVmCpuConfReportedModel::BroadwellNoTsx)
        }         else if s == "Broadwell-noTSX-IBRS"@ {
            Some(PveVmCpuConfReportedModel::BroadwellNoTsxIbrs)
        }         else if s == "Cascadelake-Server"@ {
            Some(PveVmCpuConfReportedModel::CascadelakeServer)
        }         else if s == "Cascadelake-Server-noTSX"@ {
            Some(PveVmCpuConfReportedModel::CascadelakeServerNoTsx)
        }         else if s == "Cascadelake-Server-v2"@ {
            Some(PveVmCpuConfReportedModel::CascadelakeServerV2)
        }         else if s == "Cascadelake-Server-v4"@ {
            Some(PveVmCpuConfReportedModel::CascadelakeServerV4)
        }         else if s == "Cascadelake-Server-v5"@ {
            Some(PveVmCpuConfReportedModel::CascadelakeServerV5)
        }         else if s == "Conroe"@ {
            Some(PveVmCpuConfReportedModel::Conroe)
        }         else if s == "Cooperlake"@ {
            Some(PveVmCpuConfReportedModel::Cooperlake)
        }         else if s == "Cooperlake-v2"@ {
            Some(PveVmCpuConfReportedModel::CooperlakeV2)
        }         else if s == "core2duo"@ {
            Some(PveVmCpuConfReportedModel::Core2duo)
        }         else if s == "coreduo"@ {
            Some(PveVmCpuConfReportedModel::Coreduo)
        }         else if s == "EPYC"@ {
            Some(PveVmCpuConfReportedModel::Epyc)
        }         else if s == "EPYC-Genoa"@ {
            Some(PveVmCpuConfReportedModel::EpycGenoa)
        }         else if s == "EPYC-IBPB"@ {
            Some(PveVmCpuConfReportedModel::EpycIbpb)
        }         else if s == "EPYC-Milan"@ {
            Some(PveVmCpuConfReportedModel::EpycMilan)
        }         else if s == "EPYC-Milan-v2"@ {
            Some(PveVmCpuConfReportedModel::EpycMilanV2)
        }         else if s == "EPYC-Rome"@ {
            Some(PveVmCpuConfReportedModel::EpycRome)
        }         else if s == "EPYC-Rome-v2"@ {
            Some(PveVmCpuConfReportedModel::EpycRomeV2)
        }         else if s == "EPYC-Rome-v3"@ {
            Some(PveVmCpuConfReportedModel::EpycRomeV3)
        }         else if s == "EPYC-Rome-v4"@ {
            Some(PveVmCpuConfReportedModel::EpycRomeV4)
        }         else if s == "EPYC-v3"@ {
            Some(PveVmCpuConfReportedModel::EpycV3)
        }         else if s == "EPYC-v4"@ {
            Some(PveVmCpuConfReportedModel::EpycV4)
        }         else if s == "GraniteRapids"@ {
            Some(PveVmCpuConfReportedModel::GraniteRapids)
        }         else if s == "Haswell"@ {
            Some(PveVmCpuConfReportedModel::Haswell)
        }         else if s == "Haswell-IBRS"@ {
            Some(PveVmCpuConfReportedModel::HaswellIbrs)
        }         else if s == "Haswell-noTSX"@ {
            Some(PveVmCpuConfReportedModel::HaswellNoTsx)
        }         else if s == "Haswell-noTSX-IBRS"@ {
            Some(PveVmCpuConfReportedModel::HaswellNoTsxIbrs)
        }         else if s == "host"@ {
            Some(PveVmCpuConfReportedModel::Host)
        }         else if s == "Icelake-Client"@ {
            Some(PveVmCpuConfReportedModel::IcelakeClient)
        }         else if s == "Icelake-Client-noTSX"@ {
            Some(PveVmCpuConfReportedModel::IcelakeClientNoTsx)
        }         else if s == "Icelake-Server"@ {
            Some(PveVmCpuConfReportedModel::IcelakeServer)
        }         else if s == "Icelake-Server-noTSX"@ {
            Some(PveVmCpuConfReportedModel::IcelakeServerNoTsx)
        }         else if s == "Icelake-Server-v3"@ {
            Some(PveVmCpuConfReportedModel::IcelakeServerV3)
        }         else if s == "Icelake-Server-v4"@ {
            Some(PveVmCpuConfReportedModel::IcelakeServerV4)
        }         else if s == "Icelake-Server-v5"@ {
            Some(PveVmCpuConfReportedModel::IcelakeServerV5)
        }         else if s == "Icelake-Server-v6"@ {
            Some(PveVmCpuConfReportedModel::IcelakeServerV6)
        }         else if s == "IvyBridge"@ {
            Some(PveVmCpuConfReportedModel::IvyBridge)
        }         else if s == "IvyBridge-IBRS"@ {
            Some(PveVmCpuConfReportedModel::IvyBridgeIbrs)
        }         else if s == "KnightsMill"@ {
            Some(PveVmCpuConfReportedModel::KnightsMill)
        }         else if s == "kvm32"@ {
            Some(PveVmCpuConfReportedModel::Kvm32)
        }         else if s == "kvm64"@ {
            Some(PveVmCpuConfReportedModel::Kvm64)
        }         else if s == "max"@ {
            Some(PveVmCpuConfReportedModel::Max)
        }         else if s == "Nehalem"@ {
            Some(PveVmCpuConfReportedModel::Nehalem)
        }         else if s == "Nehalem-IBRS"@ {
            Some(PveVmCpuConfReportedModel::NehalemIbrs)
        }         else if s == "Opteron_G1"@ {
            Some(PveVmCpuConfReportedModel::OpteronG1)
        }         else if s == "Opteron_G2"@ {
            Some(PveVmCpuConfReportedModel::OpteronG2)
        }         else if s == "Opteron_G3"@ {
            Some(PveVmCpuConfReportedModel::OpteronG3)
        }         else if s == "Opteron_G4"@ {
            Some(PveVmCpuConfReportedModel::OpteronG4)
        }         else if s == "Opteron_G5"@ {
            Some(PveVmCpuConfReportedModel::OpteronG5)
        }         else if s == "Penryn"@ {
            Some(PveVmCpuConfReportedModel::Penryn)
        }         else if s == "pentium"@ {
            Some(PveVmCpuConfReportedModel::Pentium)
        }         else if s == "pentium2"@ {
            Some(PveVmCpuConfReportedModel::Pentium2)
        }         else if s == "pentium3"@ {
            Some(PveVmCpuConfReportedModel::Pentium3)
        }         else if s == "phenom"@ {
            Some(PveVmCpuConfReportedModel::Phenom)
        }         else if s == "qemu32"@ {
            Some(PveVmCpuConfReportedModel::Qemu32)
        }         else if s == "qemu64"@ {
            Some(PveVmCpuConfReportedModel::Qemu64)
        }         else if s == "SandyBridge"@ {
            Some(PveVmCpuConfReportedModel::SandyBridge)
        }         else if s == "SandyBridge-IBRS"@ {
            Some(PveVmCpuConfReportedModel::SandyBridgeIbrs)
        }         else if s == "SapphireRapids"@ {
            Some(PveVmCpuConfReportedModel::SapphireRapids)
        }         else if s == "SapphireRapids-v2"@ {
            Some(PveVmCpuConfReportedModel::SapphireRapidsV2)
        }         else if s == "Skylake-Client"@ {
            Some(PveVmCpuConfReportedModel::SkylakeClient)
        }         else if s == "Skylake-Client-IBRS"@ {
            Some(PveVmCpuConfReportedModel::SkylakeClientIbrs)
        }         else if s == "Skylake-Client-noTSX-IBRS"@ {
            Some(PveVmCpuConfReportedModel::SkylakeClientNoTsxIbrs)
        }         else if s == "Skylake-Client-v4"@ {
            Some(PveVmCpuConfReportedModel::SkylakeClientV4)
        }         else if s == "Skylake-Server"@ {
            Some(PveVmCpuConfReportedModel::SkylakeServer)
        }         else if s == "Skylake-Server-IBRS"@ {
            Some(PveVmCpuConfReportedModel::SkylakeServerIbrs)
        }         else if s == "Skylake-Server-noTSX-IBRS"@ {
            Some(PveVmCpuConfReportedModel::SkylakeServerNoTsxIbrs)
        }         else if s == "Skylake-Server-v4"@ {
            Some(PveVmCpuConfReportedModel::SkylakeServerV4)
        }         else if s == "Skylake-Server-v5"@ {
            Some(PveVmCpuConfReportedModel::SkylakeServerV5)
        }         else if s == "Westmere"@ {
            Some(PveVmCpuConfReportedModel::Westmere)
        }         else if s == "Westmere-IBRS"@ {
            Some(PveVmCpuConfReportedModel::WestmereIbrs)
        } else {
            None
        }
    }

    /// `v` is the value that reading the API name `s` gives.
    pub open spec fn parses_to(s: Seq<char>, v: Self) -> bool {
        match Self::known(s) {
            Some(k) => v == k,
            None => v matches PveVmCpuConfReportedModel::UnknownEnumValue(t) && t@ == s,
        }
    }

    /// The API name of this value.
    pub fn to_string(&self) -> (r: String)
        ensures
            r@ == self.name(),
    {
        match self {
            PveVmCpuConfReportedModel::I486 => String::from_str("486"),
            PveVmCpuConfReportedModel::Athlon => String::from_str("athlon"),
            PveVmCpuConfReportedModel::Broadwell => String::from_str("Broadwell"),
            PveVmCpuConfReportedModel::BroadwellIbrs => String::from_str("Broadwell-IBRS"),
            PveVmCpuConfReportedModel::BroadwellNoTsx => String::from_str("Broadwell-noTSX"),
            PveVmCpuConfReportedModel::BroadwellNoTsxIbrs => String::from_str("Broadwell-noTSX-IBRS"),
            PveVmCpuConfReportedModel::CascadelakeServer => String::from_str("Cascadelake-Server"),
            PveVmCpuConfReportedModel::CascadelakeServerNoTsx => String::from_str("Cascadelake-Server-noTSX"),
            PveVmCpuConfReportedModel::CascadelakeServerV2 => String::from_str("Cascadelake-Server-v2"),
            PveVmCpuConfReportedModel::CascadelakeServerV4 => String::from_str("Cascadelake-Server-v4"),
            PveVmCpuConfReportedModel::CascadelakeServerV5 => String::from_str("Cascadelake-Server-v5"),
            PveVmCpuConfReportedModel::Conroe => String::from_str("Conroe"),
            PveVmCpuConfReportedModel::Cooperlake => String::from_str("Cooperlake"),
            PveVmCpuConfReportedModel::CooperlakeV2 => String::from_str("Cooperlake-v2"),
            PveVmCpuConfReportedModel::Core2duo => String::from_str("core2duo"),
            PveVmCpuConfReportedModel::Coreduo => String::from_str("coreduo"),
            PveVmCpuConfReportedModel::Epyc => String::from_str("EPYC"),
            PveVmCpuConfReportedModel::EpycGenoa => String::from_str("EPYC-Genoa"),
            PveVmCpuConfReportedModel::EpycIbpb => String::from_str("EPYC-IBPB"),
            PveVmCpuConfReportedModel::EpycMilan => String::from_str("EPYC-Milan"),
            PveVmCpuConfReportedModel::EpycMilanV2 => String::from_str("EPYC-Milan-v2"),
            PveVmCpuConfReportedModel::EpycRome => String::from_str("EPYC-Rome"),
            PveVmCpuConfReportedModel::EpycRomeV2 => String::from_str("EPYC-Rome-v2"),
            PveVmCpuConfReportedModel::EpycRomeV3 => String::from_str("EPYC-Rome-v3"),
            PveVmCpuConfReportedModel::EpycRomeV4 => String::from_str("EPYC-Rome-v4"),
            PveVmCpuConfReportedModel::EpycV3 => String::from_str("EPYC-v3"),
            PveVmCpuConfReportedModel::EpycV4 => String::from_str("EPYC-v4"),
            PveVmCpuConfReportedModel::GraniteRapids => String::from_str("GraniteRapids"),
            PveVmCpuConfReportedModel::Haswell => String::from_str("Haswell"),
            PveVmCpuConfReportedModel::HaswellIbrs => String::from_str("Haswell-IBRS"),
            PveVmCpuConfReportedModel::HaswellNoTsx => String::from_str("Haswell-noTSX"),
            PveVmCpuConfReportedModel::HaswellNoTsxIbrs => String::from_str("Haswell-noTSX-IBRS"),
            PveVmCpuConfReportedModel::Host => String::from_str("host"),
            PveVmCpuConfReportedModel::IcelakeClient => String::from_str("Icelake-Client"),
            PveVmCpuConfReportedModel::IcelakeClientNoTsx => String::from_str("Icelake-Client-noTSX"),
            PveVmCpuConfReportedModel::IcelakeServer => String::from_str("Icelake-Server"),
            PveVmCpuConfReportedModel::IcelakeServerNoTsx => String::from_str("Icelake-Server-noTSX"),
            PveVmCpuConfReportedModel::IcelakeServerV3 => String::from_str("Icelake-Server-v3"),
            PveVmCpuConfReportedModel::IcelakeServerV4 => String::from_str("Icelake-Server-v4"),
            PveVmCpuConfReportedModel::IcelakeServerV5 => String::from_str("Icelake-Server-v5"),
            PveVmCpuConfReportedModel::IcelakeServerV6 => String::from_str("Icelake-Server-v6"),
            PveVmCpuConfReportedModel::IvyBridge => String::from_str("IvyBridge"),
            PveVmCpuConfReportedModel::IvyBridgeIbrs => String::from_str("IvyBridge-IBRS"),
            PveVmCpuConfReportedModel::KnightsMill => String::from_str("KnightsMill"),
            PveVmCpuConfReportedModel::Kvm32 => String::from_str("kvm32"),
            PveVmCpuConfReportedModel::Kvm64 => String::from_str("kvm64"),
            PveVmCpuConfReportedModel::Max => String::from_str("max"),
            PveVmCpuConfReportedModel::Nehalem => String::from_str("Nehalem"),
            PveVmCpuConfReportedModel::NehalemIbrs => String::from_str("Nehalem-IBRS"),
            PveVmCpuConfReportedModel::OpteronG1 => String::from_str("Opteron_G1"),
            PveVmCpuConfReportedModel::OpteronG2 => String::from_str("Opteron_G2"),
            PveVmCpuConfReportedModel::OpteronG3 => String::from_str("Opteron_G3"),
            PveVmCpuConfReportedModel::OpteronG4 => String::from_str("Opteron_G4"),
            PveVmCpuConfReportedModel::OpteronG5 => String::from_str("Opteron_G5"),
            PveVmCpuConfReportedModel::Penryn => String::from_str("Penryn"),
            PveVmCpuConfReportedModel::Pentium => String::from_str("pentium"),
            PveVmCpuConfReportedModel::Pentium2 => String::from_str("pentium2"),
            PveVmCpuConfReportedModel::Pentium3 => String::from_str("pentium3"),
            PveVmCpuConfReportedModel::Phenom => String::from_str("phenom"),
            PveVmCpuConfReportedModel::Qemu32 => String::from_str("qemu32"),
            PveVmCpuConfReportedModel::Qemu64 => String::from_str("qemu64"),
            PveVmCpuConfReportedModel::SandyBridge => String::from_str("SandyBridge"),
            PveVmCpuConfReportedModel::SandyBridgeIbrs => String::from_str("SandyBridge-IBRS"),
            PveVmCpuConfReportedModel::SapphireRapids => String::from_str("SapphireRapids"),
            PveVmCpuConfReportedModel::SapphireRapidsV2 => String::from_str("SapphireRapids-v2"),
            PveVmCpuConfReportedModel::SkylakeClient => String::from_str("Skylake-Client"),
            PveVmCpuConfReportedModel::SkylakeClientIbrs => String::from_str("Skylake-Client-IBRS"),
            PveVmCpuConfReportedModel::SkylakeClientNoTsxIbrs => String::from_str("Skylake-Client-noTSX-IBRS"),
            PveVmCpuConfReportedModel::SkylakeClientV4 => String::from_str("Skylake-Client-v4"),
            PveVmCpuConfReportedModel::SkylakeServer => String::from_str("Skylake-Server"),
            PveVmCpuConfReportedModel::SkylakeServerIbrs => String::from_str("Skylake-Server-IBRS"),
            PveVmCpuConfReportedModel::SkylakeServerNoTsxIbrs => String::from_str("Skylake-Server-noTSX-IBRS"),
            PveVmCpuConfReportedModel::SkylakeServerV4 => String::from_str("Skylake-Server-v4"),
            PveVmCpuConfReportedModel::SkylakeServerV5 => String::from_str("Skylake-Server-v5"),
            PveVmCpuConfReportedModel::Westmere => String::from_str("Westmere"),
            PveVmCpuConfReportedModel::WestmereIbrs => String::from_str("Westmere-IBRS"),
            PveVmCpuConfReportedModel::UnknownEnumValue(s) => s.clone(),
        }
    }

    /// Reads an API name; a name that is not known is kept as an unknown value.
    pub fn from_name(s: &str) -> (r: Self)
        ensures
            Self::parses_to(s@, r),
    {
        if str_eq(s, "486") {
            PveVmCpuConfReportedModel::I486
        }         else if str_eq(s, "athlon") {
            PveVmCpuConfReportedModel::Athlon
        }         else if str_eq(s, "Broadwell") {
            PveVmCpuConfReportedModel::Broadwell
        }         else if str_eq(s, "Broadwell-IBRS") {
            PveVmCpuConfReportedModel::BroadwellIbrs
        }         else if str_eq(s, "Broadwell-noTSX") {
            PveVmCpuConfReportedModel::BroadwellNoTsx
        }         else if str_eq(s, "Broadwell-noTSX-IBRS") {
            PveVmCpuConfReportedModel::BroadwellNoTsxIbrs
        }         else if str_eq(s, "Cascadelake-Server") {
            PveVmCpuConfReportedModel::CascadelakeServer
        }         else if str_eq(s, "Cascadelake-Server-noTSX") {
            PveVmCpuConfReportedModel::CascadelakeServerNoTsx
        }         else if str_eq(s, "Cascadelake-Server-v2") {
            PveVmCpuConfReportedModel::CascadelakeServerV2
        }         else if str_eq(s, "Cascadelake-Server-v4") {
            PveVmCpuConfReportedModel::CascadelakeServerV4
        }         else if str_eq(s, "Cascadelake-Server-v5") {
            PveVmCpuConfReportedModel::CascadelakeServerV5
        }         else if str_eq(s, "Conroe") {
            PveVmCpuConfReportedModel::Conroe
        }         else if str_eq(s, "Cooperlake") {
            PveVmCpuConfReportedModel::Cooperlake
        }         else if str_eq(s, "Cooperlake-v2") {
            PveVmCpuConfReportedModel::CooperlakeV2
        }         else if str_eq(s, "core2duo") {
            PveVmCpuConfReportedModel::Core2duo
        }         else if str_eq(s, "coreduo") {
            PveVmCpuConfReportedModel::Coreduo
        }         else if str_eq(s, "EPYC") {
            PveVmCpuConfReportedModel::Epyc
        }         else if str_eq(s, "EPYC-Genoa") {
            PveVmCpuConfReportedModel::EpycGenoa
        }         else if str_eq(s, "EPYC-IBPB") {
            PveVmCpuConfReportedModel::EpycIbpb
        }         else if str_eq(s, "EPYC-Milan") {
            PveVmCpuConfReportedModel::EpycMilan
        }         else if str_eq(s, "EPYC-Milan-v2") {
            PveVmCpuConfReportedModel::EpycMilanV2
        }         else if str_eq(s, "EPYC-Rome") {
            PveVmCpuConfReportedModel::EpycRome
        }         else if str_eq(s, "EPYC-Rome-v2") {
            PveVmCpuConfReportedModel::EpycRomeV2
        }         else if str_eq(s, "EPYC-Rome-v3") {
            PveVmCpuConfReportedModel::EpycRomeV3
        }         else if str_eq(s, "EPYC-Rome-v4") {
            PveVmCpuConfReportedModel::EpycRomeV4
        }         else if str_eq(s, "EPYC-v3") {
            PveVmCpuConfReportedModel::EpycV3
        }         else if str_eq(s, "EPYC-v4") {
            PveVmCpuConfReportedModel::EpycV4
        }         else if str_eq(s, "GraniteRapids") {
            PveVmCpuConfReportedModel::GraniteRapids
        }         else if str_eq(s, "Haswell") {
            PveVmCpuConfReportedModel::Haswell
        }         else if str_eq(s, "Haswell-IBRS") {
            PveVmCpuConfReportedModel::HaswellIbrs
        }         else if str_eq(s, "Haswell-noTSX") {
            PveVmCpuConfReportedModel::HaswellNoTsx
        }         else if str_eq(s, "Haswell-noTSX-IBRS") {
            PveVmCpuConfReportedModel::HaswellNoTsxIbrs
        }         else if str_eq(s, "host") {
            PveVmCpuConfReportedModel::Host
        }         else if str_eq(s, "Icelake-Client") {
            PveVmCpuConfReportedModel::IcelakeClient
        }         else if str_eq(s, "Icelake-Client-noTSX") {
            PveVmCpuConfReportedModel::IcelakeClientNoTsx
        }         else if str_eq(s, "Icelake-Server") {
            PveVmCpuConfReportedModel::IcelakeServer
        }         else if str_eq(s, "Icelake-Server-noTSX") {
            PveVmCpuConfReportedModel::IcelakeServerNoTsx
        }         else if str_eq(s, "Icelake-Server-v3") {
            PveVmCpuConfReportedModel::IcelakeServerV3
        }         else if str_eq(s, "Icelake-Server-v4") {
            PveVmCpuConfReportedModel::IcelakeServerV4
        }         else if str_eq(s, "Icelake-Server-v5") {
            PveVmCpuConfReportedModel::IcelakeServerV5
        }         else if str_eq(s, "Icelake-Server-v6") {
            PveVmCpuConfReportedModel::IcelakeServerV6
        }         else if str_eq(s, "IvyBridge") {
            PveVmCpuConfReportedModel::IvyBridge
        }         else if str_eq(s, "IvyBridge-IBRS") {
            PveVmCpuConfReportedModel::IvyBridgeIbrs
        }         else if str_eq(s, "KnightsMill") {
            PveVmCpuConfReportedModel::KnightsMill
        }         else if str_eq(s, "kvm32") {
            PveVmCpuConfReportedModel::Kvm32
        }         else if str_eq(s, "kvm64") {
            PveVmCpuConfReportedModel::Kvm64
        }         else if str_eq(s, "max") {
            PveVmCpuConfReportedModel::Max
        }         else if str_eq(s, "Nehalem") {
            PveVmCpuConfReportedModel::Nehalem
        }         else if str_eq(s, "Nehalem-IBRS") {
            PveVmCpuConfReportedModel::NehalemIbrs
        }         else if str_eq(s, "Opteron_G1") {
            PveVmCpuConfReportedModel::OpteronG1
        }         else if str_eq(s, "Opteron_G2") {
            PveVmCpuConfReportedModel::OpteronG2
        }         else if str_eq(s, "Opteron_G3") {
            PveVmCpuConfReportedModel::OpteronG3
        }         else if str_eq(s, "Opteron_G4") {
            PveVmCpuConfReportedModel::OpteronG4
        }         else if str_eq(s, "Opteron_G5") {
            PveVmCpuConfReportedModel::OpteronG5
        }         else if str_eq(s, "Penryn") {
            PveVmCpuConfReportedModel::Penryn
        }         else if str_eq(s, "pentium") {
            PveVmCpuConfReportedModel::Pentium
        }         else if str_eq(s, "pentium2") {
            PveVmCpuConfReportedModel::Pentium2
        }         else if str_eq(s, "pentium3") {
            PveVmCpuConfReportedModel::Pentium3
        }         else if str_eq(s, "phenom") {
            PveVmCpuConfReportedModel::Phenom
        }         else if str_eq(s, "qemu32") {
            PveVmCpuConfReportedModel::Qemu32
        }         else if str_eq(s, "qemu64") {
            PveVmCpuConfReportedModel::Qemu64
        }         else if str_eq(s, "SandyBridge") {
            PveVmCpuConfReportedModel::SandyBridge
        }         else if str_eq(s, "SandyBridge-IBRS") {
            PveVmCpuConfReportedModel::SandyBridgeIbrs
        }         else if str_eq(s, "SapphireRapids") {
            PveVmCpuConfReportedModel::SapphireRapids
        }         else if str_eq(s, "SapphireRapids-v2") {
            PveVmCpuConfReportedModel::SapphireRapidsV2
        }         else if str_eq(s, "Skylake-Client") {
            PveVmCpuConfReportedModel::SkylakeClient
        }         else if str_eq(s, "Skylake-Client-IBRS") {
            PveVmCpuConfReportedModel::SkylakeClientIbrs
        }         else if str_eq(s, "Skylake-Client-noTSX-IBRS") {
            PveVmCpuConfReportedModel::SkylakeClientNoTsxIbrs
        }         else if str_eq(s, "Skylake-Client-v4") {
            PveVmCpuConfReportedModel::SkylakeClientV4
        }         else if str_eq(s, "Skylake-Server") {
            PveVmCpuConfReportedModel::SkylakeServer
        }         else if str_eq(s, "Skylake-Server-IBRS") {
            PveVmCpuConfReportedModel::SkylakeServerIbrs
        }         else if str_eq(s, "Skylake-Server-noTSX-IBRS") {
            PveVmCpuConfReportedModel::SkylakeServerNoTsxIbrs
        }         else if str_eq(s, "Skylake-Server-v4") {
            PveVmCpuConfReportedModel::SkylakeServerV4
        }         else if str_eq(s, "Skylake-Server-v5") {
            PveVmCpuConfReportedModel::SkylakeServerV5
        }         else if str_eq(s, "Westmere") {
            PveVmCpuConfReportedModel::Westmere
        }         else if str_eq(s, "Westmere-IBRS") {
            PveVmCpuConfReportedModel::WestmereIbrs
        } else {
            PveVmCpuConfReportedModel::UnknownEnumValue(String::from_str(s))
        }
    }

    /// Each known value goes with the name the API uses for it: `486` for `I486`, `athlon` for `Athlon`, `Broadwell` for `Broadwell`, and so on for every known value.
    /// `to_string` writes that name and `from_name` reads it as that value.
    #[verifier::rlimit(50)]
    pub proof fn lemma_api_names()
        ensures
            PveVmCpuConfReportedModel::I486.name() == "486"@,
            Self::parses_to("486"@, PveVmCpuConfReportedModel::I486),
            PveVmCpuConfReportedModel::Athlon.name() == "athlon"@,
            Self::parses_to("athlon"@, PveVmCpuConfReportedModel::Athlon),
            PveVmCpuConfReportedModel::Broadwell.name() == "Broadwell"@,
            Self::parses_to("Broadwell"@, PveVmCpuConfReportedModel::Broadwell),
            PveVmCpuConfReportedModel::BroadwellIbrs.name() == "Broadwell-IBRS"@,
            Self::parses_to("Broadwell-IBRS"@, PveVmCpuConfReportedModel::BroadwellIbrs),
            PveVmCpuConfReportedModel::BroadwellNoTsx.name() == "Broadwell-noTSX"@,
            Self::parses_to("Broadwell-noTSX"@, PveVmCpuConfReportedModel::BroadwellNoTsx),
            PveVmCpuConfReportedModel::BroadwellNoTsxIbrs.name() == "Broadwell-noTSX-IBRS"@,
            Self::parses_to("Broadwell-noTSX-IBRS"@, PveVmCpuConfReportedModel::BroadwellNoTsxIbrs),
            PveVmCpuConfReportedModel::CascadelakeServer.name() == "Cascadelake-Server"@,
            Self::parses_to("Cascadelake-Server"@, PveVmCpuConfReportedModel::CascadelakeServer),
            PveVmCpuConfReportedModel::CascadelakeServerNoTsx.name() == "Cascadelake-Server-noTSX"@,
            Self::parses_to("Cascadelake-Server-noTSX"@, PveVmCpuConfReportedModel::CascadelakeServerNoTsx),
            PveVmCpuConfReportedModel::CascadelakeServerV2.name() == "Cascadelake-Server-v2"@,
            Self::parses_to("Cascadelake-Server-v2"@, PveVmCpuConfReportedModel::CascadelakeServerV2),
            PveVmCpuConfReportedModel::CascadelakeServerV4.name() == "Cascadelake-Server-v4"@,
            Self::parses_to("Cascadelake-Server-v4"@, PveVmCpuConfReportedModel::CascadelakeServerV4),
            PveVmCpuConfReportedModel::CascadelakeServerV5.name() == "Cascadelake-Server-v5"@,
            Self::parses_to("Cascadelake-Server-v5"@, PveVmCpuConfReportedModel::CascadelakeServerV5),
            PveVmCpuConfReportedModel::Conroe.name() == "Conroe"@,
            Self::parses_to("Conroe"@, PveVmCpuConfReportedModel::Conroe),
            PveVmCpuConfReportedModel::Cooperlake.name() == "Cooperlake"@,
            Self::parses_to("Cooperlake"@, PveVmCpuConfReportedModel::Cooperlake),
            PveVmCpuConfReportedModel::CooperlakeV2.name() == "Cooperlake-v2"@,
            Self::parses_to("Cooperlake-v2"@, PveVmCpuConfReportedModel::CooperlakeV2),
            PveVmCpuConfReportedModel::Core2duo.name() == "core2duo"@,
            Self::parses_to("core2duo"@, PveVmCpuConfReportedModel::Core2duo),
            PveVmCpuConfReportedModel::Coreduo.name() == "coreduo"@,
            Self::parses_to("coreduo"@, PveVmCpuConfReportedModel::Coreduo),
            PveVmCpuConfReportedModel::Epyc.name() == "EPYC"@,
            Self::parses_to("EPYC"@, PveVmCpuConfReportedModel::Epyc),
            PveVmCpuConfReportedModel::EpycGenoa.name() == "EPYC-Genoa"@,
            Self::parses_to("EPYC-Genoa"@, PveVmCpuConfReportedModel::EpycGenoa),
            PveVmCpuConfReportedModel::EpycIbpb.name() == "EPYC-IBPB"@,
            Self::parses_to("EPYC-IBPB"@, PveVmCpuConfReportedModel::EpycIbpb),
            PveVmCpuConfReportedModel::EpycMilan.name() == "EPYC-Milan"@,
            Self::parses_to("EPYC-Milan"@, PveVmCpuConfReportedModel::EpycMilan),
            PveVmCpuConfReportedModel::EpycMilanV2.name() == "EPYC-Milan-v2"@,
            Self::parses_to("EPYC-Milan-v2"@, PveVmCpuConfReportedModel::EpycMilanV2),
            PveVmCpuConfReportedModel::EpycRome.name() == "EPYC-Rome"@,
            Self::parses_to("EPYC-Rome"@, PveVmCpuConfReportedModel::EpycRome),
            PveVmCpuConfReportedModel::EpycRomeV2.name() == "EPYC-Rome-v2"@,
            Self::parses_to("EPYC-Rome-v2"@, PveVmCpuConfReportedModel::EpycRomeV2),
            PveVmCpuConfReportedModel::EpycRomeV3.name() == "EPYC-Rome-v3"@,
            Self::parses_to("EPYC-Rome-v3"@, PveVmCpuConfReportedModel::EpycRomeV3),
            PveVmCpuConfReportedModel::EpycRomeV4.name() == "EPYC-Rome-v4"@,
            Self::parses_to("EPYC-Rome-v4"@, PveVmCpuConfReportedModel::EpycRomeV4),
            PveVmCpuConfReportedModel::EpycV3.name() == "EPYC-v3"@,
            Self::parses_to("EPYC-v3"@, PveVmCpuConfReportedModel::EpycV3),
            PveVmCpuConfReportedModel::EpycV4.name() == "EPYC-v4"@,
            Self::parses_to("EPYC-v4"@, PveVmCpuConfReportedModel::EpycV4),
            PveVmCpuConfReportedModel::GraniteRapids.name() == "GraniteRapids"@,
            Self::parses_to("GraniteRapids"@, PveVmCpuConfReportedModel::GraniteRapids),
            PveVmCpuConfReportedModel::Haswell.name() == "Haswell"@,
            Self::parses_to("Haswell"@, PveVmCpuConfReportedModel::Haswell),
            PveVmCpuConfReportedModel::HaswellIbrs.name() == "Haswell-IBRS"@,
            Self::parses_to("Haswell-IBRS"@, PveVmCpuConfReportedModel::HaswellIbrs),
            PveVmCpuConfReportedModel::HaswellNoTsx.name() == "Haswell-noTSX"@,
            Self::parses_to("Haswell-noTSX"@, PveVmCpuConfReportedModel::HaswellNoTsx),
            PveVmCpuConfReportedModel::HaswellNoTsxIbrs.name() == "Haswell-noTSX-IBRS"@,
            Self::parses_to("Haswell-noTSX-IBRS"@, PveVmCpuConfReportedModel::HaswellNoTsxIbrs),
            PveVmCpuConfReportedModel::Host.name() == "host"@,
            Self::parses_to("host"@, PveVmCpuConfReportedModel::Host),
            PveVmCpuConfReportedModel::IcelakeClient.name() == "Icelake-Client"@,
            Self::parses_to("Icelake-Client"@, PveVmCpuConfReportedModel::IcelakeClient),
            PveVmCpuConfReportedModel::IcelakeClientNoTsx.name() == "Icelake-Client-noTSX"@,
            Self::parses_to("Icelake-Client-noTSX"@, PveVmCpuConfReportedModel::IcelakeClientNoTsx),
            PveVmCpuConfReportedModel::IcelakeServer.name() == "Icelake-Server"@,
            Self::parses_to("Icelake-Server"@, PveVmCpuConfReportedModel::IcelakeServer),
            PveVmCpuConfReportedModel::IcelakeServerNoTsx.name() == "Icelake-Server-noTSX"@,
            Self::parses_to("Icelake-Server-noTSX"@, PveVmCpuConfReportedModel::IcelakeServerNoTsx),
            PveVmCpuConfReportedModel::IcelakeServerV3.name() == "Icelake-Server-v3"@,
            Self::parses_to("Icelake-Server-v3"@, PveVmCpuConfReportedModel::IcelakeServerV3),
            PveVmCpuConfReportedModel::IcelakeServerV4.name() == "Icelake-Server-v4"@,
            Self::parses_to("Icelake-Server-v4"@, PveVmCpuConfReportedModel::IcelakeServerV4),
            PveVmCpuConfReportedModel::IcelakeServerV5.name() == "Icelake-Server-v5"@,
            Self::parses_to("Icelake-Server-v5"@, PveVmCpuConfReportedModel::IcelakeServerV5),
            PveVmCpuConfReportedModel::IcelakeServerV6.name() == "Icelake-Server-v6"@,
            Self::parses_to("Icelake-Server-v6"@, PveVmCpuConfReportedModel::IcelakeServerV6),
            PveVmCpuConfReportedModel::IvyBridge.name() == "IvyBridge"@,
            Self::parses_to("IvyBridge"@, PveVmCpuConfReportedModel::IvyBridge),
            PveVmCpuConfReportedModel::IvyBridgeIbrs.name() == "IvyBridge-IBRS"@,
            Self::parses_to("IvyBridge-IBRS"@, PveVmCpuConfReportedModel::IvyBridgeIbrs),
            PveVmCpuConfReportedModel::KnightsMill.name() == "KnightsMill"@,
            Self::parses_to("KnightsMill"@, PveVmCpuConfReportedModel::KnightsMill),
            PveVmCpuConfReportedModel::Kvm32.name() == "kvm32"@,
            Self::parses_to("kvm32"@, PveVmCpuConfReportedModel::Kvm32),
            PveVmCpuConfReportedModel::Kvm64.name() == "kvm64"@,
            Self::parses_to("kvm64"@, PveVmCpuConfReportedModel::Kvm64),
            PveVmCpuConfReportedModel::Max.name() == "max"@,
            Self::parses_to("max"@, PveVmCpuConfReportedModel::Max),
            PveVmCpuConfReportedModel::Nehalem.name() == "Nehalem"@,
            Self::parses_to("Nehalem"@, PveVmCpuConfReportedModel::Nehalem),
            PveVmCpuConfReportedModel::NehalemIbrs.name() == "Nehalem-IBRS"@,
            Self::parses_to("Nehalem-IBRS"@, PveVmCpuConfReportedModel::NehalemIbrs),
            PveVmCpuConfReportedModel::OpteronG1.name() == "Opteron_G1"@,
            Self::parses_to("Opteron_G1"@, PveVmCpuConfReportedModel::OpteronG1),
            PveVmCpuConfReportedModel::OpteronG2.name() == "Opteron_G2"@,
            Self::parses_to("Opteron_G2"@, PveVmCpuConfReportedModel::OpteronG2),
            PveVmCpuConfReportedModel::OpteronG3.name() == "Opteron_G3"@,
            Self::parses_to("Opteron_G3"@, PveVmCpuConfReportedModel::OpteronG3),
            PveVmCpuConfReportedModel::OpteronG4.name() == "Opteron_G4"@,
            Self::parses_to("Opteron_G4"@, PveVmCpuConfReportedModel::OpteronG4),
            PveVmCpuConfReportedModel::OpteronG5.name() == "Opteron_G5"@,
            Self::parses_to("Opteron_G5"@, PveVmCpuConfReportedModel::OpteronG5),
            PveVmCpuConfReportedModel::Penryn.name() == "Penryn"@,
            Self::parses_to("Penryn"@, PveVmCpuConfReportedModel::Penryn),
            PveVmCpuConfReportedModel::Pentium.name() == "pentium"@,
            Self::parses_to("pentium"@, PveVmCpuConfReportedModel::Pentium),
            PveVmCpuConfReportedModel::Pentium2.name() == "pentium2"@,
            Self::parses_to("pentium2"@, PveVmCpuConfReportedModel::Pentium2),
            PveVmCpuConfReportedModel::Pentium3.name() == "pentium3"@,
            Self::parses_to("pentium3"@, PveVmCpuConfReportedModel::Pentium3),
            PveVmCpuConfReportedModel::Phenom.name() == "phenom"@,
            Self::parses_to("phenom"@, PveVmCpuConfReportedModel::Phenom),
            PveVmCpuConfReportedModel::Qemu32.name() == "qemu32"@,
            Self::parses_to("qemu32"@, PveVmCpuConfReportedModel::Qemu32),
            PveVmCpuConfReportedModel::Qemu64.name() == "qemu64"@,
            Self::parses_to("qemu64"@, PveVmCpuConfReportedModel::Qemu64),
            PveVmCpuConfReportedModel::SandyBridge.name() == "SandyBridge"@,
            Self::parses_to("SandyBridge"@, PveVmCpuConfReportedModel::SandyBridge),
            PveVmCpuConfReportedModel::SandyBridgeIbrs.name() == "SandyBridge-IBRS"@,
            Self::parses_to("SandyBridge-IBRS"@, PveVmCpuConfReportedModel::SandyBridgeIbrs),
            PveVmCpuConfReportedModel::SapphireRapids.name() == "SapphireRapids"@,
            Self::parses_to("SapphireRapids"@, PveVmCpuConfReportedModel::SapphireRapids),
            PveVmCpuConfReportedModel::SapphireRapidsV2.name() == "SapphireRapids-v2"@,
            Self::parses_to("SapphireRapids-v2"@, PveVmCpuConfReportedModel::SapphireRapidsV2),
            PveVmCpuConfReportedModel::SkylakeClient.name() == "Skylake-Client"@,
            Self::parses_to("Skylake-Client"@, PveVmCpuConfReportedModel::SkylakeClient),
            PveVmCpuConfReportedModel::SkylakeClientIbrs.name() == "Skylake-Client-IBRS"@,
            Self::parses_to("Skylake-Client-IBRS"@, PveVmCpuConfReportedModel::SkylakeClientIbrs),
            PveVmCpuConfReportedModel::SkylakeClientNoTsxIbrs.name() == "Skylake-Client-noTSX-IBRS"@,
            Self::parses_to("Skylake-Client-noTSX-IBRS"@, PveVmCpuConfReportedModel::SkylakeClientNoTsxIbrs),
            PveVmCpuConfReportedModel::SkylakeClientV4.name() == "Skylake-Client-v4"@,
            Self::parses_to("Skylake-Client-v4"@, PveVmCpuConfReportedModel::SkylakeClientV4),
            PveVmCpuConfReportedModel::SkylakeServer.name() == "Skylake-Server"@,
            Self::parses_to("Skylake-Server"@, PveVmCpuConfReportedModel::SkylakeServer),
            PveVmCpuConfReportedModel::SkylakeServerIbrs.name() == "Skylake-Server-IBRS"@,
            Self::parses_to("Skylake-Server-IBRS"@, PveVmCpuConfReportedModel::SkylakeServerIbrs),
            PveVmCpuConfReportedModel::SkylakeServerNoTsxIbrs.name() == "Skylake-Server-noTSX-IBRS"@,
            Self::parses_to("Skylake-Server-noTSX-IBRS"@, PveVmCpuConfReportedModel::SkylakeServerNoTsxIbrs),
            PveVmCpuConfReportedModel::SkylakeServerV4.name() == "Skylake-Server-v4"@,
            Self::parses_to("Skylake-Server-v4"@, PveVmCpuConfReportedModel::SkylakeServerV4),
            PveVmCpuConfReportedModel::SkylakeServerV5.name() == "Skylake-Server-v5"@,
            Self::parses_to("Skylake-Server-v5"@, PveVmCpuConfReportedModel::SkylakeServerV5),
            PveVmCpuConfReportedModel::Westmere.name() == "Westmere"@,
            Self::parses_to("Westmere"@, PveVmCpuConfReportedModel::Westmere),
            PveVmCpuConfReportedModel::WestmereIbrs.name() == "Westmere-IBRS"@,
            Self::parses_to("Westmere-IBRS"@, PveVmCpuConfReportedModel::WestmereIbrs),
    {
        Self::lemma_to_string_from_name(PveVmCpuConfReportedModel::I486);
        Self::lemma_to_string_from_name(PveVmCpuConfReportedModel::Athlon);
        Self::lemma_to_string_from_name(PveVmCpuConfReportedModel::Broadwell);
        Self::lemma_to_string_from_name(PveVmCpuConfReportedModel::BroadwellIbrs);
        Self::lemma_to_string_from_name(PveVmCpuConfReportedModel::BroadwellNoTsx);
        Self::lemma_to_string_from_name(PveVmCpuConfReportedModel::BroadwellNoTsxIbrs);
        Self::lemma_to_string_from_name(PveVmCpuConfReportedModel::CascadelakeServer);
        Self::lemma_to_string_from_name(PveVmCpuConfReportedModel::CascadelakeServerNoTsx);
        Self::lemma_to_string_from_name(PveVmCpuConfReportedModel::CascadelakeServerV2);
        Self::lemma_to_string_from_name(PveVmCpuConfReportedModel::CascadelakeServerV4);
        Self::lemma_to_string_from_name(PveVmCpuConfReportedModel::CascadelakeServerV5);
        Self::lemma_to_string_from_name(PveVmCpuConfReportedModel::Conroe);
        Self::lemma_to_string_from_name(PveVmCpuConfReportedModel::Cooperlake);
        Self::lemma_to_string_from_name(PveVmCpuConfReportedModel::CooperlakeV2);
        Self::lemma_to_string_from_name(PveVmCpuConfReportedModel::Core2duo);
        Self::lemma_to_string_from_name(PveVmCpuConfReportedModel::Coreduo);
        Self::lemma_to_string_from_name(PveVmCpuConfReportedModel::Epyc);
        Self::lemma_to_string_from_name(PveVmCpuConfReportedModel::EpycGenoa);
        Self::lemma_to_string_from_name(PveVmCpuConfReportedModel::EpycIbpb);
        Self::lemma_to_string_from_name(PveVmCpuConfReportedModel::EpycMilan);
        Self::lemma_to_string_from_name(PveVmCpuConfReportedModel::EpycMilanV2);
        Self::lemma_to_string_from_name(PveVmCpuConfReportedModel::EpycRome);
        Self::lemma_to_string_from_name(PveVmCpuConfReportedModel::EpycRomeV2);
        Self::lemma_to_string_from_name(PveVmCpuConfReportedModel::EpycRomeV3);
        Self::lemma_to_string_from_name(PveVmCpuConfReportedModel::EpycRomeV4);
        Self::lemma_to_string_from_name(PveVmCpuConfReportedModel::EpycV3);
        Self::lemma_to_string_from_name(PveVmCpuConfReportedModel::EpycV4);
        Self::lemma_to_string_from_name(PveVmCpuConfReportedModel::GraniteRapids);
        Self::lemma_to_string_from_name(PveVmCpuConfReportedModel::Haswell);
        Self::lemma_to_string_from_name(PveVmCpuConfReportedModel::HaswellIbrs);
        Self::lemma_to_string_from_name(PveVmCpuConfReportedModel::HaswellNoTsx);
        Self::lemma_to_string_from_name(PveVmCpuConfReportedModel::HaswellNoTsxIbrs);
        Self::lemma_to_string_from_name(PveVmCpuConfReportedModel::Host);
        Self::lemma_to_string_from_name(PveVmCpuConfReportedModel::IcelakeClient);
        Self::lemma_to_string_from_name(PveVmCpuConfReportedModel::IcelakeClientNoTsx);
        Self::lemma_to_string_from_name(PveVmCpuConfReportedModel::IcelakeServer);
        Self::lemma_to_string_from_name(PveVmCpuConfReportedModel::IcelakeServerNoTsx);
        Self::lemma_to_string_from_name(PveVmCpuConfReportedModel::IcelakeServerV3);
        Self::lemma_to_string_from_name(PveVmCpuConfReportedModel::IcelakeServerV4);
        Self::lemma_to_string_from_name(PveVmCpuConfReportedModel::IcelakeServerV5);
        Self::lemma_to_string_from_name(PveVmCpuConfReportedModel::IcelakeServerV6);
        Self::lemma_to_string_from_name(PveVmCpuConfReportedModel::IvyBridge);
        Self::lemma_to_string_from_name(PveVmCpuConfReportedModel::IvyBridgeIbrs);
        Self::lemma_to_string_from_name(PveVmCpuConfReportedModel::KnightsMill);
        Self::lemma_to_string_from_name(PveVmCpuConfReportedModel::Kvm32);
        Self::lemma_to_string_from_name(PveVmCpuConfReportedModel::Kvm64);
        Self::lemma_to_string_from_name(PveVmCpuConfReportedModel::Max);
        Self::lemma_to_string_from_name(PveVmCpuConfReportedModel::Nehalem);
        Self::lemma_to_string_from_name(PveVmCpuConfReportedModel::NehalemIbrs);
        Self::lemma_to_string_from_name(PveVmCpuConfReportedModel::OpteronG1);
        Self::lemma_to_string_from_name(PveVmCpuConfReportedModel::OpteronG2);
        Self::lemma_to_string_from_name(PveVmCpuConfReportedModel::OpteronG3);
        Self::lemma_to_string_from_name(PveVmCpuConfReportedModel::OpteronG4);
        Self::lemma_to_string_from_name(PveVmCpuConfReportedModel::OpteronG5);
        Self::lemma_to_string_from_name(PveVmCpuConfReportedModel::Penryn);
        Self::lemma_to_string_from_name(PveVmCpuConfReportedModel::Pentium);
        Self::lemma_to_string_from_name(PveVmCpuConfReportedModel::Pentium2);
        Self::lemma_to_string_from_name(PveVmCpuConfReportedModel::Pentium3);
        Self::lemma_to_string_from_name(PveVmCpuConfReportedModel::Phenom);
        Self::lemma_to_string_from_name(PveVmCpuConfReportedModel::Qemu32);
        Self::lemma_to_string_from_name(PveVmCpuConfReportedModel::Qemu64);
        Self::lemma_to_string_from_name(PveVmCpuConfReportedModel::SandyBridge);
        Self::lemma_to_string_from_name(PveVmCpuConfReportedModel::SandyBridgeIbrs);
        Self::lemma_to_string_from_name(PveVmCpuConfReportedModel::SapphireRapids);
        Self::lemma_to_string_from_name(PveVmCpuConfReportedModel::SapphireRapidsV2);
        Self::lemma_to_string_from_name(PveVmCpuConfReportedModel::SkylakeClient);
        Self::lemma_to_string_from_name(PveVmCpuConfReportedModel::SkylakeClientIbrs);
        Self::lemma_to_string_from_name(PveVmCpuConfReportedModel::SkylakeClientNoTsxIbrs);
        Self::lemma_to_string_from_name(PveVmCpuConfReportedModel::SkylakeClientV4);
        Self::lemma_to_string_from_name(PveVmCpuConfReportedModel::SkylakeServer);
        Self::lemma_to_string_from_name(PveVmCpuConfReportedModel::SkylakeServerIbrs);
        Self::lemma_to_string_from_name(PveVmCpuConfReportedModel::SkylakeServerNoTsxIbrs);
        Self::lemma_to_string_from_name(PveVmCpuConfReportedModel::SkylakeServerV4);
        Self::lemma_to_string_from_name(PveVmCpuConfReportedModel::SkylakeServerV5);
        Self::lemma_to_string_from_name(PveVmCpuConfReportedModel::Westmere);
        Self::lemma_to_string_from_name(PveVmCpuConfReportedModel::WestmereIbrs);
    }

    /// Writing out a value that was read gives back the name that was read.
    pub proof fn lemma_from_name_to_string(s: Seq<char>, v: Self)
        requires
            Self::parses_to(s, v),
        ensures
            v.name() == s,
    {
    }

    /// Reading the name of a value gives back the value, unless the value is an
    /// unknown one that carries the name of a known one.
    pub proof fn lemma_to_string_from_name(v: Self)
        requires
            v is UnknownEnumValue ==> Self::known(v.name()) is None,
        ensures
            Self::parses_to(v.name(), v),
    {
        match v {
            PveVmCpuConfReportedModel::I486 | PveVmCpuConfReportedModel::Athlon | PveVmCpuConfReportedModel::Broadwell | PveVmCpuConfReportedModel::BroadwellIbrs | PveVmCpuConfReportedModel::BroadwellNoTsx | PveVmCpuConfReportedModel::BroadwellNoTsxIbrs | PveVmCpuConfReportedModel::CascadelakeServer | PveVmCpuConfReportedModel::CascadelakeServerNoTsx | PveVmCpuConfReportedModel::CascadelakeServerV2 | PveVmCpuConfReportedModel::CascadelakeServerV4 | PveVmCpuConfReportedModel::CascadelakeServerV5 | PveVmCpuConfReportedModel::Conroe | PveVmCpuConfReportedModel::Cooperlake | PveVmCpuConfReportedModel::CooperlakeV2 | PveVmCpuConfReportedModel::Core2duo | PveVmCpuConfReportedModel::Coreduo | PveVmCpuConfReportedModel::Epyc | PveVmCpuConfReportedModel::EpycGenoa | PveVmCpuConfReportedModel::EpycIbpb | PveVmCpuConfReportedModel::EpycMilan => Self::lemma_known_names_0(v),
            PveVmCpuConfReportedModel::EpycMilanV2 | PveVmCpuConfReportedModel::EpycRome | PveVmCpuConfReportedModel::EpycRomeV2 | PveVmCpuConfReportedModel::EpycRomeV3 | PveVmCpuConfReportedModel::EpycRomeV4 | PveVmCpuConfReportedModel::EpycV3 | PveVmCpuConfReportedModel::EpycV4 | PveVmCpuConfReportedModel::GraniteRapids | PveVmCpuConfReportedModel::Haswell | PveVmCpuConfReportedModel::HaswellIbrs | PveVmCpuConfReportedModel::HaswellNoTsx | PveVmCpuConfReportedModel::HaswellNoTsxIbrs | PveVmCpuConfReportedModel::Host | PveVmCpuConfReportedModel::IcelakeClient | PveVmCpuConfReportedModel::IcelakeClientNoTsx | PveVmCpuConfReportedModel::IcelakeServer | PveVmCpuConfReportedModel::IcelakeServerNoTsx | PveVmCpuConfReportedModel::IcelakeServerV3 | PveVmCpuConfReportedModel::IcelakeServerV4 | PveVmCpuConfReportedModel::IcelakeServerV5 => Self::lemma_known_names_1(v),
            PveVmCpuConfReportedModel::IcelakeServerV6 | PveVmCpuConfReportedModel::IvyBridge | PveVmCpuConfReportedModel::IvyBridgeIbrs | PveVmCpuConfReportedModel::KnightsMill | PveVmCpuConfReportedModel::Kvm32 | PveVmCpuConfReportedModel::Kvm64 | PveVmCpuConfReportedModel::Max | PveVmCpuConfReportedModel::Nehalem | PveVmCpuConfReportedModel::NehalemIbrs | PveVmCpuConfReportedModel::OpteronG1 | PveVmCpuConfReportedModel::OpteronG2 | PveVmCpuConfReportedModel::OpteronG3 | PveVmCpuConfReportedModel::OpteronG4 | PveVmCpuConfReportedModel::OpteronG5 | PveVmCpuConfReportedModel::Penryn | PveVmCpuConfReportedModel::Pentium | PveVmCpuConfReportedModel::Pentium2 | PveVmCpuConfReportedModel::Pentium3 | PveVmCpuConfReportedModel::Phenom | PveVmCpuConfReportedModel::Qemu32 => Self::lemma_known_names_2(v),
            PveVmCpuConfReportedModel::Qemu64 | PveVmCpuConfReportedModel::SandyBridge | PveVmCpuConfReportedModel::SandyBridgeIbrs | PveVmCpuConfReportedModel::SapphireRapids | PveVmCpuConfReportedModel::SapphireRapidsV2 | PveVmCpuConfReportedModel::SkylakeClient | PveVmCpuConfReportedModel::SkylakeClientIbrs | PveVmCpuConfReportedModel::SkylakeClientNoTsxIbrs | PveVmCpuConfReportedModel::SkylakeClientV4 | PveVmCpuConfReportedModel::SkylakeServer | PveVmCpuConfReportedModel::SkylakeServerIbrs | PveVmCpuConfReportedModel::SkylakeServerNoTsxIbrs | PveVmCpuConfReportedModel::SkylakeServerV4 | PveVmCpuConfReportedModel::SkylakeServerV5 | PveVmCpuConfReportedModel::Westmere | PveVmCpuConfReportedModel::WestmereIbrs => Self::lemma_known_names_3(v),
            PveVmCpuConfReportedModel::UnknownEnumValue(_) => {},
        }
    }

    /// The spelling of known names, character by character.
    proof fn lemma_name_spelling_0()
        ensures
            "486"@.len() == 3 && "486"@[0] == '4' && "486"@[1] == '8' && "486"@[2] == '6',
            "athlon"@.len() == 6 && "athlon"@[0] == 'a' && "athlon"@[1] == 't' && "athlon"@[2] == 'h' && "athlon"@[3] == 'l' && "athlon"@[4] == 'o' && "athlon"@[5] == 'n',
            "Broadwell"@.len() == 9 && "Broadwell"@[0] == 'B' && "Broadwell"@[1] == 'r' && "Broadwell"@[2] == 'o' && "Broadwell"@[3] == 'a' && "Broadwell"@[4] == 'd' && "Broadwell"@[5] == 'w' && "Broadwell"@[6] == 'e' && "Broadwell"@[7] == 'l' && "Broadwell"@[8] == 'l',
            "Broadwell-IBRS"@.len() == 14 && "Broadwell-IBRS"@[0] == 'B' && "Broadwell-IBRS"@[1] == 'r' && "Broadwell-IBRS"@[2] == 'o' && "Broadwell-IBRS"@[3] == 'a' && "Broadwell-IBRS"@[4] == 'd' && "Broadwell-IBRS"@[5] == 'w' && "Broadwell-IBRS"@[6] == 'e' && "Broadwell-IBRS"@[7] == 'l' && "Broadwell-IBRS"@[8] == 'l' && "Broadwell-IBRS"@[9] == '-' && "Broadwell-IBRS"@[10] == 'I' && "Broadwell-IBRS"@[11] == 'B' && "Broadwell-IBRS"@[12] == 'R' && "Broadwell-IBRS"@[13] == 'S',
            "Broadwell-noTSX"@.len() == 15 && "Broadwell-noTSX"@[0] == 'B' && "Broadwell-noTSX"@[1] == 'r' && "Broadwell-noTSX"@[2] == 'o' && "Broadwell-noTSX"@[3] == 'a' && "Broadwell-noTSX"@[4] == 'd' && "Broadwell-noTSX"@[5] == 'w' && "Broadwell-noTSX"@[6] == 'e' && "Broadwell-noTSX"@[7] == 'l' && "Broadwell-noTSX"@[8] == 'l' && "Broadwell-noTSX"@[9] == '-' && "Broadwell-noTSX"@[10] == 'n' && "Broadwell-noTSX"@[11] == 'o' && "Broadwell-noTSX"@[12] == 'T' && "Broadwell-noTSX"@[13] == 'S' && "Broadwell-noTSX"@[14] == 'X',
            "Broadwell-noTSX-IBRS"@.len() == 20 && "Broadwell-noTSX-IBRS"@[0] == 'B' && "Broadwell-noTSX-IBRS"@[1] == 'r' && "Broadwell-noTSX-IBRS"@[2] == 'o' && "Broadwell-noTSX-IBRS"@[3] == 'a' && "Broadwell-noTSX-IBRS"@[4] == 'd' && "Broadwell-noTSX-IBRS"@[5] == 'w' && "Broadwell-noTSX-IBRS"@[6] == 'e' && "Broadwell-noTSX-IBRS"@[7] == 'l' && "Broadwell-noTSX-IBRS"@[8] == 'l' && "Broadwell-noTSX-IBRS"@[9] == '-' && "Broadwell-noTSX-IBRS"@[10] == 'n' && "Broadwell-noTSX-IBRS"@[11] == 'o' && "Broadwell-noTSX-IBRS"@[12] == 'T' && "Broadwell-noTSX-IBRS"@[13] == 'S' && "Broadwell-noTSX-IBRS"@[14] == 'X' && "Broadwell-noTSX-IBRS"@[15] == '-' && "Broadwell-noTSX-IBRS"@[16] == 'I' && "Broadwell-noTSX-IBRS"@[17] == 'B' && "Broadwell-noTSX-IBRS"@[18] == 'R' && "Broadwell-noTSX-IBRS"@[19] == 'S',
            "Cascadelake-Server"@.len() == 18 && "Cascadelake-Server"@[0] == 'C' && "Cascadelake-Server"@[1] == 'a' && "Cascadelake-Server"@[2] == 's' && "Cascadelake-Server"@[3] == 'c' && "Cascadelake-Server"@[4] == 'a' && "Cascadelake-Server"@[5] == 'd' && "Cascadelake-Server"@[6] == 'e' && "Cascadelake-Server"@[7] == 'l' && "Cascadelake-Server"@[8] == 'a' && "Cascadelake-Server"@[9] == 'k' && "Cascadelake-Server"@[10] == 'e' && "Cascadelake-Server"@[11] == '-' && "Cascadelake-Server"@[12] == 'S' && "Cascadelake-Server"@[13] == 'e' && "Cascadelake-Server"@[14] == 'r' && "Cascadelake-Server"@[15] == 'v' && "Cascadelake-Server"@[16] == 'e' && "Cascadelake-Server"@[17] == 'r',
            "Cascadelake-Server-noTSX"@.len() == 24 && "Cascadelake-Server-noTSX"@[0] == 'C' && "Cascadelake-Server-noTSX"@[1] == 'a' && "Cascadelake-Server-noTSX"@[2] == 's' && "Cascadelake-Server-noTSX"@[3] == 'c' && "Cascadelake-Server-noTSX"@[4] == 'a' && "Cascadelake-Server-noTSX"@[5] == 'd' && "Cascadelake-Server-noTSX"@[6] == 'e' && "Cascadelake-Server-noTSX"@[7] == 'l' && "Cascadelake-Server-noTSX"@[8] == 'a' && "Cascadelake-Server-noTSX"@[9] == 'k' && "Cascadelake-Server-noTSX"@[10] == 'e' && "Cascadelake-Server-noTSX"@[11] == '-' && "Cascadelake-Server-noTSX"@[12] == 'S' && "Cascadelake-Server-noTSX"@[13] == 'e' && "Cascadelake-Server-noTSX"@[14] == 'r' && "Cascadelake-Server-noTSX"@[15] == 'v' && "Cascadelake-Server-noTSX"@[16] == 'e' && "Cascadelake-Server-noTSX"@[17] == 'r' && "Cascadelake-Server-noTSX"@[18] == '-' && "Cascadelake-Server-noTSX"@[19] == 'n' && "Cascadelake-Server-noTSX"@[20] == 'o' && "Cascadelake-Server-noTSX"@[21] == 'T' && "Cascadelake-Server-noTSX"@[22] == 'S' && "Cascadelake-Server-noTSX"@[23] == 'X',
            "Cascadelake-Server-v2"@.len() == 21 && "Cascadelake-Server-v2"@[0] == 'C' && "Cascadelake-Server-v2"@[1] == 'a' && "Cascadelake-Server-v2"@[2] == 's' && "Cascadelake-Server-v2"@[3] == 'c' && "Cascadelake-Server-v2"@[4] == 'a' && "Cascadelake-Server-v2"@[5] == 'd' && "Cascadelake-Server-v2"@[6] == 'e' && "Cascadelake-Server-v2"@[7] == 'l' && "Cascadelake-Server-v2"@[8] == 'a' && "Cascadelake-Server-v2"@[9] == 'k' && "Cascadelake-Server-v2"@[10] == 'e' && "Cascadelake-Server-v2"@[11] == '-' && "Cascadelake-Server-v2"@[12] == 'S' && "Cascadelake-Server-v2"@[13] == 'e' && "Cascadelake-Server-v2"@[14] == 'r' && "Cascadelake-Server-v2"@[15] == 'v' && "Cascadelake-Server-v2"@[16] == 'e' && "Cascadelake-Server-v2"@[17] == 'r' && "Cascadelake-Server-v2"@[18] == '-' && "Cascadelake-Server-v2"@[19] == 'v' && "Cascadelake-Server-v2"@[20] == '2',
            "Cascadelake-Server-v4"@.len() == 21 && "Cascadelake-Server-v4"@[0] == 'C' && "Cascadelake-Server-v4"@[1] == 'a' && "Cascadelake-Server-v4"@[2] == 's' && "Cascadelake-Server-v4"@[3] == 'c' && "Cascadelake-Server-v4"@[4] == 'a' && "Cascadelake-Server-v4"@[5] == 'd' && "Cascadelake-Server-v4"@[6] == 'e' && "Cascadelake-Server-v4"@[7] == 'l' && "Cascadelake-Server-v4"@[8] == 'a' && "Cascadelake-Server-v4"@[9] == 'k' && "Cascadelake-Server-v4"@[10] == 'e' && "Cascadelake-Server-v4"@[11] == '-' && "Cascadelake-Server-v4"@[12] == 'S' && "Cascadelake-Server-v4"@[13] == 'e' && "Cascadelake-Server-v4"@[14] == 'r' && "Cascadelake-Server-v4"@[15] == 'v' && "Cascadelake-Server-v4"@[16] == 'e' && "Cascadelake-Server-v4"@[17] == 'r' && "Cascadelake-Server-v4"@[18] == '-' && "Cascadelake-Server-v4"@[19] == 'v' && "Cascadelake-Server-v4"@[20] == '4',
            "Cascadelake-Server-v5"@.len() == 21 && "Cascadelake-Server-v5"@[0] == 'C' && "Cascadelake-Server-v5"@[1] == 'a' && "Cascadelake-Server-v5"@[2] == 's' && "Cascadelake-Server-v5"@[3] == 'c' && "Cascadelake-Server-v5"@[4] == 'a' && "Cascadelake-Server-v5"@[5] == 'd' && "Cascadelake-Server-v5"@[6] == 'e' && "Cascadelake-Server-v5"@[7] == 'l' && "Cascadelake-Server-v5"@[8] == 'a' && "Cascadelake-Server-v5"@[9] == 'k' && "Cascadelake-Server-v5"@[10] == 'e' && "Cascadelake-Server-v5"@[11] == '-' && "Cascadelake-Server-v5"@[12] == 'S' && "Cascadelake-Server-v5"@[13] == 'e' && "Cascadelake-Server-v5"@[14] == 'r' && "Cascadelake-Server-v5"@[15] == 'v' && "Cascadelake-Server-v5"@[16] == 'e' && "Cascadelake-Server-v5"@[17] == 'r' && "Cascadelake-Server-v5"@[18] == '-' && "Cascadelake-Server-v5"@[19] == 'v' && "Cascadelake-Server-v5"@[20] == '5',
            "Conroe"@.len() == 6 && "Conroe"@[0] == 'C' && "Conroe"@[1] == 'o' && "Conroe"@[2] == 'n' && "Conroe"@[3] == 'r' && "Conroe"@[4] == 'o' && "Conroe"@[5] == 'e',
            "Cooperlake"@.len() == 10 && "Cooperlake"@[0] == 'C' && "Cooperlake"@[1] == 'o' && "Cooperlake"@[2] == 'o' && "Cooperlake"@[3] == 'p' && "Cooperlake"@[4] == 'e' && "Cooperlake"@[5] == 'r' && "Cooperlake"@[6] == 'l' && "Cooperlake"@[7] == 'a' && "Cooperlake"@[8] == 'k' && "Cooperlake"@[9] == 'e',
            "Cooperlake-v2"@.len() == 13 && "Cooperlake-v2"@[0] == 'C' && "Cooperlake-v2"@[1] == 'o' && "Cooperlake-v2"@[2] == 'o' && "Cooperlake-v2"@[3] == 'p' && "Cooperlake-v2"@[4] == 'e' && "Cooperlake-v2"@[5] == 'r' && "Cooperlake-v2"@[6] == 'l' && "Cooperlake-v2"@[7] == 'a' && "Cooperlake-v2"@[8] == 'k' && "Cooperlake-v2"@[9] == 'e' && "Cooperlake-v2"@[10] == '-' && "Cooperlake-v2"@[11] == 'v' && "Cooperlake-v2"@[12] == '2',
            "core2duo"@.len() == 8 && "core2duo"@[0] == 'c' && "core2duo"@[1] == 'o' && "core2duo"@[2] == 'r' && "core2duo"@[3] == 'e' && "core2duo"@[4] == '2' && "core2duo"@[5] == 'd' && "core2duo"@[6] == 'u' && "core2duo"@[7] == 'o',
            "coreduo"@.len() == 7 && "coreduo"@[0] == 'c' && "coreduo"@[1] == 'o' && "coreduo"@[2] == 'r' && "coreduo"@[3] == 'e' && "coreduo"@[4] == 'd' && "coreduo"@[5] == 'u' && "coreduo"@[6] == 'o',
            "EPYC"@.len() == 4 && "EPYC"@[0] == 'E' && "EPYC"@[1] == 'P' && "EPYC"@[2] == 'Y' && "EPYC"@[3] == 'C',
            "EPYC-Genoa"@.len() == 10 && "EPYC-Genoa"@[0] == 'E' && "EPYC-Genoa"@[1] == 'P' && "EPYC-Genoa"@[2] == 'Y' && "EPYC-Genoa"@[3] == 'C' && "EPYC-Genoa"@[4] == '-' && "EPYC-Genoa"@[5] == 'G' && "EPYC-Genoa"@[6] == 'e' && "EPYC-Genoa"@[7] == 'n' && "EPYC-Genoa"@[8] == 'o' && "EPYC-Genoa"@[9] == 'a',
            "EPYC-IBPB"@.len() == 9 && "EPYC-IBPB"@[0] == 'E' && "EPYC-IBPB"@[1] == 'P' && "EPYC-IBPB"@[2] == 'Y' && "EPYC-IBPB"@[3] == 'C' && "EPYC-IBPB"@[4] == '-' && "EPYC-IBPB"@[5] == 'I' && "EPYC-IBPB"@[6] == 'B' && "EPYC-IBPB"@[7] == 'P' && "EPYC-IBPB"@[8] == 'B',
            "EPYC-Milan"@.len() == 10 && "EPYC-Milan"@[0] == 'E' && "EPYC-Milan"@[1] == 'P' && "EPYC-Milan"@[2] == 'Y' && "EPYC-Milan"@[3] == 'C' && "EPYC-Milan"@[4] == '-' && "EPYC-Milan"@[5] == 'M' && "EPYC-Milan"@[6] == 'i' && "EPYC-Milan"@[7] == 'l' && "EPYC-Milan"@[8] == 'a' && "EPYC-Milan"@[9] == 'n',
    {
        broadcast use vstd::string::group_string_axioms;

        reveal_strlit("486");
        reveal_strlit("athlon");
        reveal_strlit("Broadwell");
        reveal_strlit("Broadwell-IBRS");
        reveal_strlit("Broadwell-noTSX");
        reveal_strlit("Broadwell-noTSX-IBRS");
        reveal_strlit("Cascadelake-Server");
        reveal_strlit("Cascadelake-Server-noTSX");
        reveal_strlit("Cascadelake-Server-v2");
        reveal_strlit("Cascadelake-Server-v4");
        reveal_strlit("Cascadelake-Server-v5");
        reveal_strlit("Conroe");
        reveal_strlit("Cooperlake");
        reveal_strlit("Cooperlake-v2");
        reveal_strlit("core2duo");
        reveal_strlit("coreduo");
        reveal_strlit("EPYC");
        reveal_strlit("EPYC-Genoa");
        reveal_strlit("EPYC-IBPB");
        reveal_strlit("EPYC-Milan");
    }

    /// The spelling of known names, character by character.
    proof fn lemma_name_spelling_1()
        ensures
            "EPYC-Milan-v2"@.len() == 13 && "EPYC-Milan-v2"@[0] == 'E' && "EPYC-Milan-v2"@[1] == 'P' && "EPYC-Milan-v2"@[2] == 'Y' && "EPYC-Milan-v2"@[3] == 'C' && "EPYC-Milan-v2"@[4] == '-' && "EPYC-Milan-v2"@[5] == 'M' && "EPYC-Milan-v2"@[6] == 'i' && "EPYC-Milan-v2"@[7] == 'l' && "EPYC-Milan-v2"@[8] == 'a' && "EPYC-Milan-v2"@[9] == 'n' && "EPYC-Milan-v2"@[10] == '-' && "EPYC-Milan-v2"@[11] == 'v' && "EPYC-Milan-v2"@[12] == '2',
            "EPYC-Rome"@.len() == 9 && "EPYC-Rome"@[0] == 'E' && "EPYC-Rome"@[1] == 'P' && "EPYC-Rome"@[2] == 'Y' && "EPYC-Rome"@[3] == 'C' && "EPYC-Rome"@[4] == '-' && "EPYC-Rome"@[5] == 'R' && "EPYC-Rome"@[6] == 'o' && "EPYC-Rome"@[7] == 'm' && "EPYC-Rome"@[8] == 'e',
            "EPYC-Rome-v2"@.len() == 12 && "EPYC-Rome-v2"@[0] == 'E' && "EPYC-Rome-v2"@[1] == 'P' && "EPYC-Rome-v2"@[2] == 'Y' && "EPYC-Rome-v2"@[3] == 'C' && "EPYC-Rome-v2"@[4] == '-' && "EPYC-Rome-v2"@[5] == 'R' && "EPYC-Rome-v2"@[6] == 'o' && "EPYC-Rome-v2"@[7] == 'm' && "EPYC-Rome-v2"@[8] == 'e' && "EPYC-Rome-v2"@[9] == '-' && "EPYC-Rome-v2"@[10] == 'v' && "EPYC-Rome-v2"@[11] == '2',
            "EPYC-Rome-v3"@.len() == 12 && "EPYC-Rome-v3"@[0] == 'E' && "EPYC-Rome-v3"@[1] == 'P' && "EPYC-Rome-v3"@[2] == 'Y' && "EPYC-Rome-v3"@[3] == 'C' && "EPYC-Rome-v3"@[4] == '-' && "EPYC-Rome-v3"@[5] == 'R' && "EPYC-Rome-v3"@[6] == 'o' && "EPYC-Rome-v3"@[7] == 'm' && "EPYC-Rome-v3"@[8] == 'e' && "EPYC-Rome-v3"@[9] == '-' && "EPYC-Rome-v3"@[10] == 'v' && "EPYC-Rome-v3"@[11] == '3',
            "EPYC-Rome-v4"@.len() == 12 && "EPYC-Rome-v4"@[0] == 'E' && "EPYC-Rome-v4"@[1] == 'P' && "EPYC-Rome-v4"@[2] == 'Y' && "EPYC-Rome-v4"@[3] == 'C' && "EPYC-Rome-v4"@[4] == '-' && "EPYC-Rome-v4"@[5] == 'R' && "EPYC-Rome-v4"@[6] == 'o' && "EPYC-Rome-v4"@[7] == 'm' && "EPYC-Rome-v4"@[8] == 'e' && "EPYC-Rome-v4"@[9] == '-' && "EPYC-Rome-v4"@[10] == 'v' && "EPYC-Rome-v4"@[11] == '4',
            "EPYC-v3"@.len() == 7 && "EPYC-v3"@[0] == 'E' && "EPYC-v3"@[1] == 'P' && "EPYC-v3"@[2] == 'Y' && "EPYC-v3"@[3] == 'C' && "EPYC-v3"@[4] == '-' && "EPYC-v3"@[5] == 'v' && "EPYC-v3"@[6] == '3',
            "EPYC-v4"@.len() == 7 && "EPYC-v4"@[0] == 'E' && "EPYC-v4"@[1] == 'P' && "EPYC-v4"@[2] == 'Y' && "EPYC-v4"@[3] == 'C' && "EPYC-v4"@[4] == '-' && "EPYC-v4"@[5] == 'v' && "EPYC-v4"@[6] == '4',
            "GraniteRapids"@.len() == 13 && "GraniteRapids"@[0] == 'G' && "GraniteRapids"@[1] == 'r' && "GraniteRapids"@[2] == 'a' && "GraniteRapids"@[3] == 'n' && "GraniteRapids"@[4] == 'i' && "GraniteRapids"@[5] == 't' && "GraniteRapids"@[6] == 'e' && "GraniteRapids"@[7] == 'R' && "GraniteRapids"@[8] == 'a' && "GraniteRapids"@[9] == 'p' && "GraniteRapids"@[10] == 'i' && "GraniteRapids"@[11] == 'd' && "GraniteRapids"@[12] == 's',
            "Haswell"@.len() == 7 && "Haswell"@[0] == 'H' && "Haswell"@[1] == 'a' && "Haswell"@[2] == 's' && "Haswell"@[3] == 'w' && "Haswell"@[4] == 'e' && "Haswell"@[5] == 'l' && "Haswell"@[6] == 'l',
            "Haswell-IBRS"@.len() == 12 && "Haswell-IBRS"@[0] == 'H' && "Haswell-IBRS"@[1] == 'a' && "Haswell-IBRS"@[2] == 's' && "Haswell-IBRS"@[3] == 'w' && "Haswell-IBRS"@[4] == 'e' && "Haswell-IBRS"@[5] == 'l' && "Haswell-IBRS"@[6] == 'l' && "Haswell-IBRS"@[7] == '-' && "Haswell-IBRS"@[8] == 'I' && "Haswell-IBRS"@[9] == 'B' && "Haswell-IBRS"@[10] == 'R' && "Haswell-IBRS"@[11] == 'S',
            "Haswell-noTSX"@.len() == 13 && "Haswell-noTSX"@[0] == 'H' && "Haswell-noTSX"@[1] == 'a' && "Haswell-noTSX"@[2] == 's' && "Haswell-noTSX"@[3] == 'w' && "Haswell-noTSX"@[4] == 'e' && "Haswell-noTSX"@[5] == 'l' && "Haswell-noTSX"@[6] == 'l' && "Haswell-noTSX"@[7] == '-' && "Haswell-noTSX"@[8] == 'n' && "Haswell-noTSX"@[9] == 'o' && "Haswell-noTSX"@[10] == 'T' && "Haswell-noTSX"@[11] == 'S' && "Haswell-noTSX"@[12] == 'X',
            "Haswell-noTSX-IBRS"@.len() == 18 && "Haswell-noTSX-IBRS"@[0] == 'H' && "Haswell-noTSX-IBRS"@[1] == 'a' && "Haswell-noTSX-IBRS"@[2] == 's' && "Haswell-noTSX-IBRS"@[3] == 'w' && "Haswell-noTSX-IBRS"@[4] == 'e' && "Haswell-noTSX-IBRS"@[5] == 'l' && "Haswell-noTSX-IBRS"@[6] == 'l' && "Haswell-noTSX-IBRS"@[7] == '-' && "Haswell-noTSX-IBRS"@[8] == 'n' && "Haswell-noTSX-IBRS"@[9] == 'o' && "Haswell-noTSX-IBRS"@[10] == 'T' && "Haswell-noTSX-IBRS"@[11] == 'S' && "Haswell-noTSX-IBRS"@[12] == 'X' && "Haswell-noTSX-IBRS"@[13] == '-' && "Haswell-noTSX-IBRS"@[14] == 'I' && "Haswell-noTSX-IBRS"@[15] == 'B' && "Haswell-noTSX-IBRS"@[16] == 'R' && "Haswell-noTSX-IBRS"@[17] == 'S',
            "host"@.len() == 4 && "host"@[0] == 'h' && "host"@[1] == 'o' && "host"@[2] == 's' && "host"@[3] == 't',
            "Icelake-Client"@.len() == 14 && "Icelake-Client"@[0] == 'I' && "Icelake-Client"@[1] == 'c' && "Icelake-Client"@[2] == 'e' && "Icelake-Client"@[3] == 'l' && "Icelake-Client"@[4] == 'a' && "Icelake-Client"@[5] == 'k' && "Icelake-Client"@[6] == 'e' && "Icelake-Client"@[7] == '-' && "Icelake-Client"@[8] == 'C' && "Icelake-Client"@[9] == 'l' && "Icelake-Client"@[10] == 'i' && "Icelake-Client"@[11] == 'e' && "Icelake-Client"@[12] == 'n' && "Icelake-Client"@[13] == 't',
            "Icelake-Client-noTSX"@.len() == 20 && "Icelake-Client-noTSX"@[0] == 'I' && "Icelake-Client-noTSX"@[1] == 'c' && "Icelake-Client-noTSX"@[2] == 'e' && "Icelake-Client-noTSX"@[3] == 'l' && "Icelake-Client-noTSX"@[4] == 'a' && "Icelake-Client-noTSX"@[5] == 'k' && "Icelake-Client-noTSX"@[6] == 'e' && "Icelake-Client-noTSX"@[7] == '-' && "Icelake-Client-noTSX"@[8] == 'C' && "Icelake-Client-noTSX"@[9] == 'l' && "Icelake-Client-noTSX"@[10] == 'i' && "Icelake-Client-noTSX"@[11] == 'e' && "Icelake-Client-noTSX"@[12] == 'n' && "Icelake-Client-noTSX"@[13] == 't' && "Icelake-Client-noTSX"@[14] == '-' && "Icelake-Client-noTSX"@[15] == 'n' && "Icelake-Client-noTSX"@[16] == 'o' && "Icelake-Client-noTSX"@[17] == 'T' && "Icelake-Client-noTSX"@[18] == 'S' && "Icelake-Client-noTSX"@[19] == 'X',
            "Icelake-Server"@.len() == 14 && "Icelake-Server"@[0] == 'I' && "Icelake-Server"@[1] == 'c' && "Icelake-Server"@[2] == 'e' && "Icelake-Server"@[3] == 'l' && "Icelake-Server"@[4] == 'a' && "Icelake-Server"@[5] == 'k' && "Icelake-Server"@[6] == 'e' && "Icelake-Server"@[7] == '-' && "Icelake-Server"@[8] == 'S' && "Icelake-Server"@[9] == 'e' && "Icelake-Server"@[10] == 'r' && "Icelake-Server"@[11] == 'v' && "Icelake-Server"@[12] == 'e' && "Icelake-Server"@[13] == 'r',
            "Icelake-Server-noTSX"@.len() == 20 && "Icelake-Server-noTSX"@[0] == 'I' && "Icelake-Server-noTSX"@[1] == 'c' && "Icelake-Server-noTSX"@[2] == 'e' && "Icelake-Server-noTSX"@[3] == 'l' && "Icelake-Server-noTSX"@[4] == 'a' && "Icelake-Server-noTSX"@[5] == 'k' && "Icelake-Server-noTSX"@[6] == 'e' && "Icelake-Server-noTSX"@[7] == '-' && "Icelake-Server-noTSX"@[8] == 'S' && "Icelake-Server-noTSX"@[9] == 'e' && "Icelake-Server-noTSX"@[10] == 'r' && "Icelake-Server-noTSX"@[11] == 'v' && "Icelake-Server-noTSX"@[12] == 'e' && "Icelake-Server-noTSX"@[13] == 'r' && "Icelake-Server-noTSX"@[14] == '-' && "Icelake-Server-noTSX"@[15] == 'n' && "Icelake-Server-noTSX"@[16] == 'o' && "Icelake-Server-noTSX"@[17] == 'T' && "Icelake-Server-noTSX"@[18] == 'S' && "Icelake-Server-noTSX"@[19] == 'X',
            "Icelake-Server-v3"@.len() == 17 && "Icelake-Server-v3"@[0] == 'I' && "Icelake-Server-v3"@[1] == 'c' && "Icelake-Server-v3"@[2] == 'e' && "Icelake-Server-v3"@[3] == 'l' && "Icelake-Server-v3"@[4] == 'a' && "Icelake-Server-v3"@[5] == 'k' && "Icelake-Server-v3"@[6] == 'e' && "Icelake-Server-v3"@[7] == '-' && "Icelake-Server-v3"@[8] == 'S' && "Icelake-Server-v3"@[9] == 'e' && "Icelake-Server-v3"@[10] == 'r' && "Icelake-Server-v3"@[11] == 'v' && "Icelake-Server-v3"@[12] == 'e' && "Icelake-Server-v3"@[13] == 'r' && "Icelake-Server-v3"@[14] == '-' && "Icelake-Server-v3"@[15] == 'v' && "Icelake-Server-v3"@[16] == '3',
            "Icelake-Server-v4"@.len() == 17 && "Icelake-Server-v4"@[0] == 'I' && "Icelake-Server-v4"@[1] == 'c' && "Icelake-Server-v4"@[2] == 'e' && "Icelake-Server-v4"@[3] == 'l' && "Icelake-Server-v4"@[4] == 'a' && "Icelake-Server-v4"@[5] == 'k' && "Icelake-Server-v4"@[6] == 'e' && "Icelake-Server-v4"@[7] == '-' && "Icelake-Server-v4"@[8] == 'S' && "Icelake-Server-v4"@[9] == 'e' && "Icelake-Server-v4"@[10] == 'r' && "Icelake-Server-v4"@[11] == 'v' && "Icelake-Server-v4"@[12] == 'e' && "Icelake-Server-v4"@[13] == 'r' && "Icelake-Server-v4"@[14] == '-' && "Icelake-Server-v4"@[15] == 'v' && "Icelake-Server-v4"@[16] == '4',
            "Icelake-Server-v5"@.len() == 17 && "Icelake-Server-v5"@[0] == 'I' && "Icelake-Server-v5"@[1] == 'c' && "Icelake-Server-v5"@[2] == 'e' && "Icelake-Server-v5"@[3] == 'l' && "Icelake-Server-v5"@[4] == 'a' && "Icelake-Server-v5"@[5] == 'k' && "Icelake-Server-v5"@[6] == 'e' && "Icelake-Server-v5"@[7] == '-' && "Icelake-Server-v5"@[8] == 'S' && "Icelake-Server-v5"@[9] == 'e' && "Icelake-Server-v5"@[10] == 'r' && "Icelake-Server-v5"@[11] == 'v' && "Icelake-Server-v5"@[12] == 'e' && "Icelake-Server-v5"@[13] == 'r' && "Icelake-Server-v5"@[14] == '-' && "Icelake-Server-v5"@[15] == 'v' && "Icelake-Server-v5"@[16] == '5',
    {
        broadcast use vstd::string::group_string_axioms;

        reveal_strlit("EPYC-Milan-v2");
        reveal_strlit("EPYC-Rome");
        reveal_strlit("EPYC-Rome-v2");
        reveal_strlit("EPYC-Rome-v3");
        reveal_strlit("EPYC-Rome-v4");
        reveal_strlit("EPYC-v3");
        reveal_strlit("EPYC-v4");
        reveal_strlit("GraniteRapids");
        reveal_strlit("Haswell");
        reveal_strlit("Haswell-IBRS");
        reveal_strlit("Haswell-noTSX");
        reveal_strlit("Haswell-noTSX-IBRS");
        reveal_strlit("host");
        reveal_strlit("Icelake-Client");
        reveal_strlit("Icelake-Client-noTSX");
        reveal_strlit("Icelake-Server");
        reveal_strlit("Icelake-Server-noTSX");
        reveal_strlit("Icelake-Server-v3");
        reveal_strlit("Icelake-Server-v4");
        reveal_strlit("Icelake-Server-v5");
    }

    /// The spelling of known names, character by character.
    proof fn lemma_name_spelling_2()
        ensures
            "Icelake-Server-v6"@.len() == 17 && "Icelake-Server-v6"@[0] == 'I' && "Icelake-Server-v6"@[1] == 'c' && "Icelake-Server-v6"@[2] == 'e' && "Icelake-Server-v6"@[3] == 'l' && "Icelake-Server-v6"@[4] == 'a' && "Icelake-Server-v6"@[5] == 'k' && "Icelake-Server-v6"@[6] == 'e' && "Icelake-Server-v6"@[7] == '-' && "Icelake-Server-v6"@[8] == 'S' && "Icelake-Server-v6"@[9] == 'e' && "Icelake-Server-v6"@[10] == 'r' && "Icelake-Server-v6"@[11] == 'v' && "Icelake-Server-v6"@[12] == 'e' && "Icelake-Server-v6"@[13] == 'r' && "Icelake-Server-v6"@[14] == '-' && "Icelake-Server-v6"@[15] == 'v' && "Icelake-Server-v6"@[16] == '6',
            "IvyBridge"@.len() == 9 && "IvyBridge"@[0] == 'I' && "IvyBridge"@[1] == 'v' && "IvyBridge"@[2] == 'y' && "IvyBridge"@[3] == 'B' && "IvyBridge"@[4] == 'r' && "IvyBridge"@[5] == 'i' && "IvyBridge"@[6] == 'd' && "IvyBridge"@[7] == 'g' && "IvyBridge"@[8] == 'e',
            "IvyBridge-IBRS"@.len() == 14 && "IvyBridge-IBRS"@[0] == 'I' && "IvyBridge-IBRS"@[1] == 'v' && "IvyBridge-IBRS"@[2] == 'y' && "IvyBridge-IBRS"@[3] == 'B' && "IvyBridge-IBRS"@[4] == 'r' && "IvyBridge-IBRS"@[5] == 'i' && "IvyBridge-IBRS"@[6] == 'd' && "IvyBridge-IBRS"@[7] == 'g' && "IvyBridge-IBRS"@[8] == 'e' && "IvyBridge-IBRS"@[9] == '-' && "IvyBridge-IBRS"@[10] == 'I' && "IvyBridge-IBRS"@[11] == 'B' && "IvyBridge-IBRS"@[12] == 'R' && "IvyBridge-IBRS"@[13] == 'S',
            "KnightsMill"@.len() == 11 && "KnightsMill"@[0] == 'K' && "KnightsMill"@[1] == 'n' && "KnightsMill"@[2] == 'i' && "KnightsMill"@[3] == 'g' && "KnightsMill"@[4] == 'h' && "KnightsMill"@[5] == 't' && "KnightsMill"@[6] == 's' && "KnightsMill"@[7] == 'M' && "KnightsMill"@[8] == 'i' && "KnightsMill"@[9] == 'l' && "KnightsMill"@[10] == 'l',
            "kvm32"@.len() == 5 && "kvm32"@[0] == 'k' && "kvm32"@[1] == 'v' && "kvm32"@[2] == 'm' && "kvm32"@[3] == '3' && "kvm32"@[4] == '2',
            "kvm64"@.len() == 5 && "kvm64"@[0] == 'k' && "kvm64"@[1] == 'v' && "kvm64"@[2] == 'm' && "kvm64"@[3] == '6' && "kvm64"@[4] == '4',
            "max"@.len() == 3 && "max"@[0] == 'm' && "max"@[1] == 'a' && "max"@[2] == 'x',
            "Nehalem"@.len() == 7 && "Nehalem"@[0] == 'N' && "Nehalem"@[1] == 'e' && "Nehalem"@[2] == 'h' && "Nehalem"@[3] == 'a' && "Nehalem"@[4] == 'l' && "Nehalem"@[5] == 'e' && "Nehalem"@[6] == 'm',
            "Nehalem-IBRS"@.len() == 12 && "Nehalem-IBRS"@[0] == 'N' && "Nehalem-IBRS"@[1] == 'e' && "Nehalem-IBRS"@[2] == 'h' && "Nehalem-IBRS"@[3] == 'a' && "Nehalem-IBRS"@[4] == 'l' && "Nehalem-IBRS"@[5] == 'e' && "Nehalem-IBRS"@[6] == 'm' && "Nehalem-IBRS"@[7] == '-' && "Nehalem-IBRS"@[8] == 'I' && "Nehalem-IBRS"@[9] == 'B' && "Nehalem-IBRS"@[10] == 'R' && "Nehalem-IBRS"@[11] == 'S',
            "Opteron_G1"@.len() == 10 && "Opteron_G1"@[0] == 'O' && "Opteron_G1"@[1] == 'p' && "Opteron_G1"@[2] == 't' && "Opteron_G1"@[3] == 'e' && "Opteron_G1"@[4] == 'r' && "Opteron_G1"@[5] == 'o' && "Opteron_G1"@[6] == 'n' && "Opteron_G1"@[7] == '_' && "Opteron_G1"@[8] == 'G' && "Opteron_G1"@[9] == '1',
            "Opteron_G2"@.len() == 10 && "Opteron_G2"@[0] == 'O' && "Opteron_G2"@[1] == 'p' && "Opteron_G2"@[2] == 't' && "Opteron_G2"@[3] == 'e' && "Opteron_G2"@[4] == 'r' && "Opteron_G2"@[5] == 'o' && "Opteron_G2"@[6] == 'n' && "Opteron_G2"@[7] == '_' && "Opteron_G2"@[8] == 'G' && "Opteron_G2"@[9] == '2',
            "Opteron_G3"@.len() == 10 && "Opteron_G3"@[0] == 'O' && "Opteron_G3"@[1] == 'p' && "Opteron_G3"@[2] == 't' && "Opteron_G3"@[3] == 'e' && "Opteron_G3"@[4] == 'r' && "Opteron_G3"@[5] == 'o' && "Opteron_G3"@[6] == 'n' && "Opteron_G3"@[7] == '_' && "Opteron_G3"@[8] == 'G' && "Opteron_G3"@[9] == '3',
            "Opteron_G4"@.len() == 10 && "Opteron_G4"@[0] == 'O' && "Opteron_G4"@[1] == 'p' && "Opteron_G4"@[2] == 't' && "Opteron_G4"@[3] == 'e' && "Opteron_G4"@[4] == 'r' && "Opteron_G4"@[5] == 'o' && "Opteron_G4"@[6] == 'n' && "Opteron_G4"@[7] == '_' && "Opteron_G4"@[8] == 'G' && "Opteron_G4"@[9] == '4',
            "Opteron_G5"@.len() == 10 && "Opteron_G5"@[0] == 'O' && "Opteron_G5"@[1] == 'p' && "Opteron_G5"@[2] == 't' && "Opteron_G5"@[3] == 'e' && "Opteron_G5"@[4] == 'r' && "Opteron_G5"@[5] == 'o' && "Opteron_G5"@[6] == 'n' && "Opteron_G5"@[7] == '_' && "Opteron_G5"@[8] == 'G' && "Opteron_G5"@[9] == '5',
            "Penryn"@.len() == 6 && "Penryn"@[0] == 'P' && "Penryn"@[1] == 'e' && "Penryn"@[2] == 'n' && "Penryn"@[3] == 'r' && "Penryn"@[4] == 'y' && "Penryn"@[5] == 'n',
            "pentium"@.len() == 7 && "pentium"@[0] == 'p' && "pentium"@[1] == 'e' && "pentium"@[2] == 'n' && "pentium"@[3] == 't' && "pentium"@[4] == 'i' && "pentium"@[5] == 'u' && "pentium"@[6] == 'm',
            "pentium2"@.len() == 8 && "pentium2"@[0] == 'p' && "pentium2"@[1] == 'e' && "pentium2"@[2] == 'n' && "pentium2"@[3] == 't' && "pentium2"@[4] == 'i' && "pentium2"@[5] == 'u' && "pentium2"@[6] == 'm' && "pentium2"@[7] == '2',
            "pentium3"@.len() == 8 && "pentium3"@[0] == 'p' && "pentium3"@[1] == 'e' && "pentium3"@[2] == 'n' && "pentium3"@[3] == 't' && "pentium3"@[4] == 'i' && "pentium3"@[5] == 'u' && "pentium3"@[6] == 'm' && "pentium3"@[7] == '3',
            "phenom"@.len() == 6 && "phenom"@[0] == 'p' && "phenom"@[1] == 'h' && "phenom"@[2] == 'e' && "phenom"@[3] == 'n' && "phenom"@[4] == 'o' && "phenom"@[5] == 'm',
            "qemu32"@.len() == 6 && "qemu32"@[0] == 'q' && "qemu32"@[1] == 'e' && "qemu32"@[2] == 'm' && "qemu32"@[3] == 'u' && "qemu32"@[4] == '3' && "qemu32"@[5] == '2',
    {
        broadcast use vstd::string::group_string_axioms;

        reveal_strlit("Icelake-Server-v6");
        reveal_strlit("IvyBridge");
        reveal_strlit("IvyBridge-IBRS");
        reveal_strlit("KnightsMill");
        reveal_strlit("kvm32");
        reveal_strlit("kvm64");
        reveal_strlit("max");
        reveal_strlit("Nehalem");
        reveal_strlit("Nehalem-IBRS");
        reveal_strlit("Opteron_G1");
        reveal_strlit("Opteron_G2");
        reveal_strlit("Opteron_G3");
        reveal_strlit("Opteron_G4");
        reveal_strlit("Opteron_G5");
        reveal_strlit("Penryn");
        reveal_strlit("pentium");
        reveal_strlit("pentium2");
        reveal_strlit("pentium3");
        reveal_strlit("phenom");
        reveal_strlit("qemu32");
    }

    /// The spelling of known names, character by character.
    proof fn lemma_name_spelling_3()
        ensures
            "qemu64"@.len() == 6 && "qemu64"@[0] == 'q' && "qemu64"@[1] == 'e' && "qemu64"@[2] == 'm' && "qemu64"@[3] == 'u' && "qemu64"@[4] == '6' && "qemu64"@[5] == '4',
            "SandyBridge"@.len() == 11 && "SandyBridge"@[0] == 'S' && "SandyBridge"@[1] == 'a' && "SandyBridge"@[2] == 'n' && "SandyBridge"@[3] == 'd' && "SandyBridge"@[4] == 'y' && "SandyBridge"@[5] == 'B' && "SandyBridge"@[6] == 'r' && "SandyBridge"@[7] == 'i' && "SandyBridge"@[8] == 'd' && "SandyBridge"@[9] == 'g' && "SandyBridge"@[10] == 'e',
            "SandyBridge-IBRS"@.len() == 16 && "SandyBridge-IBRS"@[0] == 'S' && "SandyBridge-IBRS"@[1] == 'a' && "SandyBridge-IBRS"@[2] == 'n' && "SandyBridge-IBRS"@[3] == 'd' && "SandyBridge-IBRS"@[4] == 'y' && "SandyBridge-IBRS"@[5] == 'B' && "SandyBridge-IBRS"@[6] == 'r' && "SandyBridge-IBRS"@[7] == 'i' && "SandyBridge-IBRS"@[8] == 'd' && "SandyBridge-IBRS"@[9] == 'g' && "SandyBridge-IBRS"@[10] == 'e' && "SandyBridge-IBRS"@[11] == '-' && "SandyBridge-IBRS"@[12] == 'I' && "SandyBridge-IBRS"@[13] == 'B' && "SandyBridge-IBRS"@[14] == 'R' && "SandyBridge-IBRS"@[15] == 'S',
            "SapphireRapids"@.len() == 14 && "SapphireRapids"@[0] == 'S' && "SapphireRapids"@[1] == 'a' && "SapphireRapids"@[2] == 'p' && "SapphireRapids"@[3] == 'p' && "SapphireRapids"@[4] == 'h' && "SapphireRapids"@[5] == 'i' && "SapphireRapids"@[6] == 'r' && "SapphireRapids"@[7] == 'e' && "SapphireRapids"@[8] == 'R' && "SapphireRapids"@[9] == 'a' && "SapphireRapids"@[10] == 'p' && "SapphireRapids"@[11] == 'i' && "SapphireRapids"@[12] == 'd' && "SapphireRapids"@[13] == 's',
            "SapphireRapids-v2"@.len() == 17 && "SapphireRapids-v2"@[0] == 'S' && "SapphireRapids-v2"@[1] == 'a' && "SapphireRapids-v2"@[2] == 'p' && "SapphireRapids-v2"@[3] == 'p' && "SapphireRapids-v2"@[4] == 'h' && "SapphireRapids-v2"@[5] == 'i' && "SapphireRapids-v2"@[6] == 'r' && "SapphireRapids-v2"@[7] == 'e' && "SapphireRapids-v2"@[8] == 'R' && "SapphireRapids-v2"@[9] == 'a' && "SapphireRapids-v2"@[10] == 'p' && "SapphireRapids-v2"@[11] == 'i' && "SapphireRapids-v2"@[12] == 'd' && "SapphireRapids-v2"@[13] == 's' && "SapphireRapids-v2"@[14] == '-' && "SapphireRapids-v2"@[15] == 'v' && "SapphireRapids-v2"@[16] == '2',
            "Skylake-Client"@.len() == 14 && "Skylake-Client"@[0] == 'S' && "Skylake-Client"@[1] == 'k' && "Skylake-Client"@[2] == 'y' && "Skylake-Client"@[3] == 'l' && "Skylake-Client"@[4] == 'a' && "Skylake-Client"@[5] == 'k' && "Skylake-Client"@[6] == 'e' && "Skylake-Client"@[7] == '-' && "Skylake-Client"@[8] == 'C' && "Skylake-Client"@[9] == 'l' && "Skylake-Client"@[10] == 'i' && "Skylake-Client"@[11] == 'e' && "Skylake-Client"@[12] == 'n' && "Skylake-Client"@[13] == 't',
            "Skylake-Client-IBRS"@.len() == 19 && "Skylake-Client-IBRS"@[0] == 'S' && "Skylake-Client-IBRS"@[1] == 'k' && "Skylake-Client-IBRS"@[2] == 'y' && "Skylake-Client-IBRS"@[3] == 'l' && "Skylake-Client-IBRS"@[4] == 'a' && "Skylake-Client-IBRS"@[5] == 'k' && "Skylake-Client-IBRS"@[6] == 'e' && "Skylake-Client-IBRS"@[7] == '-' && "Skylake-Client-IBRS"@[8] == 'C' && "Skylake-Client-IBRS"@[9] == 'l' && "Skylake-Client-IBRS"@[10] == 'i' && "Skylake-Client-IBRS"@[11] == 'e' && "Skylake-Client-IBRS"@[12] == 'n' && "Skylake-Client-IBRS"@[13] == 't' && "Skylake-Client-IBRS"@[14] == '-' && "Skylake-Client-IBRS"@[15] == 'I' && "Skylake-Client-IBRS"@[16] == 'B' && "Skylake-Client-IBRS"@[17] == 'R' && "Skylake-Client-IBRS"@[18] == 'S',
            "Skylake-Client-noTSX-IBRS"@.len() == 25 && "Skylake-Client-noTSX-IBRS"@[0] == 'S' && "Skylake-Client-noTSX-IBRS"@[1] == 'k' && "Skylake-Client-noTSX-IBRS"@[2] == 'y' && "Skylake-Client-noTSX-IBRS"@[3] == 'l' && "Skylake-Client-noTSX-IBRS"@[4] == 'a' && "Skylake-Client-noTSX-IBRS"@[5] == 'k' && "Skylake-Client-noTSX-IBRS"@[6] == 'e' && "Skylake-Client-noTSX-IBRS"@[7] == '-' && "Skylake-Client-noTSX-IBRS"@[8] == 'C' && "Skylake-Client-noTSX-IBRS"@[9] == 'l' && "Skylake-Client-noTSX-IBRS"@[10] == 'i' && "Skylake-Client-noTSX-IBRS"@[11] == 'e' && "Skylake-Client-noTSX-IBRS"@[12] == 'n' && "Skylake-Client-noTSX-IBRS"@[13] == 't' && "Skylake-Client-noTSX-IBRS"@[14] == '-' && "Skylake-Client-noTSX-IBRS"@[15] == 'n' && "Skylake-Client-noTSX-IBRS"@[16] == 'o' && "Skylake-Client-noTSX-IBRS"@[17] == 'T' && "Skylake-Client-noTSX-IBRS"@[18] == 'S' && "Skylake-Client-noTSX-IBRS"@[19] == 'X' && "Skylake-Client-noTSX-IBRS"@[20] == '-' && "Skylake-Client-noTSX-IBRS"@[21] == 'I' && "Skylake-Client-noTSX-IBRS"@[22] == 'B' && "Skylake-Client-noTSX-IBRS"@[23] == 'R' && "Skylake-Client-noTSX-IBRS"@[24] == 'S',
            "Skylake-Client-v4"@.len() == 17 && "Skylake-Client-v4"@[0] == 'S' && "Skylake-Client-v4"@[1] == 'k' && "Skylake-Client-v4"@[2] == 'y' && "Skylake-Client-v4"@[3] == 'l' && "Skylake-Client-v4"@[4] == 'a' && "Skylake-Client-v4"@[5] == 'k' && "Skylake-Client-v4"@[6] == 'e' && "Skylake-Client-v4"@[7] == '-' && "Skylake-Client-v4"@[8] == 'C' && "Skylake-Client-v4"@[9] == 'l' && "Skylake-Client-v4"@[10] == 'i' && "Skylake-Client-v4"@[11] == 'e' && "Skylake-Client-v4"@[12] == 'n' && "Skylake-Client-v4"@[13] == 't' && "Skylake-Client-v4"@[14] == '-' && "Skylake-Client-v4"@[15] == 'v' && "Skylake-Client-v4"@[16] == '4',
            "Skylake-Server"@.len() == 14 && "Skylake-Server"@[0] == 'S' && "Skylake-Server"@[1] == 'k' && "Skylake-Server"@[2] == 'y' && "Skylake-Server"@[3] == 'l' && "Skylake-Server"@[4] == 'a' && "Skylake-Server"@[5] == 'k' && "Skylake-Server"@[6] == 'e' && "Skylake-Server"@[7] == '-' && "Skylake-Server"@[8] == 'S' && "Skylake-Server"@[9] == 'e' && "Skylake-Server"@[10] == 'r' && "Skylake-Server"@[11] == 'v' && "Skylake-Server"@[12] == 'e' && "Skylake-Server"@[13] == 'r',
            "Skylake-Server-IBRS"@.len() == 19 && "Skylake-Server-IBRS"@[0] == 'S' && "Skylake-Server-IBRS"@[1] == 'k' && "Skylake-Server-IBRS"@[2] == 'y' && "Skylake-Server-IBRS"@[3] == 'l' && "Skylake-Server-IBRS"@[4] == 'a' && "Skylake-Server-IBRS"@[5] == 'k' && "Skylake-Server-IBRS"@[6] == 'e' && "Skylake-Server-IBRS"@[7] == '-' && "Skylake-Server-IBRS"@[8] == 'S' && "Skylake-Server-IBRS"@[9] == 'e' && "Skylake-Server-IBRS"@[10] == 'r' && "Skylake-Server-IBRS"@[11] == 'v' && "Skylake-Server-IBRS"@[12] == 'e' && "Skylake-Server-IBRS"@[13] == 'r' && "Skylake-Server-IBRS"@[14] == '-' && "Skylake-Server-IBRS"@[15] == 'I' && "Skylake-Server-IBRS"@[16] == 'B' && "Skylake-Server-IBRS"@[17] == 'R' && "Skylake-Server-IBRS"@[18] == 'S',
            "Skylake-Server-noTSX-IBRS"@.len() == 25 && "Skylake-Server-noTSX-IBRS"@[0] == 'S' && "Skylake-Server-noTSX-IBRS"@[1] == 'k' && "Skylake-Server-noTSX-IBRS"@[2] == 'y' && "Skylake-Server-noTSX-IBRS"@[3] == 'l' && "Skylake-Server-noTSX-IBRS"@[4] == 'a' && "Skylake-Server-noTSX-IBRS"@[5] == 'k' && "Skylake-Server-noTSX-IBRS"@[6] == 'e' && "Skylake-Server-noTSX-IBRS"@[7] == '-' && "Skylake-Server-noTSX-IBRS"@[8] == 'S' && "Skylake-Server-noTSX-IBRS"@[9] == 'e' && "Skylake-Server-noTSX-IBRS"@[10] == 'r' && "Skylake-Server-noTSX-IBRS"@[11] == 'v' && "Skylake-Server-noTSX-IBRS"@[12] == 'e' && "Skylake-Server-noTSX-IBRS"@[13] == 'r' && "Skylake-Server-noTSX-IBRS"@[14] == '-' && "Skylake-Server-noTSX-IBRS"@[15] == 'n' && "Skylake-Server-noTSX-IBRS"@[16] == 'o' && "Skylake-Server-noTSX-IBRS"@[17] == 'T' && "Skylake-Server-noTSX-IBRS"@[18] == 'S' && "Skylake-Server-noTSX-IBRS"@[19] == 'X' && "Skylake-Server-noTSX-IBRS"@[20] == '-' && "Skylake-Server-noTSX-IBRS"@[21] == 'I' && "Skylake-Server-noTSX-IBRS"@[22] == 'B' && "Skylake-Server-noTSX-IBRS"@[23] == 'R' && "Skylake-Server-noTSX-IBRS"@[24] == 'S',
            "Skylake-Server-v4"@.len() == 17 && "Skylake-Server-v4"@[0] == 'S' && "Skylake-Server-v4"@[1] == 'k' && "Skylake-Server-v4"@[2] == 'y' && "Skylake-Server-v4"@[3] == 'l' && "Skylake-Server-v4"@[4] == 'a' && "Skylake-Server-v4"@[5] == 'k' && "Skylake-Server-v4"@[6] == 'e' && "Skylake-Server-v4"@[7] == '-' && "Skylake-Server-v4"@[8] == 'S' && "Skylake-Server-v4"@[9] == 'e' && "Skylake-Server-v4"@[10] == 'r' && "Skylake-Server-v4"@[11] == 'v' && "Skylake-Server-v4"@[12] == 'e' && "Skylake-Server-v4"@[13] == 'r' && "Skylake-Server-v4"@[14] == '-' && "Skylake-Server-v4"@[15] == 'v' && "Skylake-Server-v4"@[16] == '4',
            "Skylake-Server-v5"@.len() == 17 && "Skylake-Server-v5"@[0] == 'S' && "Skylake-Server-v5"@[1] == 'k' && "Skylake-Server-v5"@[2] == 'y' && "Skylake-Server-v5"@[3] == 'l' && "Skylake-Server-v5"@[4] == 'a' && "Skylake-Server-v5"@[5] == 'k' && "Skylake-Server-v5"@[6] == 'e' && "Skylake-Server-v5"@[7] == '-' && "Skylake-Server-v5"@[8] == 'S' && "Skylake-Server-v5"@[9] == 'e' && "Skylake-Server-v5"@[10] == 'r' && "Skylake-Server-v5"@[11] == 'v' && "Skylake-Server-v5"@[12] == 'e' && "Skylake-Server-v5"@[13] == 'r' && "Skylake-Server-v5"@[14] == '-' && "Skylake-Server-v5"@[15] == 'v' && "Skylake-Server-v5"@[16] == '5',
            "Westmere"@.len() == 8 && "Westmere"@[0] == 'W' && "Westmere"@[1] == 'e' && "Westmere"@[2] == 's' && "Westmere"@[3] == 't' && "Westmere"@[4] == 'm' && "Westmere"@[5] == 'e' && "Westmere"@[6] == 'r' && "Westmere"@[7] == 'e',
            "Westmere-IBRS"@.len() == 13 && "Westmere-IBRS"@[0] == 'W' && "Westmere-IBRS"@[1] == 'e' && "Westmere-IBRS"@[2] == 's' && "Westmere-IBRS"@[3] == 't' && "Westmere-IBRS"@[4] == 'm' && "Westmere-IBRS"@[5] == 'e' && "Westmere-IBRS"@[6] == 'r' && "Westmere-IBRS"@[7] == 'e' && "Westmere-IBRS"@[8] == '-' && "Westmere-IBRS"@[9] == 'I' && "Westmere-IBRS"@[10] == 'B' && "Westmere-IBRS"@[11] == 'R' && "Westmere-IBRS"@[12] == 'S',
    {
        broadcast use vstd::string::group_string_axioms;

        reveal_strlit("qemu64");
        reveal_strlit("SandyBridge");
        reveal_strlit("SandyBridge-IBRS");
        reveal_strlit("SapphireRapids");
        reveal_strlit("SapphireRapids-v2");
        reveal_strlit("Skylake-Client");
        reveal_strlit("Skylake-Client-IBRS");
        reveal_strlit("Skylake-Client-noTSX-IBRS");
        reveal_strlit("Skylake-Client-v4");
        reveal_strlit("Skylake-Server");
        reveal_strlit("Skylake-Server-IBRS");
        reveal_strlit("Skylake-Server-noTSX-IBRS");
        reveal_strlit("Skylake-Server-v4");
        reveal_strlit("Skylake-Server-v5");
        reveal_strlit("Westmere");
        reveal_strlit("Westmere-IBRS");
    }

    proof fn lemma_known_names_0(v: Self)
        requires
            v is I486 || v is Athlon || v is Broadwell || v is BroadwellIbrs || v is BroadwellNoTsx || v is BroadwellNoTsxIbrs || v is CascadelakeServer || v is CascadelakeServerNoTsx || v is CascadelakeServerV2 || v is CascadelakeServerV4 || v is CascadelakeServerV5 || v is Conroe || v is Cooperlake || v is CooperlakeV2 || v is Core2duo || v is Coreduo || v is Epyc || v is EpycGenoa || v is EpycIbpb || v is EpycMilan,
        ensures
            Self::known(v.name()) == Some(v),
    {
        Self::lemma_name_spelling_0();
    }

    proof fn lemma_known_names_1(v: Self)
        requires
            v is EpycMilanV2 || v is EpycRome || v is EpycRomeV2 || v is EpycRomeV3 || v is EpycRomeV4 || v is EpycV3 || v is EpycV4 || v is GraniteRapids || v is Haswell || v is HaswellIbrs || v is HaswellNoTsx || v is HaswellNoTsxIbrs || v is Host || v is IcelakeClient || v is IcelakeClientNoTsx || v is IcelakeServer || v is IcelakeServerNoTsx || v is IcelakeServerV3 || v is IcelakeServerV4 || v is IcelakeServerV5,
        ensures
            Self::known(v.name()) == Some(v),
    {
        Self::lemma_name_spelling_0();
        Self::lemma_name_spelling_1();
    }

    proof fn lemma_known_names_2(v: Self)
        requires
            v is IcelakeServerV6 || v is IvyBridge || v is IvyBridgeIbrs || v is KnightsMill || v is Kvm32 || v is Kvm64 || v is Max || v is Nehalem || v is NehalemIbrs || v is OpteronG1 || v is OpteronG2 || v is OpteronG3 || v is OpteronG4 || v is OpteronG5 || v is Penryn || v is Pentium || v is Pentium2 || v is Pentium3 || v is Phenom || v is Qemu32,
        ensures
            Self::known(v.name()) == Some(v),
    {
        Self::lemma_name_spelling_0();
        Self::lemma_name_spelling_1();
        Self::lemma_name_spelling_2();
    }

    proof fn lemma_known_names_3(v: Self)
        requires
            v is Qemu64 || v is SandyBridge || v is SandyBridgeIbrs || v is SapphireRapids || v is SapphireRapidsV2 || v is SkylakeClient || v is SkylakeClientIbrs || v is SkylakeClientNoTsxIbrs || v is SkylakeClientV4 || v is SkylakeServer || v is SkylakeServerIbrs || v is SkylakeServerNoTsxIbrs || v is SkylakeServerV4 || v is SkylakeServerV5 || v is Westmere || v is WestmereIbrs,
        ensures
            Self::known(v.name()) == Some(v),
    {
        Self::lemma_name_spelling_0();
        Self::lemma_name_spelling_1();
        Self::lemma_name_spelling_2();
        Self::lemma_name_spelling_3();
    }

}

/// Object.
#[derive(Debug)]
pub struct UpdateQemuConfigEfidisk0 {
    pub efitype: Option<QemuConfigEfidisk0Efitype>,

    /// The drive's backing volume.
    pub file: String,

    pub format: Option<PveQmIdeFormat>,

    /// Create a new disk, importing from this source (volume ID or absolute
    /// path). When an absolute path is specified, it's up to you to ensure that
    /// the source is not actively used by another process during the import!
    pub import_from: Option<String>,

    /// Use am EFI vars template with distribution-specific and Microsoft
    /// Standard keys enrolled, if used with 'efitype=4m'. Note that this will
    /// enable Secure Boot by default, though it can still be turned off from
    /// within the VM.
    pub pre_enrolled_keys: Option<bool>,

    /// Disk size. This is purely informational and has no effect.
    pub size: Option<String>,
}

/// Object.
#[derive(Debug)]
pub struct UpdateQemuConfigTpmstate0 {
    /// The drive's backing volume.
    pub file: String,

    /// Create a new disk, importing from this source (volume ID or absolute
    /// path). When an absolute path is specified, it's up to you to ensure that
    /// the source is not actively used by another process during the import!
    pub import_from: Option<String>,

    /// Disk size. This is purely informational and has no effect.
    pub size: Option<String>,

    pub version: Option<QemuConfigTpmstate0Version>,
}

} // verus!
