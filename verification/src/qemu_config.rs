//! Value types of virtual machine configuration properties.
use vstd::prelude::*;
use vstd::std_specs::cmp::PartialEqSpecImpl;
use vstd::string::*;

use crate::text::str_eq;
use crate::qemu_props::PveQmIdeFormat;

verus! {

/// Object.
#[derive(Debug)]
pub struct QemuConfigAgent {
    /// Enable/disable communication with a QEMU Guest Agent (QGA) running in
    /// the VM.
    pub enabled: bool,

    /// Freeze/thaw guest filesystems on backup for consistency.
    pub freeze_fs_on_backup: Option<bool>,

    /// Run fstrim after moving a disk or migrating the VM.
    pub fstrim_cloned_disks: Option<bool>,

    pub ty: Option<QemuConfigAgentType>,
}

/// Select the agent type
#[derive(Clone, Debug)]
pub enum QemuConfigAgentType {
    /// virtio.
    Virtio,
    /// isa.
    Isa,
    /// Unknown variants for forward compatibility.
    UnknownEnumValue(String),
}

impl PartialEq for QemuConfigAgentType {
    fn eq(&self, other: &Self) -> (r: bool) {
        match (self, other) {
            (QemuConfigAgentType::Virtio, QemuConfigAgentType::Virtio) => true,
            (QemuConfigAgentType::Isa, QemuConfigAgentType::Isa) => true,
            (QemuConfigAgentType::UnknownEnumValue(a), QemuConfigAgentType::UnknownEnumValue(b)) => *a == *b,
            _ => false,
        }
    }
}

impl PartialEqSpecImpl for QemuConfigAgentType {
    open spec fn obeys_eq_spec() -> bool {
        true
    }

    open spec fn eq_spec(&self, other: &Self) -> bool {
        match (self, other) {
            (QemuConfigAgentType::UnknownEnumValue(a), QemuConfigAgentType::UnknownEnumValue(b)) => a@ == b@,
            _ => *self == *other,
        }
    }
}

impl Default for QemuConfigAgentType {
    fn default() -> (r: Self)
        ensures
            r == QemuConfigAgentType::Virtio,
    {
        QemuConfigAgentType::Virtio
    }
}

impl std::str::FromStr for QemuConfigAgentType {
    type Err = core::convert::Infallible;

    fn from_str(s: &str) -> (r: Result<Self, Self::Err>)
        ensures
            r matches Ok(v) && Self::parses_to(s@, v),
    {
        Ok(QemuConfigAgentType::from_name(s))
    }
}

impl QemuConfigAgentType {
    /// The name under which the API writes this value.
    pub open spec fn name(self) -> Seq<char> {
        match self {
            QemuConfigAgentType::Virtio => "virtio"@,
            QemuConfigAgentType::Isa => "isa"@,
            QemuConfigAgentType::UnknownEnumValue(s) => s@,
        }
    }

    /// The known value that the API name `s` stands for, if any.
    pub open spec fn known(s: Seq<char>) -> Option<Self> {
        if s == "virtio"@ {
            Some(QemuConfigAgentType::Virtio)
        }         else if s == "isa"@ {
            Some(QemuConfigAgentType::Isa)
        } else {
            None
        }
    }

    /// `v` is the value that reading the API name `s` gives.
    pub open spec fn parses_to(s: Seq<char>, v: Self) -> bool {
        match Self::known(s) {
            Some(k) => v == k,
            None => v matches QemuConfigAgentType::UnknownEnumValue(t) && t@ == s,
        }
    }

    /// The API name of this value.
    pub fn to_string(&self) -> (r: String)
        ensures
            r@ == self.name(),
    {
        match self {
            QemuConfigAgentType::Virtio => String::from_str("virtio"),
            QemuConfigAgentType::Isa => String::from_str("isa"),
            QemuConfigAgentType::UnknownEnumValue(s) => s.clone(),
        }
    }

    /// Reads an API name; a name that is not known is kept as an unknown value.
    pub fn from_name(s: &str) -> (r: Self)
        ensures
            Self::parses_to(s@, r),
    {
        if str_eq(s, "virtio") {
            QemuConfigAgentType::Virtio
        }         else if str_eq(s, "isa") {
            QemuConfigAgentType::Isa
        } else {
            QemuConfigAgentType::UnknownEnumValue(String::from_str(s))
        }
    }

    /// Each known value goes with the name the API uses for it: `virtio` for `Virtio`, `isa` for `Isa`.
    /// `to_string` writes that name and `from_name` reads it as that value.
    pub proof fn lemma_api_names()
        ensures
            QemuConfigAgentType::Virtio.name() == "virtio"@,
            Self::parses_to("virtio"@, QemuConfigAgentType::Virtio),
            QemuConfigAgentType::Isa.name() == "isa"@,
            Self::parses_to("isa"@, QemuConfigAgentType::Isa),
    {
        Self::lemma_to_string_from_name(QemuConfigAgentType::Virtio);
        Self::lemma_to_string_from_name(QemuConfigAgentType::Isa);
    }

    /// Writing out a value that was read gives back the name that was read.
    pub proof fn lemma_from_name_to_string(s: Seq<char>, v: Self)
        requires
            Self::parses_to(s, v),
        ensures
            v.name() == s,
    {
    }

    /// Reading the name of a value gives back the value, unless the value is an
    /// unknown one that carries the name of a known one.
    pub proof fn lemma_to_string_from_name(v: Self)
        requires
            v is UnknownEnumValue ==> Self::known(v.name()) is None,
        ensures
            Self::parses_to(v.name(), v),
    {
        if !(v is UnknownEnumValue) {
            Self::lemma_known_names(v);
        }
    }

    /// The spelling of known names, character by character.
    proof fn lemma_name_spelling()
        ensures
            "virtio"@.len() == 6 && "virtio"@[0] == 'v' && "virtio"@[1] == 'i' && "virtio"@[2] == 'r' && "virtio"@[3] == 't' && "virtio"@[4] == 'i' && "virtio"@[5] == 'o',
            "isa"@.len() == 3 && "isa"@[0] == 'i' && "isa"@[1] == 's' && "isa"@[2] == 'a',
    {
        broadcast use vstd::string::group_string_axioms;

        reveal_strlit("virtio");
        reveal_strlit("isa");
    }

    proof fn lemma_known_names(v: Self)
        requires
            !(v is UnknownEnumValue),
        ensures
            Self::known(v.name()) == Some(v),
    {
        Self::lemma_name_spelling();
    }

}

/// Virtual processor architecture. Defaults to the host.
#[derive(Clone, Debug)]
pub enum QemuConfigArch {
    /// x86_64.
    X8664,
    /// aarch64.
    Aarch64,
    /// Unknown variants for forward compatibility.
    UnknownEnumValue(String),
}

impl PartialEq for QemuConfigArch {
    fn eq(&self, other: &Self) -> (r: bool) {
        match (self, other) {
            (QemuConfigArch::X8664, QemuConfigArch::X8664) => true,
            (QemuConfigArch::Aarch64, QemuConfigArch::Aarch64) => true,
            (QemuConfigArch::UnknownEnumValue(a), QemuConfigArch::UnknownEnumValue(b)) => *a == *b,
            _ => false,
        }
    }
}

impl PartialEqSpecImpl for QemuConfigArch {
    open spec fn obeys_eq_spec() -> bool {
        true
    }

    open spec fn eq_spec(&self, other: &Self) -> bool {
        match (self, other) {
            (QemuConfigArch::UnknownEnumValue(a), QemuConfigArch::UnknownEnumValue(b)) => a@ == b@,
            _ => *self == *other,
        }
    }
}

impl std::str::FromStr for QemuConfigArch {
    type Err = core::convert::Infallible;

    fn from_str(s: &str) -> (r: Result<Self, Self::Err>)
        ensures
            r matches Ok(v) && Self::parses_to(s@, v),
    {
        Ok(QemuConfigArch::from_name(s))
    }
}

impl QemuConfigArch {
    /// The name under which the API writes this value.
    pub open spec fn name(self) -> Seq<char> {
        match self {
            QemuConfigArch::X8664 => "x86_64"@,
            QemuConfigArch::Aarch64 => "aarch64"@,
            QemuConfigArch::UnknownEnumValue(s) => s@,
        }
    }

    /// The known value that the API name `s` stands for, if any.
    pub open spec fn known(s: Seq<char>) -> Option<Self> {
        if s == "x86_64"@ {
            Some(QemuConfigArch::X8664)
        }         else if s == "aarch64"@ {
            Some(QemuConfigArch::Aarch64)
        } else {
            None
        }
    }

    /// `v` is the value that reading the API name `s` gives.
    pub open spec fn parses_to(s: Seq<char>, v: Self) -> bool {
        match Self::known(s) {
            Some(k) => v == k,
            None => v matches QemuConfigArch::UnknownEnumValue(t) && t@ == s,
        }
    }

    /// The API name of this value.
    pub fn to_string(&self) -> (r: String)
        ensures
            r@ == self.name(),
    {
        match self {
            QemuConfigArch::X8664 => String::from_str("x86_64"),
            QemuConfigArch::Aarch64 => String::from_str("aarch64"),
            QemuConfigArch::UnknownEnumValue(s) => s.clone(),
        }
    }

    /// Reads an API name; a name that is not known is kept as an unknown value.
    pub fn from_name(s: &str) -> (r: Self)
        ensures
            Self::parses_to(s@, r),
    {
        if str_eq(s, "x86_64") {
            QemuConfigArch::X8664
        }         else if str_eq(s, "aarch64") {
            QemuConfigArch::Aarch64
        } else {
            QemuConfigArch::UnknownEnumValue(String::from_str(s))
        }
    }

    /// Each known value goes with the name the API uses for it: `x86_64` for `X8664`, `aarch64` for `Aarch64`.
    /// `to_string` writes that name and `from_name` reads it as that value.
    pub proof fn lemma_api_names()
        ensures
            QemuConfigArch::X8664.name() == "x86_64"@,
            Self::parses_to("x86_64"@, QemuConfigArch::X8664),
            QemuConfigArch::Aarch64.name() == "aarch64"@,
            Self::parses_to("aarch64"@, QemuConfigArch::Aarch64),
    {
        Self::lemma_to_string_from_name(QemuConfigArch::X8664);
        Self::lemma_to_string_from_name(QemuConfigArch::Aarch64);
    }

    /// Writing out a value that was read gives back the name that was read.
    pub proof fn lemma_from_name_to_string(s: Seq<char>, v: Self)
        requires
            Self::parses_to(s, v),
        ensures
            v.name() == s,
    {
    }

    /// Reading the name of a value gives back the value, unless the value is an
    /// unknown one that carries the name of a known one.
    pub proof fn lemma_to_string_from_name(v: Self)
        requires
            v is UnknownEnumValue ==> Self::known(v.name()) is None,
        ensures
            Self::parses_to(v.name(), v),
    {
        if !(v is UnknownEnumValue) {
            Self::lemma_known_names(v);
        }
    }

    /// The spelling of known names, character by character.
    proof fn lemma_name_spelling()
        ensures
            "x86_64"@.len() == 6 && "x86_64"@[0] == 'x' && "x86_64"@[1] == '8' && "x86_64"@[2] == '6' && "x86_64"@[3] == '_' && "x86_64"@[4] == '6' && "x86_64"@[5] == '4',
            "aarch64"@.len() == 7 && "aarch64"@[0] == 'a' && "aarch64"@[1] == 'a' && "aarch64"@[2] == 'r' && "aarch64"@[3] == 'c' && "aarch64"@[4] == 'h' && "aarch64"@[5] == '6' && "aarch64"@[6] == '4',
    {
        broadcast use vstd::string::group_string_axioms;

        reveal_strlit("x86_64");
        reveal_strlit("aarch64");
    }

    proof fn lemma_known_names(v: Self)
        requires
            !(v is UnknownEnumValue),
        ensures
            Self::known(v.name()) == Some(v),
    {
        Self::lemma_name_spelling();
    }

}

/// Object.
#[derive(Debug)]
pub struct QemuConfigAudio0 {
    pub device: QemuConfigAudio0Device,

    pub driver: Option<QemuConfigAudio0Driver>,
}

/// Configure an audio device.
#[derive(Clone, Debug)]
pub enum QemuConfigAudio0Device {
    /// ich9-intel-hda.
    Ich9IntelHda,
    /// intel-hda.
    IntelHda,
    /// AC97.
    Ac97,
    /// Unknown variants for forward compatibility.
    UnknownEnumValue(String),
}

impl PartialEq for QemuConfigAudio0Device {
    fn eq(&self, other: &Self) -> (r: bool) {
        match (self, other) {
            (QemuConfigAudio0Device::Ich9IntelHda, QemuConfigAudio0Device::Ich9IntelHda) => true,
            (QemuConfigAudio0Device::IntelHda, QemuConfigAudio0Device::IntelHda) => true,
            (QemuConfigAudio0Device::Ac97, QemuConfigAudio0Device::Ac97) => true,
            (QemuConfigAudio0Device::UnknownEnumValue(a), QemuConfigAudio0Device::UnknownEnumValue(b)) => *a == *b,
            _ => false,
        }
    }
}

impl PartialEqSpecImpl for QemuConfigAudio0Device {
    open spec fn obeys_eq_spec() -> bool {
        true
    }

    open spec fn eq_spec(&self, other: &Self) -> bool {
        match (self, other) {
            (QemuConfigAudio0Device::UnknownEnumValue(a), QemuConfigAudio0Device::UnknownEnumValue(b)) => a@ == b@,
            _ => *self == *other,
        }
    }
}

impl std::str::FromStr for QemuConfigAudio0Device {
    type Err = core::convert::Infallible;

    fn from_str(s: &str) -> (r: Result<Self, Self::Err>)
        ensures
            r matches Ok(v) && Self::parses_to(s@, v),
    {
        Ok(QemuConfigAudio0Device::from_name(s))
    }
}

impl QemuConfigAudio0Device {
    /// The name under which the API writes this value.
    pub open spec fn name(self) -> Seq<char> {
        match self {
            QemuConfigAudio0Device::Ich9IntelHda => "ich9-intel-hda"@,
            QemuConfigAudio0Device::IntelHda => "intel-hda"@,
            QemuConfigAudio0Device::Ac97 => "AC97"@,
            QemuConfigAudio0Device::UnknownEnumValue(s) => s@,
        }
    }

    /// The known value that the API name `s` stands for, if any.
    pub open spec fn known(s: Seq<char>) -> Option<Self> {
        if s == "ich9-intel-hda"@ {
            Some(QemuConfigAudio0Device::Ich9IntelHda)
        }         else if s == "intel-hda"@ {
            Some(QemuConfigAudio0Device::IntelHda)
        }         else if s == "AC97"@ {
            Some(QemuConfigAudio0Device::Ac97)
        } else {
            None
        }
    }

    /// `v` is the value that reading the API name `s` gives.
    pub open spec fn parses_to(s: Seq<char>, v: Self) -> bool {
        match Self::known(s) {
            Some(k) => v == k,
            None => v matches QemuConfigAudio0Device::UnknownEnumValue(t) && t@ == s,
        }
    }

    /// The API name of this value.
    pub fn to_string(&self) -> (r: String)
        ensures
            r@ == self.name(),
    {
        match self {
            QemuConfigAudio0Device::Ich9IntelHda => String::from_str("ich9-intel-hda"),
            QemuConfigAudio0Device::IntelHda => String::from_str("intel-hda"),
            QemuConfigAudio0Device::Ac97 => String::from_str("AC97"),
            QemuConfigAudio0Device::UnknownEnumValue(s) => s.clone(),
        }
    }

    /// Reads an API name; a name that is not known is kept as an unknown value.
    pub fn from_name(s: &str) -> (r: Self)
        ensures
            Self::parses_to(s@, r),
    {
        if str_eq(s, "ich9-intel-hda") {
            QemuConfigAudio0Device::Ich9IntelHda
        }         else if str_eq(s, "intel-hda") {
            QemuConfigAudio0Device::IntelHda
        }         else if str_eq(s, "AC97") {
            QemuConfigAudio0Device::Ac97
        } else {
            QemuConfigAudio0Device::UnknownEnumValue(String::from_str(s))
        }
    }

    /// Each known value goes with the name the API uses for it: `ich9-intel-hda` for `Ich9IntelHda`, `intel-hda` for `IntelHda`, `AC97` for `Ac97`.
    /// `to_string` writes that name and `from_name` reads it as that value.
    pub proof fn lemma_api_names()
        ensures
            QemuConfigAudio0Device::Ich9IntelHda.name() == "ich9-intel-hda"@,
            Self::parses_to("ich9-intel-hda"@, QemuConfigAudio0Device::Ich9IntelHda),
            QemuConfigAudio0Device::IntelHda.name() == "intel-hda"@,
            Self::parses_to("intel-hda"@, QemuConfigAudio0Device::IntelHda),
            QemuConfigAudio0Device::Ac97.name() == "AC97"@,
            Self::parses_to("AC97"@, QemuConfigAudio0Device::Ac97),
    {
        Self::lemma_to_string_from_name(QemuConfigAudio0Device::Ich9IntelHda);
        Self::lemma_to_string_from_name(QemuConfigAudio0Device::IntelHda);
        Self::lemma_to_string_from_name(QemuConfigAudio0Device::Ac97);
    }

    /// Writing out a value that was read gives back the name that was read.
    pub proof fn lemma_from_name_to_string(s: Seq<char>, v: Self)
        requires
            Self::parses_to(s, v),
        ensures
            v.name() == s,
    {
    }

    /// Reading the name of a value gives back the value, unless the value is an
    /// unknown one that carries the name of a known one.
    pub proof fn lemma_to_string_from_name(v: Self)
        requires
            v is UnknownEnumValue ==> Self::known(v.name()) is None,
        ensures
            Self::parses_to(v.name(), v),
    {
        if !(v is UnknownEnumValue) {
            Self::lemma_known_names(v);
        }
    }

    /// The spelling of known names, character by character.
    proof fn lemma_name_spelling()
        ensures
            "ich9-intel-hda"@.len() == 14 && "ich9-intel-hda"@[0] == 'i' && "ich9-intel-hda"@[1] == 'c' && "ich9-intel-hda"@[2] == 'h' && "ich9-intel-hda"@[3] == '9' && "ich9-intel-hda"@[4] == '-' && "ich9-intel-hda"@[5] == 'i' && "ich9-intel-hda"@[6] == 'n' && "ich9-intel-hda"@[7] == 't' && "ich9-intel-hda"@[8] == 'e' && "ich9-intel-hda"@[9] == 'l' && "ich9-intel-hda"@[10] == '-' && "ich9-intel-hda"@[11] == 'h' && "ich9-intel-hda"@[12] == 'd' && "ich9-intel-hda"@[13] == 'a',
            "intel-hda"@.len() == 9 && "intel-hda"@[0] == 'i' && "intel-hda"@[1] == 'n' && "intel-hda"@[2] == 't' && "intel-hda"@[3] == 'e' && "intel-hda"@[4] == 'l' && "intel-hda"@[5] == '-' && "intel-hda"@[6] == 'h' && "intel-hda"@[7] == 'd' && "intel-hda"@[8] == 'a',
            "AC97"@.len() == 4 && "AC97"@[0] == 'A' && "AC97"@[1] == 'C' && "AC97"@[2] == '9' && "AC97"@[3] == '7',
    {
        broadcast use vstd::string::group_string_axioms;

        reveal_strlit("ich9-intel-hda");
        reveal_strlit("intel-hda");
        reveal_strlit("AC97");
    }

    proof fn lemma_known_names(v: Self)
        requires
            !(v is UnknownEnumValue),
        ensures
            Self::known(v.name()) == Some(v),
    {
        Self::lemma_name_spelling();
    }

}

/// Driver backend for the audio device.
#[derive(Clone, Debug)]
pub enum QemuConfigAudio0Driver {
    /// spice.
    Spice,
    /// none.
    NoneValue,
    /// Unknown variants for forward compatibility.
    UnknownEnumValue(String),
}

impl PartialEq for QemuConfigAudio0Driver {
    fn eq(&self, other: &Self) -> (r: bool) {
        match (self, other) {
            (QemuConfigAudio0Driver::Spice, QemuConfigAudio0Driver::Spice) => true,
            (QemuConfigAudio0Driver::NoneValue, QemuConfigAudio0Driver::NoneValue) => true,
            (QemuConfigAudio0Driver::UnknownEnumValue(a), QemuConfigAudio0Driver::UnknownEnumValue(b)) => *a == *b,
            _ => false,
        }
    }
}

impl PartialEqSpecImpl for QemuConfigAudio0Driver {
    open spec fn obeys_eq_spec() -> bool {
        true
    }

    open spec fn eq_spec(&self, other: &Self) -> bool {
        match (self, other) {
            (QemuConfigAudio0Driver::UnknownEnumValue(a), QemuConfigAudio0Driver::UnknownEnumValue(b)) => a@ == b@,
            _ => *self == *other,
        }
    }
}

impl Default for QemuConfigAudio0Driver {
    fn default() -> (r: Self)
        ensures
            r == QemuConfigAudio0Driver::Spice,
    {
        QemuConfigAudio0Driver::Spice
    }
}

impl std::str::FromStr for QemuConfigAudio0Driver {
    type Err = core::convert::Infallible;

    fn from_str(s: &str) -> (r: Result<Self, Self::Err>)
        ensures
            r matches Ok(v) && Self::parses_to(s@, v),
    {
        Ok(QemuConfigAudio0Driver::from_name(s))
    }
}

impl QemuConfigAudio0Driver {
    /// The name under which the API writes this value.
    pub open spec fn name(self) -> Seq<char> {
        match self {
            QemuConfigAudio0Driver::Spice => "spice"@,
            QemuConfigAudio0Driver::NoneValue => "none"@,
            QemuConfigAudio0Driver::UnknownEnumValue(s) => s@,
        }
    }

    /// The known value that the API name `s` stands for, if any.
    pub open spec fn known(s: Seq<char>) -> Option<Self> {
        if s == "spice"@ {
            Some(QemuConfigAudio0Driver::Spice)
        }         else if s == "none"@ {
            Some(QemuConfigAudio0Driver::NoneValue)
        } else {
            None
        }
    }

    /// `v` is the value that reading the API name `s` gives.
    pub open spec fn parses_to(s: Seq<char>, v: Self) -> bool {
        match Self::known(s) {
            Some(k) => v == k,
            None => v matches QemuConfigAudio0Driver::UnknownEnumValue(t) && t@ == s,
        }
    }

    /// The API name of this value.
    pub fn to_string(&self) -> (r: String)
        ensures
            r@ == self.name(),
    {
        match self {
            QemuConfigAudio0Driver::Spice => String::from_str("spice"),
            QemuConfigAudio0Driver::NoneValue => String::from_str("none"),
            QemuConfigAudio0Driver::UnknownEnumValue(s) => s.clone(),
        }
    }

    /// Reads an API name; a name that is not known is kept as an unknown value.
    pub fn from_name(s: &str) -> (r: Self)
        ensures
            Self::parses_to(s@, r),
    {
        if str_eq(s, "spice") {
            QemuConfigAudio0Driver::Spice
        }         else if str_eq(s, "none") {
            QemuConfigAudio0Driver::NoneValue
        } else {
            QemuConfigAudio0Driver::UnknownEnumValue(String::from_str(s))
        }
    }

    /// Each known value goes with the name the API uses for it: `spice` for `Spice`, `none` for `NoneValue`.
    /// `to_string` writes that name and `from_name` reads it as that value.
    pub proof fn lemma_api_names()
        ensures
            QemuConfigAudio0Driver::Spice.name() == "spice"@,
            Self::parses_to("spice"@, QemuConfigAudio0Driver::Spice),
            QemuConfigAudio0Driver::NoneValue.name() == "none"@,
            Self::parses_to("none"@, QemuConfigAudio0Driver::NoneValue),
    {
        Self::lemma_to_string_from_name(QemuConfigAudio0Driver::Spice);
        Self::lemma_to_string_from_name(QemuConfigAudio0Driver::NoneValue);
    }

    /// Writing out a value that was read gives back the name that was read.
    pub proof fn lemma_from_name_to_string(s: Seq<char>, v: Self)
        requires
            Self::parses_to(s, v),
        ensures
            v.name() == s,
    {
    }

    /// Reading the name of a value gives back the value, unless the value is an
    /// unknown one that carries the name of a known one.
    pub proof fn lemma_to_string_from_name(v: Self)
        requires
            v is UnknownEnumValue ==> Self::known(v.name()) is None,
        ensures
            Self::parses_to(v.name(), v),
    {
        if !(v is UnknownEnumValue) {
            Self::lemma_known_names(v);
        }
    }

    /// The spelling of known names, character by character.
    proof fn lemma_name_spelling()
        ensures
            "spice"@.len() == 5 && "spice"@[0] == 's' && "spice"@[1] == 'p' && "spice"@[2] == 'i' && "spice"@[3] == 'c' && "spice"@[4] == 'e',
            "none"@.len() == 4 && "none"@[0] == 'n' && "none"@[1] == 'o' && "none"@[2] == 'n' && "none"@[3] == 'e',
    {
        broadcast use vstd::string::group_string_axioms;

        reveal_strlit("spice");
        reveal_strlit("none");
    }

    proof fn lemma_known_names(v: Self)
        requires
            !(v is UnknownEnumValue),
        ensures
            Self::known(v.name()) == Some(v),
    {
        Self::lemma_name_spelling();
    }

}

/// Select BIOS implementation.
#[derive(Clone, Debug)]
pub enum QemuConfigBios {
    /// seabios.
    Seabios,
    /// ovmf.
    Ovmf,
    /// Unknown variants for forward compatibility.
    UnknownEnumValue(String),
}

impl PartialEq for QemuConfigBios {
    fn eq(&self, other: &Self) -> (r: bool) {
        match (self, other) {
            (QemuConfigBios::Seabios, QemuConfigBios::Seabios) => true,
            (QemuConfigBios::Ovmf, QemuConfigBios::Ovmf) => true,
            (QemuConfigBios::UnknownEnumValue(a), QemuConfigBios::UnknownEnumValue(b)) => *a == *b,
            _ => false,
        }
    }
}

impl PartialEqSpecImpl for QemuConfigBios {
    open spec fn obeys_eq_spec() -> bool {
        true
    }

    open spec fn eq_spec(&self, other: &Self) -> bool {
        match (self, other) {
            (QemuConfigBios::UnknownEnumValue(a), QemuConfigBios::UnknownEnumValue(b)) => a@ == b@,
            _ => *self == *other,
        }
    }
}

impl Default for QemuConfigBios {
    fn default() -> (r: Self)
        ensures
            r == QemuConfigBios::Seabios,
    {
        QemuConfigBios::Seabios
    }
}

impl std::str::FromStr for QemuConfigBios {
    type Err = core::convert::Infallible;

    fn from_str(s: &str) -> (r: Result<Self, Self::Err>)
        ensures
            r matches Ok(v) && Self::parses_to(s@, v),
    {
        Ok(QemuConfigBios::from_name(s))
    }
}

impl QemuConfigBios {
    /// The name under which the API writes this value.
    pub open spec fn name(self) -> Seq<char> {
        match self {
            QemuConfigBios::Seabios => "seabios"@,
            QemuConfigBios::Ovmf => "ovmf"@,
            QemuConfigBios::UnknownEnumValue(s) => s@,
        }
    }

    /// The known value that the API name `s` stands for, if any.
    pub open spec fn known(s: Seq<char>) -> Option<Self> {
        if s == "seabios"@ {
            Some(QemuConfigBios::Seabios)
        }         else if s == "ovmf"@ {
            Some(QemuConfigBios::Ovmf)
        } else {
            None
        }
    }

    /// `v` is the value that reading the API name `s` gives.
    pub open spec fn parses_to(s: Seq<char>, v: Self) -> bool {
        match Self::known(s) {
            Some(k) => v == k,
            None => v matches QemuConfigBios::UnknownEnumValue(t) && t@ == s,
        }
    }

    /// The API name of this value.
    pub fn to_string(&self) -> (r: String)
        ensures
            r@ == self.name(),
    {
        match self {
            QemuConfigBios::Seabios => String::from_str("seabios"),
            QemuConfigBios::Ovmf => String::from_str("ovmf"),
            QemuConfigBios::UnknownEnumValue(s) => s.clone(),
        }
    }

    /// Reads an API name; a name that is not known is kept as an unknown value.
    pub fn from_name(s: &str) -> (r: Self)
        ensures
            Self::parses_to(s@, r),
    {
        if str_eq(s, "seabios") {
            QemuConfigBios::Seabios
        }         else if str_eq(s, "ovmf") {
            QemuConfigBios::Ovmf
        } else {
            QemuConfigBios::UnknownEnumValue(String::from_str(s))
        }
    }

    /// Each known value goes with the name the API uses for it: `seabios` for `Seabios`, `ovmf` for `Ovmf`.
    /// `to_string` writes that name and `from_name` reads it as that value.
    pub proof fn lemma_api_names()
        ensures
            QemuConfigBios::Seabios.name() == "seabios"@,
            Self::parses_to("seabios"@, QemuConfigBios::Seabios),
            QemuConfigBios::Ovmf.name() == "ovmf"@,
            Self::parses_to("ovmf"@, QemuConfigBios::Ovmf),
    {
        Self::lemma_to_string_from_name(QemuConfigBios::Seabios);
        Self::lemma_to_string_from_name(QemuConfigBios::Ovmf);
    }

    /// Writing out a value that was read gives back the name that was read.
    pub proof fn lemma_from_name_to_string(s: Seq<char>, v: Self)
        requires
            Self::parses_to(s, v),
        ensures
            v.name() == s,
    {
    }

    /// Reading the name of a value gives back the value, unless the value is an
    /// unknown one that carries the name of a known one.
    pub proof fn lemma_to_string_from_name(v: Self)
        requires
            v is UnknownEnumValue ==> Self::known(v.name()) is None,
        ensures
            Self::parses_to(v.name(), v),
    {
        if !(v is UnknownEnumValue) {
            Self::lemma_known_names(v);
        }
    }

    /// The spelling of known names, character by character.
    proof fn lemma_name_spelling()
        ensures
            "seabios"@.len() == 7 && "seabios"@[0] == 's' && "seabios"@[1] == 'e' && "seabios"@[2] == 'a' && "seabios"@[3] == 'b' && "seabios"@[4] == 'i' && "seabios"@[5] == 'o' && "seabios"@[6] == 's',
            "ovmf"@.len() == 4 && "ovmf"@[0] == 'o' && "ovmf"@[1] == 'v' && "ovmf"@[2] == 'm' && "ovmf"@[3] == 'f',
    {
        broadcast use vstd::string::group_string_axioms;

        reveal_strlit("seabios");
        reveal_strlit("ovmf");
    }

    proof fn lemma_known_names(v: Self)
        requires
            !(v is UnknownEnumValue),
        ensures
            Self::known(v.name()) == Some(v),
    {
        Self::lemma_name_spelling();
    }

}

/// Specifies the cloud-init configuration format. The default depends on the
/// configured operating system type (`ostype`. We use the `nocloud` format for
/// Linux, and `configdrive2` for windows.
#[derive(Clone, Debug)]
pub enum QemuConfigCitype {
    /// configdrive2.
    Configdrive2,
    /// nocloud.
    Nocloud,
    /// opennebula.
    Opennebula,
    /// Unknown variants for forward compatibility.
    UnknownEnumValue(String),
}

impl PartialEq for QemuConfigCitype {
    fn eq(&self, other: &Self) -> (r: bool) {
        match (self, other) {
            (QemuConfigCitype::Configdrive2, QemuConfigCitype::Configdrive2) => true,
            (QemuConfigCitype::Nocloud, QemuConfigCitype::Nocloud) => true,
            (QemuConfigCitype::Opennebula, QemuConfigCitype::Opennebula) => true,
            (QemuConfigCitype::UnknownEnumValue(a), QemuConfigCitype::UnknownEnumValue(b)) => *a == *b,
            _ => false,
        }
    }
}

impl PartialEqSpecImpl for QemuConfigCitype {
    open spec fn obeys_eq_spec() -> bool {
        true
    }

    open spec fn eq_spec(&self, other: &Self) -> bool {
        match (self, other) {
            (QemuConfigCitype::UnknownEnumValue(a), QemuConfigCitype::UnknownEnumValue(b)) => a@ == b@,
            _ => *self == *other,
        }
    }
}

impl std::str::FromStr for QemuConfigCitype {
    type Err = core::convert::Infallible;

    fn from_str(s: &str) -> (r: Result<Self, Self::Err>)
        ensures
            r matches Ok(v) && Self::parses_to(s@, v),
    {
        Ok(QemuConfigCitype::from_name(s))
    }
}

impl QemuConfigCitype {
    /// The name under which the API writes this value.
    pub open spec fn name(self) -> Seq<char> {
        match self {
            QemuConfigCitype::Configdrive2 => "configdrive2"@,
            QemuConfigCitype::Nocloud => "nocloud"@,
            QemuConfigCitype::Opennebula => "opennebula"@,
            QemuConfigCitype::UnknownEnumValue(s) => s@,
        }
    }

    /// The known value that the API name `s` stands for, if any.
    pub open spec fn known(s: Seq<char>) -> Option<Self> {
        if s == "configdrive2"@ {
            Some(QemuConfigCitype::Configdrive2)
        }         else if s == "nocloud"@ {
            Some(QemuConfigCitype::Nocloud)
        }         else if s == "opennebula"@ {
            Some(QemuConfigCitype::Opennebula)
        } else {
            None
        }
    }

    /// `v` is the value that reading the API name `s` gives.
    pub open spec fn parses_to(s: Seq<char>, v: Self) -> bool {
        match Self::known(s) {
            Some(k) => v == k,
            None => v matches QemuConfigCitype::UnknownEnumValue(t) && t@ == s,
        }
    }

    /// The API name of this value.
    pub fn to_string(&self) -> (r: String)
        ensures
            r@ == self.name(),
    {
        match self {
            QemuConfigCitype::Configdrive2 => String::from_str("configdrive2"),
            QemuConfigCitype::Nocloud => String::from_str("nocloud"),
            QemuConfigCitype::Opennebula => String::from_str("opennebula"),
            QemuConfigCitype::UnknownEnumValue(s) => s.clone(),
        }
    }

    /// Reads an API name; a name that is not known is kept as an unknown value.
    pub fn from_name(s: &str) -> (r: Self)
        ensures
            Self::parses_to(s@, r),
    {
        if str_eq(s, "configdrive2") {
            QemuConfigCitype::Configdrive2
        }         else if str_eq(s, "nocloud") {
            QemuConfigCitype::Nocloud
        }         else if str_eq(s, "opennebula") {
            QemuConfigCitype::Opennebula
        } else {
            QemuConfigCitype::UnknownEnumValue(String::from_str(s))
        }
    }

    /// Each known value goes with the name the API uses for it: `configdrive2` for `Configdrive2`, `nocloud` for `Nocloud`, `opennebula` for `Opennebula`.
    /// `to_string` writes that name and `from_name` reads it as that value.
    pub proof fn lemma_api_names()
        ensures
            QemuConfigCitype::Configdrive2.name() == "configdrive2"@,
            Self::parses_to("configdrive2"@, QemuConfigCitype::Configdrive2),
            QemuConfigCitype::Nocloud.name() == "nocloud"@,
            Self::parses_to("nocloud"@, QemuConfigCitype::Nocloud),
            QemuConfigCitype::Opennebula.name() == "opennebula"@,
            Self::parses_to("opennebula"@, QemuConfigCitype::Opennebula),
    {
        Self::lemma_to_string_from_name(QemuConfigCitype::Configdrive2);
        Self::lemma_to_string_from_name(QemuConfigCitype::Nocloud);
        Self::lemma_to_string_from_name(QemuConfigCitype::Opennebula);
    }

    /// Writing out a value that was read gives back the name that was read.
    pub proof fn lemma_from_name_to_string(s: Seq<char>, v: Self)
        requires
            Self::parses_to(s, v),
        ensures
            v.name() == s,
    {
    }

    /// Reading the name of a value gives back the value, unless the value is an
    /// unknown one that carries the name of a known one.
    pub proof fn lemma_to_string_from_name(v: Self)
        requires
            v is UnknownEnumValue ==> Self::known(v.name()) is None,
        ensures
            Self::parses_to(v.name(), v),
    {
        if !(v is UnknownEnumValue) {
            Self::lemma_known_names(v);
        }
    }

    /// The spelling of known names, character by character.
    proof fn lemma_name_spelling()
        ensures
            "configdrive2"@.len() == 12 && "configdrive2"@[0] == 'c' && "configdrive2"@[1] == 'o' && "configdrive2"@[2] == 'n' && "configdrive2"@[3] == 'f' && "configdrive2"@[4] == 'i' && "configdrive2"@[5] == 'g' && "configdrive2"@[6] == 'd' && "configdrive2"@[7] == 'r' && "configdrive2"@[8] == 'i' && "configdrive2"@[9] == 'v' && "configdrive2"@[10] == 'e' && "configdrive2"@[11] == '2',
            "nocloud"@.len() == 7 && "nocloud"@[0] == 'n' && "nocloud"@[1] == 'o' && "nocloud"@[2] == 'c' && "nocloud"@[3] == 'l' && "nocloud"@[4] == 'o' && "nocloud"@[5] == 'u' && "nocloud"@[6] == 'd',
            "opennebula"@.len() == 10 && "opennebula"@[0] == 'o' && "opennebula"@[1] == 'p' && "opennebula"@[2] == 'e' && "opennebula"@[3] == 'n' && "opennebula"@[4] == 'n' && "opennebula"@[5] == 'e' && "opennebula"@[6] == 'b' && "opennebula"@[7] == 'u' && "opennebula"@[8] == 'l' && "opennebula"@[9] == 'a',
    {
        broadcast use vstd::string::group_string_axioms;

        reveal_strlit("configdrive2");
        reveal_strlit("nocloud");
        reveal_strlit("opennebula");
    }

    proof fn lemma_known_names(v: Self)
        requires
            !(v is UnknownEnumValue),
        ensures
            Self::known(v.name()) == Some(v),
    {
        Self::lemma_name_spelling();
    }

}

/// Object.
#[derive(Debug)]
pub struct QemuConfigEfidisk0 {
    pub efitype: Option<QemuConfigEfidisk0Efitype>,

    /// The drive's backing volume.
    pub file: String,

    pub format: Option<PveQmIdeFormat>,

    /// Use am EFI vars template with distribution-specific and Microsoft
    /// Standard keys enrolled, if used with 'efitype=4m'. Note that this will
    /// enable Secure Boot by default, though it can still be turned off from
    /// within the VM.
    pub pre_enrolled_keys: Option<bool>,

    /// Disk size. This is purely informational and has no effect.
    pub size: Option<String>,
}

/// Size and type of the OVMF EFI vars. '4m' is newer and recommended, and
/// required for Secure Boot. For backwards compatibility, '2m' is used if not
/// otherwise specified. Ignored for VMs with arch=aarch64 (ARM).
#[derive(Clone, Debug)]
pub enum QemuConfigEfidisk0Efitype {
    /// 2m.
    Mb2,
    /// 4m.
    Mb4,
    /// Unknown variants for forward compatibility.
    UnknownEnumValue(String),
}

impl PartialEq for QemuConfigEfidisk0Efitype {
    fn eq(&self, other: &Self) -> (r: bool) {
        match (self, other) {
            (QemuConfigEfidisk0Efitype::Mb2, QemuConfigEfidisk0Efitype::Mb2) => true,
            (QemuConfigEfidisk0Efitype::Mb4, QemuConfigEfidisk0Efitype::Mb4) => true,
            (QemuConfigEfidisk0Efitype::UnknownEnumValue(a), QemuConfigEfidisk0Efitype::UnknownEnumValue(b)) => *a == *b,
            _ => false,
        }
    }
}

impl PartialEqSpecImpl for QemuConfigEfidisk0Efitype {
    open spec fn obeys_eq_spec() -> bool {
        true
    }

    open spec fn eq_spec(&self, other: &Self) -> bool {
        match (self, other) {
            (QemuConfigEfidisk0Efitype::UnknownEnumValue(a), QemuConfigEfidisk0Efitype::UnknownEnumValue(b)) => a@ == b@,
            _ => *self == *other,
        }
    }
}

impl Default for QemuConfigEfidisk0Efitype {
    fn default() -> (r: Self)
        ensures
            r == QemuConfigEfidisk0Efitype::Mb2,
    {
        QemuConfigEfidisk0Efitype::Mb2
    }
}

impl std::str::FromStr for QemuConfigEfidisk0Efitype {
    type Err = core::convert::Infallible;

    fn from_str(s: &str) -> (r: Result<Self, Self::Err>)
        ensures
            r matches Ok(v) && Self::parses_to(s@, v),
    {
        Ok(QemuConfigEfidisk0Efitype::from_name(s))
    }
}

impl QemuConfigEfidisk0Efitype {
    /// The name under which the API writes this value.
    pub open spec fn name(self) -> Seq<char> {
        match self {
            QemuConfigEfidisk0Efitype::Mb2 => "2m"@,
            QemuConfigEfidisk0Efitype::Mb4 => "4m"@,
            QemuConfigEfidisk0Efitype::UnknownEnumValue(s) => s@,
        }
    }

    /// The known value that the API name `s` stands for, if any.
    pub open spec fn known(s: Seq<char>) -> Option<Self> {
        if s == "2m"@ {
            Some(QemuConfigEfidisk0Efitype::Mb2)
        }         else if s == "4m"@ {
            Some(QemuConfigEfidisk0Efitype::Mb4)
        } else {
            None
        }
    }

    /// `v` is the value that reading the API name `s` gives.
    pub open spec fn parses_to(s: Seq<char>, v: Self) -> bool {
        match Self::known(s) {
            Some(k) => v == k,
            None => v matches QemuConfigEfidisk0Efitype::UnknownEnumValue(t) && t@ == s,
        }
    }

    /// The API name of this value.
    pub fn to_string(&self) -> (r: String)
        ensures
            r@ == self.name(),
    {
        match self {
            QemuConfigEfidisk0Efitype::Mb2 => String::from_str("2m"),
            QemuConfigEfidisk0Efitype::Mb4 => String::from_str("4m"),
            QemuConfigEfidisk0Efitype::UnknownEnumValue(s) => s.clone(),
        }
    }

    /// Reads an API name; a name that is not known is kept as an unknown value.
    pub fn from_name(s: &str) -> (r: Self)
        ensures
            Self::parses_to(s@, r),
    {
        if str_eq(s, "2m") {
            QemuConfigEfidisk0Efitype::Mb2
        }         else if str_eq(s, "4m") {
            QemuConfigEfidisk0Efitype::Mb4
        } else {
            QemuConfigEfidisk0Efitype::UnknownEnumValue(String::from_str(s))
        }
    }

    /// Each known value goes with the name the API uses for it: `2m` for `Mb2`, `4m` for `Mb4`.
    /// `to_string` writes that name and `from_name` reads it as that value.
    pub proof fn lemma_api_names()
        ensures
            QemuConfigEfidisk0Efitype::Mb2.name() == "2m"@,
            Self::parses_to("2m"@, QemuConfigEfidisk0Efitype::Mb2),
            QemuConfigEfidisk0Efitype::Mb4.name() == "4m"@,
            Self::parses_to("4m"@, QemuConfigEfidisk0Efitype::Mb4),
    {
        Self::lemma_to_string_from_name(QemuConfigEfidisk0Efitype::Mb2);
        Self::lemma_to_string_from_name(QemuConfigEfidisk0Efitype::Mb4);
    }

    /// Writing out a value that was read gives back the name that was read.
    pub proof fn lemma_from_name_to_string(s: Seq<char>, v: Self)
        requires
            Self::parses_to(s, v),
        ensures
            v.name() == s,
    {
    }

    /// Reading the name of a value gives back the value, unless the value is an
    /// unknown one that carries the name of a known one.
    pub proof fn lemma_to_string_from_name(v: Self)
        requires
            v is UnknownEnumValue ==> Self::known(v.name()) is None,
        ensures
            Self::parses_to(v.name(), v),
    {
        if !(v is UnknownEnumValue) {
            Self::lemma_known_names(v);
        }
    }

    /// The spelling of known names, character by character.
    proof fn lemma_name_spelling()
        ensures
            "2m"@.len() == 2 && "2m"@[0] == '2' && "2m"@[1] == 'm',
            "4m"@.len() == 2 && "4m"@[0] == '4' && "4m"@[1] == 'm',
    {
        broadcast use vstd::string::group_string_axioms;

        reveal_strlit("2m");
        reveal_strlit("4m");
    }

    proof fn lemma_known_names(v: Self)
        requires
            !(v is UnknownEnumValue),
        ensures
            Self::known(v.name()) == Some(v),
    {
        Self::lemma_name_spelling();
    }

}

/// Enable/disable hugepages memory.
#[derive(Clone, Debug)]
pub enum QemuConfigHugepages {
    /// any.
    Any,
    /// 2.
    Mb2,
    /// 1024.
    Mb1024,
    /// Unknown variants for forward compatibility.
    UnknownEnumValue(String),
}

impl PartialEq for QemuConfigHugepages {
    fn eq(&self, other: &Self) -> (r: bool) {
        match (self, other) {
            (QemuConfigHugepages::Any, QemuConfigHugepages::Any) => true,
            (QemuConfigHugepages::Mb2, QemuConfigHugepages::Mb2) => true,
            (QemuConfigHugepages::Mb1024, QemuConfigHugepages::Mb1024) => true,
            (QemuConfigHugepages::UnknownEnumValue(a), QemuConfigHugepages::UnknownEnumValue(b)) => *a == *b,
            _ => false,
        }
    }
}

impl PartialEqSpecImpl for QemuConfigHugepages {
    open spec fn obeys_eq_spec() -> bool {
        true
    }

    open spec fn eq_spec(&self, other: &Self) -> bool {
        match (self, other) {
            (QemuConfigHugepages::UnknownEnumValue(a), QemuConfigHugepages::UnknownEnumValue(b)) => a@ == b@,
            _ => *self == *other,
        }
    }
}

impl std::str::FromStr for QemuConfigHugepages {
    type Err = core::convert::Infallible;

    fn from_str(s: &str) -> (r: Result<Self, Self::Err>)
        ensures
            r matches Ok(v) && Self::parses_to(s@, v),
    {
        Ok(QemuConfigHugepages::from_name(s))
    }
}

impl QemuConfigHugepages {
    /// The name under which the API writes this value.
    pub open spec fn name(self) -> Seq<char> {
        match self {
            QemuConfigHugepages::Any => "any"@,
            QemuConfigHugepages::Mb2 => "2"@,
            QemuConfigHugepages::Mb1024 => "1024"@,
            QemuConfigHugepages::UnknownEnumValue(s) => s@,
        }
    }

    /// The known value that the API name `s` stands for, if any.
    pub open spec fn known(s: Seq<char>) -> Option<Self> {
        if s == "any"@ {
            Some(QemuConfigHugepages::Any)
        }         else if s == "2"@ {
            Some(QemuConfigHugepages::Mb2)
        }         else if s == "1024"@ {
            Some(QemuConfigHugepages::Mb1024)
        } else {
            None
        }
    }

    /// `v` is the value that reading the API name `s` gives.
    pub open spec fn parses_to(s: Seq<char>, v: Self) -> bool {
        match Self::known(s) {
            Some(k) => v == k,
            None => v matches QemuConfigHugepages::UnknownEnumValue(t) && t@ == s,
        }
    }

    /// The API name of this value.
    pub fn to_string(&self) -> (r: String)
        ensures
            r@ == self.name(),
    {
        match self {
            QemuConfigHugepages::Any => String::from_str("any"),
            QemuConfigHugepages::Mb2 => String::from_str("2"),
            QemuConfigHugepages::Mb1024 => String::from_str("1024"),
            QemuConfigHugepages::UnknownEnumValue(s) => s.clone(),
        }
    }

    /// Reads an API name; a name that is not known is kept as an unknown value.
    pub fn from_name(s: &str) -> (r: Self)
        ensures
            Self::parses_to(s@, r),
    {
        if str_eq(s, "any") {
            QemuConfigHugepages::Any
        }         else if str_eq(s, "2") {
            QemuConfigHugepages::Mb2
        }         else if str_eq(s, "1024") {
            QemuConfigHugepages::Mb1024
        } else {
            QemuConfigHugepages::UnknownEnumValue(String::from_str(s))
        }
    }

    /// Each known value goes with the name the API uses for it: `any` for `Any`, `2` for `Mb2`, `1024` for `Mb1024`.
    /// `to_string` writes that name and `from_name` reads it as that value.
    pub proof fn lemma_api_names()
        ensures
            QemuConfigHugepages::Any.name() == "any"@,
            Self::parses_to("any"@, QemuConfigHugepages::Any),
            QemuConfigHugepages::Mb2.name() == "2"@,
            Self::parses_to("2"@, QemuConfigHugepages::Mb2),
            QemuConfigHugepages::Mb1024.name() == "1024"@,
            Self::parses_to("1024"@, QemuConfigHugepages::Mb1024),
    {
        Self::lemma_to_string_from_name(QemuConfigHugepages::Any);
        Self::lemma_to_string_from_name(QemuConfigHugepages::Mb2);
        Self::lemma_to_string_from_name(QemuConfigHugepages::Mb1024);
    }

    /// Writing out a value that was read gives back the name that was read.
    pub proof fn lemma_from_name_to_string(s: Seq<char>, v: Self)
        requires
            Self::parses_to(s, v),
        ensures
            v.name() == s,
    {
    }

    /// Reading the name of a value gives back the value, unless the value is an
    /// unknown one that carries the name of a known one.
    pub proof fn lemma_to_string_from_name(v: Self)
        requires
            v is UnknownEnumValue ==> Self::known(v.name()) is None,
        ensures
            Self::parses_to(v.name(), v),
    {
        if !(v is UnknownEnumValue) {
            Self::lemma_known_names(v);
        }
    }

    /// The spelling of known names, character by character.
    proof fn lemma_name_spelling()
        ensures
            "any"@.len() == 3 && "any"@[0] == 'a' && "any"@[1] == 'n' && "any"@[2] == 'y',
            "2"@.len() == 1 && "2"@[0] == '2',
            "1024"@.len() == 4 && "1024"@[0] == '1' && "1024"@[1] == '0' && "1024"@[2] == '2' && "1024"@[3] == '4',
    {
        broadcast use vstd::string::group_string_axioms;

        reveal_strlit("any");
        reveal_strlit("2");
        reveal_strlit("1024");
    }

    proof fn lemma_known_names(v: Self)
        requires
            !(v is UnknownEnumValue),
        ensures
            Self::known(v.name()) == Some(v),
    {
        Self::lemma_name_spelling();
    }

}

/// Object.
#[derive(Debug)]
pub struct QemuConfigIvshmem {
    /// The name of the file. Will be prefixed with 'pve-shm-'. Default is the
    /// VMID. Will be deleted when the VM is stopped.
    pub name: Option<String>,

    /// The size of the file in MB.
    pub size: u64,
}

/// Keyboard layout for VNC server. This option is generally not required and is
/// often better handled from within the guest OS.
#[derive(Clone, Debug)]
pub enum QemuConfigKeyboard {
    /// de.
    De,
    /// de-ch.
    DeCh,
    /// da.
    Da,
    /// en-gb.
    EnGb,
    /// en-us.
    EnUs,
    /// es.
    Es,
    /// fi.
    Fi,
    /// fr.
    Fr,
    /// fr-be.
    FrBe,
    /// fr-ca.
    FrCa,
    /// fr-ch.
    FrCh,
    /// hu.
    Hu,
    /// is.
    Is,
    /// it.
    It,
    /// ja.
    Ja,
    /// lt.
    Lt,
    /// mk.
    Mk,
    /// nl.
    Nl,
    /// no.
    No,
    /// pl.
    Pl,
    /// pt.
    Pt,
    /// pt-br.
    PtBr,
    /// sv.
    Sv,
    /// sl.
    Sl,
    /// tr.
    Tr,
    /// Unknown variants for forward compatibility.
    UnknownEnumValue(String),
}

impl PartialEq for QemuConfigKeyboard {
    fn eq(&self, other: &Self) -> (r: bool) {
        match (self, other) {
            (QemuConfigKeyboard::De, QemuConfigKeyboard::De) => true,
            (QemuConfigKeyboard::DeCh, QemuConfigKeyboard::DeCh) => true,
            (QemuConfigKeyboard::Da, QemuConfigKeyboard::Da) => true,
            (QemuConfigKeyboard::EnGb, QemuConfigKeyboard::EnGb) => true,
            (QemuConfigKeyboard::EnUs, QemuConfigKeyboard::EnUs) => true,
            (QemuConfigKeyboard::Es, QemuConfigKeyboard::Es) => true,
            (QemuConfigKeyboard::Fi, QemuConfigKeyboard::Fi) => true,
            (QemuConfigKeyboard::Fr, QemuConfigKeyboard::Fr) => true,
            (QemuConfigKeyboard::FrBe, QemuConfigKeyboard::FrBe) => true,
            (QemuConfigKeyboard::FrCa, QemuConfigKeyboard::FrCa) => true,
            (QemuConfigKeyboard::FrCh, QemuConfigKeyboard::FrCh) => true,
            (QemuConfigKeyboard::Hu, QemuConfigKeyboard::Hu) => true,
            (QemuConfigKeyboard::Is, QemuConfigKeyboard::Is) => true,
            (QemuConfigKeyboard::It, QemuConfigKeyboard::It) => true,
            (QemuConfigKeyboard::Ja, QemuConfigKeyboard::Ja) => true,
            (QemuConfigKeyboard::Lt, QemuConfigKeyboard::Lt) => true,
            (QemuConfigKeyboard::Mk, QemuConfigKeyboard::Mk) => true,
            (QemuConfigKeyboard::Nl, QemuConfigKeyboard::Nl) => true,
            (QemuConfigKeyboard::No, QemuConfigKeyboard::No) => true,
            (QemuConfigKeyboard::Pl, QemuConfigKeyboard::Pl) => true,
            (QemuConfigKeyboard::Pt, QemuConfigKeyboard::Pt) => true,
            (QemuConfigKeyboard::PtBr, QemuConfigKeyboard::PtBr) => true,
            (QemuConfigKeyboard::Sv, QemuConfigKeyboard::Sv) => true,
            (QemuConfigKeyboard::Sl, QemuConfigKeyboard::Sl) => true,
            (QemuConfigKeyboard::Tr, QemuConfigKeyboard::Tr) => true,
            (QemuConfigKeyboard::UnknownEnumValue(a), QemuConfigKeyboard::UnknownEnumValue(b)) => *a == *b,
            _ => false,
        }
    }
}

impl PartialEqSpecImpl for QemuConfigKeyboard {
    open spec fn obeys_eq_spec() -> bool {
        true
    }

    open spec fn eq_spec(&self, other: &Self) -> bool {
        match (self, other) {
            (QemuConfigKeyboard::UnknownEnumValue(a), QemuConfigKeyboard::UnknownEnumValue(b)) => a@ == b@,
            _ => *self == *other,
        }
    }
}

impl std::str::FromStr for QemuConfigKeyboard {
    type Err = core::convert::Infallible;

    fn from_str(s: &str) -> (r: Result<Self, Self::Err>)
        ensures
            r matches Ok(v) && Self::parses_to(s@, v),
    {
        Ok(QemuConfigKeyboard::from_name(s))
    }
}

impl QemuConfigKeyboard {
    /// The name under which the API writes this value.
    pub open spec fn name(self) -> Seq<char> {
        match self {
            QemuConfigKeyboard::De => "de"@,
            QemuConfigKeyboard::DeCh => "de-ch"@,
            QemuConfigKeyboard::Da => "da"@,
            QemuConfigKeyboard::EnGb => "en-gb"@,
            QemuConfigKeyboard::EnUs => "en-us"@,
            QemuConfigKeyboard::Es => "es"@,
            QemuConfigKeyboard::Fi => "fi"@,
            QemuConfigKeyboard::Fr => "fr"@,
            QemuConfigKeyboard::FrBe => "fr-be"@,
            QemuConfigKeyboard::FrCa => "fr-ca"@,
            QemuConfigKeyboard::FrCh => "fr-ch"@,
            QemuConfigKeyboard::Hu => "hu"@,
            QemuConfigKeyboard::Is => "is"@,
            QemuConfigKeyboard::It => "it"@,
            QemuConfigKeyboard::Ja => "ja"@,
            QemuConfigKeyboard::Lt => "lt"@,
            QemuConfigKeyboard::Mk => "mk"@,
            QemuConfigKeyboard::Nl => "nl"@,
            QemuConfigKeyboard::No => "no"@,
            QemuConfigKeyboard::Pl => "pl"@,
            QemuConfigKeyboard::Pt => "pt"@,
            QemuConfigKeyboard::PtBr => "pt-br"@,
            QemuConfigKeyboard::Sv => "sv"@,
            QemuConfigKeyboard::Sl => "sl"@,
            QemuConfigKeyboard::Tr => "tr"@,
            QemuConfigKeyboard::UnknownEnumValue(s) => s@,
        }
    }

    /// The known value that the API name `s` stands for, if any.
    pub open spec fn known(s: Seq<char>) -> Option<Self> {
        if s == "de"@ {
            Some(QemuConfigKeyboard::De)
        }         else if s == "de-ch"@ {
            Some(QemuConfigKeyboard::DeCh)
        }         else if s == "da"@ {
            Some(QemuConfigKeyboard::Da)
        }         else if s == "en-gb"@ {
            Some(QemuConfigKeyboard::EnGb)
        }         else if s == "en-us"@ {
            Some(QemuConfigKeyboard::EnUs)
        }         else if s == "es"@ {
            Some(QemuConfigKeyboard::Es)
        }         else if s == "fi"@ {
            Some(QemuConfigKeyboard::Fi)
        }         else if s == "fr"@ {
            Some(QemuConfigKeyboard::Fr)
        }         else if s == "fr-be"@ {
            Some(QemuConfigKeyboard::FrBe)
        }         else if s == "fr-ca"@ {
            Some(QemuConfigKeyboard::FrCa)
        }         else if s == "fr-ch"@ {
            Some(QemuConfigKeyboard::FrCh)
        }         else if s == "hu"@ {
            Some(QemuConfigKeyboard::Hu)
        }         else if s == "is"@ {
            Some(QemuConfigKeyboard::Is)
        }         else if s == "it"@ {
            Some(QemuConfigKeyboard::It)
        }         else if s == "ja"@ {
            Some(QemuConfigKeyboard::Ja)
        }         else if s == "lt"@ {
            Some(QemuConfigKeyboard::Lt)
        }         else if s == "mk"@ {
            Some(QemuConfigKeyboard::Mk)
        }         else if s == "nl"@ {
            Some(QemuConfigKeyboard::Nl)
        }         else if s == "no"@ {
            Some(QemuConfigKeyboard::No)
        }         else if s == "pl"@ {
            Some(QemuConfigKeyboard::Pl)
        }         else if s == "pt"@ {
            Some(QemuConfigKeyboard::Pt)
        }         else if s == "pt-br"@ {
            Some(QemuConfigKeyboard::PtBr)
        }         else if s == "sv"@ {
            Some(QemuConfigKeyboard::Sv)
        }         else if s == "sl"@ {
            Some(QemuConfigKeyboard::Sl)
        }         else if s == "tr"@ {
            Some(QemuConfigKeyboard::Tr)
        } else {
            None
        }
    }

    /// `v` is the value that reading the API name `s` gives.
    pub open spec fn parses_to(s: Seq<char>, v: Self) -> bool {
        match Self::known(s) {
            Some(k) => v == k,
            None => v matches QemuConfigKeyboard::UnknownEnumValue(t) && t@ == s,
        }
    }

    /// The API name of this value.
    pub fn to_string(&self) -> (r: String)
        ensures
            r@ == self.name(),
    {
        match self {
            QemuConfigKeyboard::De => String::from_str("de"),
            QemuConfigKeyboard::DeCh => String::from_str("de-ch"),
            QemuConfigKeyboard::Da => String::from_str("da"),
            QemuConfigKeyboard::EnGb => String::from_str("en-gb"),
            QemuConfigKeyboard::EnUs => String::from_str("en-us"),
            QemuConfigKeyboard::Es => String::from_str("es"),
            QemuConfigKeyboard::Fi => String::from_str("fi"),
            QemuConfigKeyboard::Fr => String::from_str("fr"),
            QemuConfigKeyboard::FrBe => String::from_str("fr-be"),
            QemuConfigKeyboard::FrCa => String::from_str("fr-ca"),
            QemuConfigKeyboard::FrCh => String::from_str("fr-ch"),
            QemuConfigKeyboard::Hu => String::from_str("hu"),
            QemuConfigKeyboard::Is => String::from_str("is"),
            QemuConfigKeyboard::It => String::from_str("it"),
            QemuConfigKeyboard::Ja => String::from_str("ja"),
            QemuConfigKeyboard::Lt => String::from_str("lt"),
            QemuConfigKeyboard::Mk => String::from_str("mk"),
            QemuConfigKeyboard::Nl => String::from_str("nl"),
            QemuConfigKeyboard::No => String::from_str("no"),
            QemuConfigKeyboard::Pl => String::from_str("pl"),
            QemuConfigKeyboard::Pt => String::from_str("pt"),
            QemuConfigKeyboard::PtBr => String::from_str("pt-br"),
            QemuConfigKeyboard::Sv => String::from_str("sv"),
            QemuConfigKeyboard::Sl => String::from_str("sl"),
            QemuConfigKeyboard::Tr => String::from_str("tr"),
            QemuConfigKeyboard::UnknownEnumValue(s) => s.clone(),
        }
    }

    /// Reads an API name; a name that is not known is kept as an unknown value.
    pub fn from_name(s: &str) -> (r: Self)
        ensures
            Self::parses_to(s@, r),
    {
        if str_eq(s, "de") {
            QemuConfigKeyboard::De
        }         else if str_eq(s, "de-ch") {
            QemuConfigKeyboard::DeCh
        }         else if str_eq(s, "da") {
            QemuConfigKeyboard::Da
        }         else if str_eq(s, "en-gb") {
            QemuConfigKeyboard::EnGb
        }         else if str_eq(s, "en-us") {
            QemuConfigKeyboard::EnUs
        }         else if str_eq(s, "es") {
            QemuConfigKeyboard::Es
        }         else if str_eq(s, "fi") {
            QemuConfigKeyboard::Fi
        }         else if str_eq(s, "fr") {
            QemuConfigKeyboard::Fr
        }         else if str_eq(s, "fr-be") {
            QemuConfigKeyboard::FrBe
        }         else if str_eq(s, "fr-ca") {
            QemuConfigKeyboard::FrCa
        }         else if str_eq(s, "fr-ch") {
            QemuConfigKeyboard::FrCh
        }         else if str_eq(s, "hu") {
            QemuConfigKeyboard::Hu
        }         else if str_eq(s, "is") {
            QemuConfigKeyboard::Is
        }         else if str_eq(s, "it") {
            QemuConfigKeyboard::It
        }         else if str_eq(s, "ja") {
            QemuConfigKeyboard::Ja
        }         else if str_eq(s, "lt") {
            QemuConfigKeyboard::Lt
        }         else if str_eq(s, "mk") {
            QemuConfigKeyboard::Mk
        }         else if str_eq(s, "nl") {
            QemuConfigKeyboard::Nl
        }         else if str_eq(s, "no") {
            QemuConfigKeyboard::No
        }         else if str_eq(s, "pl") {
            QemuConfigKeyboard::Pl
        }         else if str_eq(s, "pt") {
            QemuConfigKeyboard::Pt
        }         else if str_eq(s, "pt-br") {
            QemuConfigKeyboard::PtBr
        }         else if str_eq(s, "sv") {
            QemuConfigKeyboard::Sv
        }         else if str_eq(s, "sl") {
            QemuConfigKeyboard::Sl
        }         else if str_eq(s, "tr") {
            QemuConfigKeyboard::Tr
        } else {
            QemuConfigKeyboard::UnknownEnumValue(String::from_str(s))
        }
    }

    /// Each known value goes with the name the API uses for it: `de` for `De`, `de-ch` for `DeCh`, `da` for `Da`, and so on for every known value.
    /// `to_string` writes that name and `from_name` reads it as that value.
    pub proof fn lemma_api_names()
        ensures
            QemuConfigKeyboard::De.name() == "de"@,
            Self::parses_to("de"@, QemuConfigKeyboard::De),
            QemuConfigKeyboard::DeCh.name() == "de-ch"@,
            Self::parses_to("de-ch"@, QemuConfigKeyboard::DeCh),
            QemuConfigKeyboard::Da.name() == "da"@,
            Self::parses_to("da"@, QemuConfigKeyboard::Da),
            QemuConfigKeyboard::EnGb.name() == "en-gb"@,
            Self::parses_to("en-gb"@, QemuConfigKeyboard::EnGb),
            QemuConfigKeyboard::EnUs.name() == "en-us"@,
            Self::parses_to("en-us"@, QemuConfigKeyboard::EnUs),
            QemuConfigKeyboard::Es.name() == "es"@,
            Self::parses_to("es"@, QemuConfigKeyboard::Es),
            QemuConfigKeyboard::Fi.name() == "fi"@,
            Self::parses_to("fi"@, QemuConfigKeyboard::Fi),
            QemuConfigKeyboard::Fr.name() == "fr"@,
            Self::parses_to("fr"@, QemuConfigKeyboard::Fr),
            QemuConfigKeyboard::FrBe.name() == "fr-be"@,
            Self::parses_to("fr-be"@, QemuConfigKeyboard::FrBe),
            QemuConfigKeyboard::FrCa.name() == "fr-ca"@,
            Self::parses_to("fr-ca"@, QemuConfigKeyboard::FrCa),
            QemuConfigKeyboard::FrCh.name() == "fr-ch"@,
            Self::parses_to("fr-ch"@, QemuConfigKeyboard::FrCh),
            QemuConfigKeyboard::Hu.name() == "hu"@,
            Self::parses_to("hu"@, QemuConfigKeyboard::Hu),
            QemuConfigKeyboard::Is.name() == "is"@,
            Self::parses_to("is"@, QemuConfigKeyboard::Is),
            QemuConfigKeyboard::It.name() == "it"@,
            Self::parses_to("it"@, QemuConfigKeyboard::It),
            QemuConfigKeyboard::Ja.name() == "ja"@,
            Self::parses_to("ja"@, QemuConfigKeyboard::Ja),
            QemuConfigKeyboard::Lt.name() == "lt"@,
            Self::parses_to("lt"@, QemuConfigKeyboard::Lt),
            QemuConfigKeyboard::Mk.name() == "mk"@,
            Self::parses_to("mk"@, QemuConfigKeyboard::Mk),
            QemuConfigKeyboard::Nl.name() == "nl"@,
            Self::parses_to("nl"@, QemuConfigKeyboard::Nl),
            QemuConfigKeyboard::No.name() == "no"@,
            Self::parses_to("no"@, QemuConfigKeyboard::No),
            QemuConfigKeyboard::Pl.name() == "pl"@,
            Self::parses_to("pl"@, QemuConfigKeyboard::Pl),
            QemuConfigKeyboard::Pt.name() == "pt"@,
            Self::parses_to("pt"@, QemuConfigKeyboard::Pt),
            QemuConfigKeyboard::PtBr.name() == "pt-br"@,
            Self::parses_to("pt-br"@, QemuConfigKeyboard::PtBr),
            QemuConfigKeyboard::Sv.name() == "sv"@,
            Self::parses_to("sv"@, QemuConfigKeyboard::Sv),
            QemuConfigKeyboard::Sl.name() == "sl"@,
            Self::parses_to("sl"@, QemuConfigKeyboard::Sl),
            QemuConfigKeyboard::Tr.name() == "tr"@,
            Self::parses_to("tr"@, QemuConfigKeyboard::Tr),
    {
        Self::lemma_to_string_from_name(QemuConfigKeyboard::De);
        Self::lemma_to_string_from_name(QemuConfigKeyboard::DeCh);
        Self::lemma_to_string_from_name(QemuConfigKeyboard::Da);
        Self::lemma_to_string_from_name(QemuConfigKeyboard::EnGb);
        Self::lemma_to_string_from_name(QemuConfigKeyboard::EnUs);
        Self::lemma_to_string_from_name(QemuConfigKeyboard::Es);
        Self::lemma_to_string_from_name(QemuConfigKeyboard::Fi);
        Self::lemma_to_string_from_name(QemuConfigKeyboard::Fr);
        Self::lemma_to_string_from_name(QemuConfigKeyboard::FrBe);
        Self::lemma_to_string_from_name(QemuConfigKeyboard::FrCa);
        Self::lemma_to_string_from_name(QemuConfigKeyboard::FrCh);
        Self::lemma_to_string_from_name(QemuConfigKeyboard::Hu);
        Self::lemma_to_string_from_name(QemuConfigKeyboard::Is);
        Self::lemma_to_string_from_name(QemuConfigKeyboard::It);
        Self::lemma_to_string_from_name(QemuConfigKeyboard::Ja);
        Self::lemma_to_string_from_name(QemuConfigKeyboard::Lt);
        Self::lemma_to_string_from_name(QemuConfigKeyboard::Mk);
        Self::lemma_to_string_from_name(QemuConfigKeyboard::Nl);
        Self::lemma_to_string_from_name(QemuConfigKeyboard::No);
        Self::lemma_to_string_from_name(QemuConfigKeyboard::Pl);
        Self::lemma_to_string_from_name(QemuConfigKeyboard::Pt);
        Self::lemma_to_string_from_name(QemuConfigKeyboard::PtBr);
        Self::lemma_to_string_from_name(QemuConfigKeyboard::Sv);
        Self::lemma_to_string_from_name(QemuConfigKeyboard::Sl);
        Self::lemma_to_string_from_name(QemuConfigKeyboard::Tr);
    }

    /// Writing out a value that was read gives back the name that was read.
    pub proof fn lemma_from_name_to_string(s: Seq<char>, v: Self)
        requires
            Self::parses_to(s, v),
        ensures
            v.name() == s,
    {
    }

    /// Reading the name of a value gives back the value, unless the value is an
    /// unknown one that carries the name of a known one.
    pub proof fn lemma_to_string_from_name(v: Self)
        requires
            v is UnknownEnumValue ==> Self::known(v.name()) is None,
        ensures
            Self::parses_to(v.name(), v),
    {
        match v {
            QemuConfigKeyboard::De | QemuConfigKeyboard::DeCh | QemuConfigKeyboard::Da | QemuConfigKeyboard::EnGb | QemuConfigKeyboard::EnUs | QemuConfigKeyboard::Es | QemuConfigKeyboard::Fi | QemuConfigKeyboard::Fr | QemuConfigKeyboard::FrBe | QemuConfigKeyboard::FrCa | QemuConfigKeyboard::FrCh | QemuConfigKeyboard::Hu | QemuConfigKeyboard::Is | QemuConfigKeyboard::It | QemuConfigKeyboard::Ja | QemuConfigKeyboard::Lt | QemuConfigKeyboard::Mk | QemuConfigKeyboard::Nl | QemuConfigKeyboard::No | QemuConfigKeyboard::Pl => Self::lemma_known_names_0(v),
            QemuConfigKeyboard::Pt | QemuConfigKeyboard::PtBr | QemuConfigKeyboard::Sv | QemuConfigKeyboard::Sl | QemuConfigKeyboard::Tr => Self::lemma_known_names_1(v),
            QemuConfigKeyboard::UnknownEnumValue(_) => {},
        }
    }

    /// The spelling of known names, character by character.
    proof fn lemma_name_spelling_0()
        ensures
            "de"@.len() == 2 && "de"@[0] == 'd' && "de"@[1] == 'e',
            "de-ch"@.len() == 5 && "de-ch"@[0] == 'd' && "de-ch"@[1] == 'e' && "de-ch"@[2] == '-' && "de-ch"@[3] == 'c' && "de-ch"@[4] == 'h',
            "da"@.len() == 2 && "da"@[0] == 'd' && "da"@[1] == 'a',
            "en-gb"@.len() == 5 && "en-gb"@[0] == 'e' && "en-gb"@[1] == 'n' && "en-gb"@[2] == '-' && "en-gb"@[3] == 'g' && "en-gb"@[4] == 'b',
            "en-us"@.len() == 5 && "en-us"@[0] == 'e' && "en-us"@[1] == 'n' && "en-us"@[2] == '-' && "en-us"@[3] == 'u' && "en-us"@[4] == 's',
            "es"@.len() == 2 && "es"@[0] == 'e' && "es"@[1] == 's',
            "fi"@.len() == 2 && "fi"@[0] == 'f' && "fi"@[1] == 'i',
            "fr"@.len() == 2 && "fr"@[0] == 'f' && "fr"@[1] == 'r',
            "fr-be"@.len() == 5 && "fr-be"@[0] == 'f' && "fr-be"@[1] == 'r' && "fr-be"@[2] == '-' && "fr-be"@[3] == 'b' && "fr-be"@[4] == 'e',
            "fr-ca"@.len() == 5 && "fr-ca"@[0] == 'f' && "fr-ca"@[1] == 'r' && "fr-ca"@[2] == '-' && "fr-ca"@[3] == 'c' && "fr-ca"@[4] == 'a',
            "fr-ch"@.len() == 5 && "fr-ch"@[0] == 'f' && "fr-ch"@[1] == 'r' && "fr-ch"@[2] == '-' && "fr-ch"@[3] == 'c' && "fr-ch"@[4] == 'h',
            "hu"@.len() == 2 && "hu"@[0] == 'h' && "hu"@[1] == 'u',
            "is"@.len() == 2 && "is"@[0] == 'i' && "is"@[1] == 's',
            "it"@.len() == 2 && "it"@[0] == 'i' && "it"@[1] == 't',
            "ja"@.len() == 2 && "ja"@[0] == 'j' && "ja"@[1] == 'a',
            "lt"@.len() == 2 && "lt"@[0] == 'l' && "lt"@[1] == 't',
            "mk"@.len() == 2 && "mk"@[0] == 'm' && "mk"@[1] == 'k',
            "nl"@.len() == 2 && "nl"@[0] == 'n' && "nl"@[1] == 'l',
            "no"@.len() == 2 && "no"@[0] == 'n' && "no"@[1] == 'o',
            "pl"@.len() == 2 && "pl"@[0] == 'p' && "pl"@[1] == 'l',
    {
        broadcast use vstd::string::group_string_axioms;

        reveal_strlit("de");
        reveal_strlit("de-ch");
        reveal_strlit("da");
        reveal_strlit("en-gb");
        reveal_strlit("en-us");
        reveal_strlit("es");
        reveal_strlit("fi");
        reveal_strlit("fr");
        reveal_strlit("fr-be");
        reveal_strlit("fr-ca");
        reveal_strlit("fr-ch");
        reveal_strlit("hu");
        reveal_strlit("is");
        reveal_strlit("it");
        reveal_strlit("ja");
        reveal_strlit("lt");
        reveal_strlit("mk");
        reveal_strlit("nl");
        reveal_strlit("no");
        reveal_strlit("pl");
    }

    /// The spelling of known names, character by character.
    proof fn lemma_name_spelling_1()
        ensures
            "pt"@.len() == 2 && "pt"@[0] == 'p' && "pt"@[1] == 't',
            "pt-br"@.len() == 5 && "pt-br"@[0] == 'p' && "pt-br"@[1] == 't' && "pt-br"@[2] == '-' && "pt-br"@[3] == 'b' && "pt-br"@[4] == 'r',
            "sv"@.len() == 2 && "sv"@[0] == 's' && "sv"@[1] == 'v',
            "sl"@.len() == 2 && "sl"@[0] == 's' && "sl"@[1] == 'l',
            "tr"@.len() == 2 && "tr"@[0] == 't' && "tr"@[1] == 'r',
    {
        broadcast use vstd::string::group_string_axioms;

        reveal_strlit("pt");
        reveal_strlit("pt-br");
        reveal_strlit("sv");
        reveal_strlit("sl");
        reveal_strlit("tr");
    }

    proof fn lemma_known_names_0(v: Self)
        requires
            v is De || v is DeCh || v is Da || v is EnGb || v is EnUs || v is Es || v is Fi || v is Fr || v is FrBe || v is FrCa || v is FrCh || v is Hu || v is Is || v is It || v is Ja || v is Lt || v is Mk || v is Nl || v is No || v is Pl,
        ensures
            Self::known(v.name()) == Some(v),
    {
        Self::lemma_name_spelling_0();
    }

    proof fn lemma_known_names_1(v: Self)
        requires
            v is Pt || v is PtBr || v is Sv || v is Sl || v is Tr,
        ensures
            Self::known(v.name()) == Some(v),
    {
        Self::lemma_name_spelling_0();
        Self::lemma_name_spelling_1();
    }

}

/// Lock/unlock the VM.
#[derive(Clone, Debug)]
pub enum QemuConfigLock {
    /// backup.
    Backup,
    /// clone.
    Clone,
    /// create.
    Create,
    /// migrate.
    Migrate,
    /// rollback.
    Rollback,
    /// snapshot.
    Snapshot,
    /// snapshot-delete.
    SnapshotDelete,
    /// suspending.
    Suspending,
    /// suspended.
    Suspended,
    /// Unknown variants for forward compatibility.
    UnknownEnumValue(String),
}

impl PartialEq for QemuConfigLock {
    fn eq(&self, other: &Self) -> (r: bool) {
        match (self, other) {
            (QemuConfigLock::Backup, QemuConfigLock::Backup) => true,
            (QemuConfigLock::Clone, QemuConfigLock::Clone) => true,
            (QemuConfigLock::Create, QemuConfigLock::Create) => true,
            (QemuConfigLock::Migrate, QemuConfigLock::Migrate) => true,
            (QemuConfigLock::Rollback, QemuConfigLock::Rollback) => true,
            (QemuConfigLock::Snapshot, QemuConfigLock::Snapshot) => true,
            (QemuConfigLock::SnapshotDelete, QemuConfigLock::SnapshotDelete) => true,
            (QemuConfigLock::Suspending, QemuConfigLock::Suspending) => true,
            (QemuConfigLock::Suspended, QemuConfigLock::Suspended) => true,
            (QemuConfigLock::UnknownEnumValue(a), QemuConfigLock::UnknownEnumValue(b)) => *a == *b,
            _ => false,
        }
    }
}

impl PartialEqSpecImpl for QemuConfigLock {
    open spec fn obeys_eq_spec() -> bool {
        true
    }

    open spec fn eq_spec(&self, other: &Self) -> bool {
        match (self, other) {
            (QemuConfigLock::UnknownEnumValue(a), QemuConfigLock::UnknownEnumValue(b)) => a@ == b@,
            _ => *self == *other,
        }
    }
}

impl std::str::FromStr for QemuConfigLock {
    type Err = core::convert::Infallible;

    fn from_str(s: &str) -> (r: Result<Self, Self::Err>)
        ensures
            r matches Ok(v) && Self::parses_to(s@, v),
    {
        Ok(QemuConfigLock::from_name(s))
    }
}

impl QemuConfigLock {
    /// The name under which the API writes this value.
    pub open spec fn name(self) -> Seq<char> {
        match self {
            QemuConfigLock::Backup => "backup"@,
            QemuConfigLock::Clone => "clone"@,
            QemuConfigLock::Create => "create"@,
            QemuConfigLock::Migrate => "migrate"@,
            QemuConfigLock::Rollback => "rollback"@,
            QemuConfigLock::Snapshot => "snapshot"@,
            QemuConfigLock::SnapshotDelete => "snapshot-delete"@,
            QemuConfigLock::Suspending => "suspending"@,
            QemuConfigLock::Suspended => "suspended"@,
            QemuConfigLock::UnknownEnumValue(s) => s@,
        }
    }

    /// The known value that the API name `s` stands for, if any.
    pub open spec fn known(s: Seq<char>) -> Option<Self> {
        if s == "backup"@ {
            Some(QemuConfigLock::Backup)
        }         else if s == "clone"@ {
            Some(QemuConfigLock::Clone)
        }         else if s == "create"@ {
            Some(QemuConfigLock::Create)
        }         else if s == "migrate"@ {
            Some(QemuConfigLock::Migrate)
        }         else if s == "rollback"@ {
            Some(QemuConfigLock::Rollback)
        }         else if s == "snapshot"@ {
            Some(QemuConfigLock::Snapshot)
        }         else if s == "snapshot-delete"@ {
            Some(QemuConfigLock::SnapshotDelete)
        }         else if s == "suspending"@ {
            Some(QemuConfigLock::Suspending)
        }         else if s == "suspended"@ {
            Some(QemuConfigLock::Suspended)
        } else {
            None
        }
    }

    /// `v` is the value that reading the API name `s` gives.
    pub open spec fn parses_to(s: Seq<char>, v: Self) -> bool {
        match Self::known(s) {
            Some(k) => v == k,
            None => v matches QemuConfigLock::UnknownEnumValue(t) && t@ == s,
        }
    }

    /// The API name of this value.
    pub fn to_string(&self) -> (r: String)
        ensures
            r@ == self.name(),
    {
        match self {
            QemuConfigLock::Backup => String::from_str("backup"),
            QemuConfigLock::Clone => String::from_str("clone"),
            QemuConfigLock::Create => String::from_str("create"),
            QemuConfigLock::Migrate => String::from_str("migrate"),
            QemuConfigLock::Rollback => String::from_str("rollback"),
            QemuConfigLock::Snapshot => String::from_str("snapshot"),
            QemuConfigLock::SnapshotDelete => String::from_str("snapshot-delete"),
            QemuConfigLock::Suspending => String::from_str("suspending"),
            QemuConfigLock::Suspended => String::from_str("suspended"),
            QemuConfigLock::UnknownEnumValue(s) => s.clone(),
        }
    }

    /// Reads an API name; a name that is not known is kept as an unknown value.
    pub fn from_name(s: &str) -> (r: Self)
        ensures
            Self::parses_to(s@, r),
    {
        if str_eq(s, "backup") {
            QemuConfigLock::Backup
        }         else if str_eq(s, "clone") {
            QemuConfigLock::Clone
        }         else if str_eq(s, "create") {
            QemuConfigLock::Create
        }         else if str_eq(s, "migrate") {
            QemuConfigLock::Migrate
        }         else if str_eq(s, "rollback") {
            QemuConfigLock::Rollback
        }         else if str_eq(s, "snapshot") {
            QemuConfigLock::Snapshot
        }         else if str_eq(s, "snapshot-delete") {
            QemuConfigLock::SnapshotDelete
        }         else if str_eq(s, "suspending") {
            QemuConfigLock::Suspending
        }         else if str_eq(s, "suspended") {
            QemuConfigLock::Suspended
        } else {
            QemuConfigLock::UnknownEnumValue(String::from_str(s))
        }
    }

    /// Each known value goes with the name the API uses for it: `backup` for `Backup`, `clone` for `Clone`, `create` for `Create`, and so on for every known value.
    /// `to_string` writes that name and `from_name` reads it as that value.
    pub proof fn lemma_api_names()
        ensures
            QemuConfigLock::Backup.name() == "backup"@,
            Self::parses_to("backup"@, QemuConfigLock::Backup),
            QemuConfigLock::Clone.name() == "clone"@,
            Self::parses_to("clone"@, QemuConfigLock::Clone),
            QemuConfigLock::Create.name() == "create"@,
            Self::parses_to("create"@, QemuConfigLock::Create),
            QemuConfigLock::Migrate.name() == "migrate"@,
            Self::parses_to("migrate"@, QemuConfigLock::Migrate),
            QemuConfigLock::Rollback.name() == "rollback"@,
            Self::parses_to("rollback"@, QemuConfigLock::Rollback),
            QemuConfigLock::Snapshot.name() == "snapshot"@,
            Self::parses_to("snapshot"@, QemuConfigLock::Snapshot),
            QemuConfigLock::SnapshotDelete.name() == "snapshot-delete"@,
            Self::parses_to("snapshot-delete"@, QemuConfigLock::SnapshotDelete),
            QemuConfigLock::Suspending.name() == "suspending"@,
            Self::parses_to("suspending"@, QemuConfigLock::Suspending),
            QemuConfigLock::Suspended.name() == "suspended"@,
            Self::parses_to("suspended"@, QemuConfigLock::Suspended),
    {
        Self::lemma_to_string_from_name(QemuConfigLock::Backup);
        Self::lemma_to_string_from_name(QemuConfigLock::Clone);
        Self::lemma_to_string_from_name(QemuConfigLock::Create);
        Self::lemma_to_string_from_name(QemuConfigLock::Migrate);
        Self::lemma_to_string_from_name(QemuConfigLock::Rollback);
        Self::lemma_to_string_from_name(QemuConfigLock::Snapshot);
        Self::lemma_to_string_from_name(QemuConfigLock::SnapshotDelete);
        Self::lemma_to_string_from_name(QemuConfigLock::Suspending);
        Self::lemma_to_string_from_name(QemuConfigLock::Suspended);
    }

    /// Writing out a value that was read gives back the name that was read.
    pub proof fn lemma_from_name_to_string(s: Seq<char>, v: Self)
        requires
            Self::parses_to(s, v),
        ensures
            v.name() == s,
    {
    }

    /// Reading the name of a value gives back the value, unless the value is an
    /// unknown one that carries the name of a known one.
    pub proof fn lemma_to_string_from_name(v: Self)
        requires
            v is UnknownEnumValue ==> Self::known(v.name()) is None,
        ensures
            Self::parses_to(v.name(), v),
    {
        if !(v is UnknownEnumValue) {
            Self::lemma_known_names(v);
        }
    }

    /// The spelling of known names, character by character.
    proof fn lemma_name_spelling()
        ensures
            "backup"@.len() == 6 && "backup"@[0] == 'b' && "backup"@[1] == 'a' && "backup"@[2] == 'c' && "backup"@[3] == 'k' && "backup"@[4] == 'u' && "backup"@[5] == 'p',
            "clone"@.len() == 5 && "clone"@[0] == 'c' && "clone"@[1] == 'l' && "clone"@[2] == 'o' && "clone"@[3] == 'n' && "clone"@[4] == 'e',
            "create"@.len() == 6 && "create"@[0] == 'c' && "create"@[1] == 'r' && "create"@[2] == 'e' && "create"@[3] == 'a' && "create"@[4] == 't' && "create"@[5] == 'e',
            "migrate"@.len() == 7 && "migrate"@[0] == 'm' && "migrate"@[1] == 'i' && "migrate"@[2] == 'g' && "migrate"@[3] == 'r' && "migrate"@[4] == 'a' && "migrate"@[5] == 't' && "migrate"@[6] == 'e',
            "rollback"@.len() == 8 && "rollback"@[0] == 'r' && "rollback"@[1] == 'o' && "rollback"@[2] == 'l' && "rollback"@[3] == 'l' && "rollback"@[4] == 'b' && "rollback"@[5] == 'a' && "rollback"@[6] == 'c' && "rollback"@[7] == 'k',
            "snapshot"@.len() == 8 && "snapshot"@[0] == 's' && "snapshot"@[1] == 'n' && "snapshot"@[2] == 'a' && "snapshot"@[3] == 'p' && "snapshot"@[4] == 's' && "snapshot"@[5] == 'h' && "snapshot"@[6] == 'o' && "snapshot"@[7] == 't',
            "snapshot-delete"@.len() == 15 && "snapshot-delete"@[0] == 's' && "snapshot-delete"@[1] == 'n' && "snapshot-delete"@[2] == 'a' && "snapshot-delete"@[3] == 'p' && "snapshot-delete"@[4] == 's' && "snapshot-delete"@[5] == 'h' && "snapshot-delete"@[6] == 'o' && "snapshot-delete"@[7] == 't' && "snapshot-delete"@[8] == '-' && "snapshot-delete"@[9] == 'd' && "snapshot-delete"@[10] == 'e' && "snapshot-delete"@[11] == 'l' && "snapshot-delete"@[12] == 'e' && "snapshot-delete"@[13] == 't' && "snapshot-delete"@[14] == 'e',
            "suspending"@.len() == 10 && "suspending"@[0] == 's' && "suspending"@[1] == 'u' && "suspending"@[2] == 's' && "suspending"@[3] == 'p' && "suspending"@[4] == 'e' && "suspending"@[5] == 'n' && "suspending"@[6] == 'd' && "suspending"@[7] == 'i' && "suspending"@[8] == 'n' && "suspending"@[9] == 'g',
            "suspended"@.len() == 9 && "suspended"@[0] == 's' && "suspended"@[1] == 'u' && "suspended"@[2] == 's' && "suspended"@[3] == 'p' && "suspended"@[4] == 'e' && "suspended"@[5] == 'n' && "suspended"@[6] == 'd' && "suspended"@[7] == 'e' && "suspended"@[8] == 'd',
    {
        broadcast use vstd::string::group_string_axioms;

        reveal_strlit("backup");
        reveal_strlit("clone");
        reveal_strlit("create");
        reveal_strlit("migrate");
        reveal_strlit("rollback");
        reveal_strlit("snapshot");
        reveal_strlit("snapshot-delete");
        reveal_strlit("suspending");
        reveal_strlit("suspended");
    }

    proof fn lemma_known_names(v: Self)
        requires
            !(v is UnknownEnumValue),
        ensures
            Self::known(v.name()) == Some(v),
    {
        Self::lemma_name_spelling();
    }

}

/// Enable and set guest vIOMMU variant (Intel vIOMMU needs q35 to be set as
/// machine type).
#[derive(Clone, Debug)]
pub enum QemuConfigMachineViommu {
    /// intel.
    Intel,
    /// virtio.
    Virtio,
    /// Unknown variants for forward compatibility.
    UnknownEnumValue(String),
}

impl PartialEq for QemuConfigMachineViommu {
    fn eq(&self, other: &Self) -> (r: bool) {
        match (self, other) {
            (QemuConfigMachineViommu::Intel, QemuConfigMachineViommu::Intel) => true,
            (QemuConfigMachineViommu::Virtio, QemuConfigMachineViommu::Virtio) => true,
            (QemuConfigMachineViommu::UnknownEnumValue(a), QemuConfigMachineViommu::UnknownEnumValue(b)) => *a == *b,
            _ => false,
        }
    }
}

impl PartialEqSpecImpl for QemuConfigMachineViommu {
    open spec fn obeys_eq_spec() -> bool {
        true
    }

    open spec fn eq_spec(&self, other: &Self) -> bool {
        match (self, other) {
            (QemuConfigMachineViommu::UnknownEnumValue(a), QemuConfigMachineViommu::UnknownEnumValue(b)) => a@ == b@,
            _ => *self == *other,
        }
    }
}

impl std::str::FromStr for QemuConfigMachineViommu {
    type Err = core::convert::Infallible;

    fn from_str(s: &str) -> (r: Result<Self, Self::Err>)
        ensures
            r matches Ok(v) && Self::parses_to(s@, v),
    {
        Ok(QemuConfigMachineViommu::from_name(s))
    }
}

impl QemuConfigMachineViommu {
    /// The name under which the API writes this value.
    pub open spec fn name(self) -> Seq<char> {
        match self {
            QemuConfigMachineViommu::Intel => "intel"@,
            QemuConfigMachineViommu::Virtio => "virtio"@,
            QemuConfigMachineViommu::UnknownEnumValue(s) => s@,
        }
    }

    /// The known value that the API name `s` stands for, if any.
    pub open spec fn known(s: Seq<char>) -> Option<Self> {
        if s == "intel"@ {
            Some(QemuConfigMachineViommu::Intel)
        }         else if s == "virtio"@ {
            Some(QemuConfigMachineViommu::Virtio)
        } else {
            None
        }
    }

    /// `v` is the value that reading the API name `s` gives.
    pub open spec fn parses_to(s: Seq<char>, v: Self) -> bool {
        match Self::known(s) {
            Some(k) => v == k,
            None => v matches QemuConfigMachineViommu::UnknownEnumValue(t) && t@ == s,
        }
    }

    /// The API name of this value.
    pub fn to_string(&self) -> (r: String)
        ensures
            r@ == self.name(),
    {
        match self {
            QemuConfigMachineViommu::Intel => String::from_str("intel"),
            QemuConfigMachineViommu::Virtio => String::from_str("virtio"),
            QemuConfigMachineViommu::UnknownEnumValue(s) => s.clone(),
        }
    }

    /// Reads an API name; a name that is not known is kept as an unknown value.
    pub fn from_name(s: &str) -> (r: Self)
        ensures
            Self::parses_to(s@, r),
    {
        if str_eq(s, "intel") {
            QemuConfigMachineViommu::Intel
        }         else if str_eq(s, "virtio") {
            QemuConfigMachineViommu::Virtio
        } else {
            QemuConfigMachineViommu::UnknownEnumValue(String::from_str(s))
        }
    }

    /// Each known value goes with the name the API uses for it: `intel` for `Intel`, `virtio` for `Virtio`.
    /// `to_string` writes that name and `from_name` reads it as that value.
    pub proof fn lemma_api_names()
        ensures
            QemuConfigMachineViommu::Intel.name() == "intel"@,
            Self::parses_to("intel"@, QemuConfigMachineViommu::Intel),
            QemuConfigMachineViommu::Virtio.name() == "virtio"@,
            Self::parses_to("virtio"@, QemuConfigMachineViommu::Virtio),
    {
        Self::lemma_to_string_from_name(QemuConfigMachineViommu::Intel);
        Self::lemma_to_string_from_name(QemuConfigMachineViommu::Virtio);
    }

    /// Writing out a value that was read gives back the name that was read.
    pub proof fn lemma_from_name_to_string(s: Seq<char>, v: Self)
        requires
            Self::parses_to(s, v),
        ensures
            v.name() == s,
    {
    }

    /// Reading the name of a value gives back the value, unless the value is an
    /// unknown one that carries the name of a known one.
    pub proof fn lemma_to_string_from_name(v: Self)
        requires
            v is UnknownEnumValue ==> Self::known(v.name()) is None,
        ensures
            Self::parses_to(v.name(), v),
    {
        if !(v is UnknownEnumValue) {
            Self::lemma_known_names(v);
        }
    }

    /// The spelling of known names, character by character.
    proof fn lemma_name_spelling()
        ensures
            "intel"@.len() == 5 && "intel"@[0] == 'i' && "intel"@[1] == 'n' && "intel"@[2] == 't' && "intel"@[3] == 'e' && "intel"@[4] == 'l',
            "virtio"@.len() == 6 && "virtio"@[0] == 'v' && "virtio"@[1] == 'i' && "virtio"@[2] == 'r' && "virtio"@[3] == 't' && "virtio"@[4] == 'i' && "virtio"@[5] == 'o',
    {
        broadcast use vstd::string::group_string_axioms;

        reveal_strlit("intel");
        reveal_strlit("virtio");
    }

    proof fn lemma_known_names(v: Self)
        requires
            !(v is UnknownEnumValue),
        ensures
            Self::known(v.name()) == Some(v),
    {
        Self::lemma_name_spelling();
    }

}

/// Object.
#[derive(Debug)]
pub struct QemuConfigMemory {
    /// Current amount of online RAM for the VM in MiB. This is the maximum
    /// available memory when you use the balloon device.
    pub current: u64,
}

/// Object.
#[derive(Debug)]
pub struct QemuConfigMeta {
    /// The QEMU (machine) version from the time this VM was created.
    pub creation_qemu: Option<String>,

    /// The guest creation timestamp as UNIX epoch time
    pub ctime: Option<u64>,
}

/// Network Card Model. The 'virtio' model provides the best performance with
/// very low CPU overhead. If your guest does not support this driver, it is
/// usually best to use 'e1000'.
#[derive(Clone, Debug)]
pub enum QemuConfigNetModel {
    /// e1000.
    E1000,
    /// e1000-82540em.
    E100082540em,
    /// e1000-82544gc.
    E100082544gc,
    /// e1000-82545em.
    E100082545em,
    /// e1000e.
    E1000e,
    /// i82551.
    I82551,
    /// i82557b.
    I82557b,
    /// i82559er.
    I82559er,
    /// ne2k_isa.
    Ne2kIsa,
    /// ne2k_pci.
    Ne2kPci,
    /// pcnet.
    Pcnet,
    /// rtl8139.
    Rtl8139,
    /// virtio.
    Virtio,
    /// vmxnet3.
    Vmxnet3,
    /// Unknown variants for forward compatibility.
    UnknownEnumValue(String),
}

impl PartialEq for QemuConfigNetModel {
    fn eq(&self, other: &Self) -> (r: bool) {
        match (self, other) {
            (QemuConfigNetModel::E1000, QemuConfigNetModel::E1000) => true,
            (QemuConfigNetModel::E100082540em, QemuConfigNetModel::E100082540em) => true,
            (QemuConfigNetModel::E100082544gc, QemuConfigNetModel::E100082544gc) => true,
            (QemuConfigNetModel::E100082545em, QemuConfigNetModel::E100082545em) => true,
            (QemuConfigNetModel::E1000e, QemuConfigNetModel::E1000e) => true,
            (QemuConfigNetModel::I82551, QemuConfigNetModel::I82551) => true,
            (QemuConfigNetModel::I82557b, QemuConfigNetModel::I82557b) => true,
            (QemuConfigNetModel::I82559er, QemuConfigNetModel::I82559er) => true,
            (QemuConfigNetModel::Ne2kIsa, QemuConfigNetModel::Ne2kIsa) => true,
            (QemuConfigNetModel::Ne2kPci, QemuConfigNetModel::Ne2kPci) => true,
            (QemuConfigNetModel::Pcnet, QemuConfigNetModel::Pcnet) => true,
            (QemuConfigNetModel::Rtl8139, QemuConfigNetModel::Rtl8139) => true,
            (QemuConfigNetModel::Virtio, QemuConfigNetModel::Virtio) => true,
            (QemuConfigNetModel::Vmxnet3, QemuConfigNetModel::Vmxnet3) => true,
            (QemuConfigNetModel::UnknownEnumValue(a), QemuConfigNetModel::UnknownEnumValue(b)) => *a == *b,
            _ => false,
        }
    }
}

impl PartialEqSpecImpl for QemuConfigNetModel {
    open spec fn obeys_eq_spec() -> bool {
        true
    }

    open spec fn eq_spec(&self, other: &Self) -> bool {
        match (self, other) {
            (QemuConfigNetModel::UnknownEnumValue(a), QemuConfigNetModel::UnknownEnumValue(b)) => a@ == b@,
            _ => *self == *other,
        }
    }
}

impl std::str::FromStr for QemuConfigNetModel {
    type Err = core::convert::Infallible;

    fn from_str(s: &str) -> (r: Result<Self, Self::Err>)
        ensures
            r matches Ok(v) && Self::parses_to(s@, v),
    {
        Ok(QemuConfigNetModel::from_name(s))
    }
}

impl QemuConfigNetModel {
    /// The name under which the API writes this value.
    pub open spec fn name(self) -> Seq<char> {
        match self {
            QemuConfigNetModel::E1000 => "e1000"@,
            QemuConfigNetModel::E100082540em => "e1000-82540em"@,
            QemuConfigNetModel::E100082544gc => "e1000-82544gc"@,
            QemuConfigNetModel::E100082545em => "e1000-82545em"@,
            QemuConfigNetModel::E1000e => "e1000e"@,
            QemuConfigNetModel::I82551 => "i82551"@,
            QemuConfigNetModel::I82557b => "i82557b"@,
            QemuConfigNetModel::I82559er => "i82559er"@,
            QemuConfigNetModel::Ne2kIsa => "ne2k_isa"@,
            QemuConfigNetModel::Ne2kPci => "ne2k_pci"@,
            QemuConfigNetModel::Pcnet => "pcnet"@,
            QemuConfigNetModel::Rtl8139 => "rtl8139"@,
            QemuConfigNetModel::Virtio => "virtio"@,
            QemuConfigNetModel::Vmxnet3 => "vmxnet3"@,
            QemuConfigNetModel::UnknownEnumValue(s) => s@,
        }
    }

    /// The known value that the API name `s` stands for, if any.
    pub open spec fn known(s: Seq<char>) -> Option<Self> {
        if s == "e1000"@ {
            Some(QemuConfigNetModel::E1000)
        }         else if s == "e1000-82540em"@ {
            Some(QemuConfigNetModel::E100082540em)
        }         else if s == "e1000-82544gc"@ {
            Some(QemuConfigNetModel::E100082544gc)
        }         else if s == "e1000-82545em"@ {
            Some(QemuConfigNetModel::E100082545em)
        }         else if s == "e1000e"@ {
            Some(QemuConfigNetModel::E1000e)
        }         else if s == "i82551"@ {
            Some(QemuConfigNetModel::I82551)
        }         else if s == "i82557b"@ {
            Some(QemuConfigNetModel::I82557b)
        }         else if s == "i82559er"@ {
            Some(QemuConfigNetModel::I82559er)
        }         else if s == "ne2k_isa"@ {
            Some(QemuConfigNetModel::Ne2kIsa)
        }         else if s == "ne2k_pci"@ {
            Some(QemuConfigNetModel::Ne2kPci)
        }         else if s == "pcnet"@ {
            Some(QemuConfigNetModel::Pcnet)
        }         else if s == "rtl8139"@ {
            Some(QemuConfigNetModel::Rtl8139)
        }         else if s == "virtio"@ {
            Some(QemuConfigNetModel::Virtio)
        }         else if s == "vmxnet3"@ {
            Some(QemuConfigNetModel::Vmxnet3)
        } else {
            None
        }
    }

    /// `v` is the value that reading the API name `s` gives.
    pub open spec fn parses_to(s: Seq<char>, v: Self) -> bool {
        match Self::known(s) {
            Some(k) => v == k,
            None => v matches QemuConfigNetModel::UnknownEnumValue(t) && t@ == s,
        }
    }

    /// The API name of this value.
    pub fn to_string(&self) -> (r: String)
        ensures
            r@ == self.name(),
    {
        match self {
            QemuConfigNetModel::E1000 => String::from_str("e1000"),
            QemuConfigNetModel::E100082540em => String::from_str("e1000-82540em"),
            QemuConfigNetModel::E100082544gc => String::from_str("e1000-82544gc"),
            QemuConfigNetModel::E100082545em => String::from_str("e1000-82545em"),
            QemuConfigNetModel::E1000e => String::from_str("e1000e"),
            QemuConfigNetModel::I82551 => String::from_str("i82551"),
            QemuConfigNetModel::I82557b => String::from_str("i82557b"),
            QemuConfigNetModel::I82559er => String::from_str("i82559er"),
            QemuConfigNetModel::Ne2kIsa => String::from_str("ne2k_isa"),
            QemuConfigNetModel::Ne2kPci => String::from_str("ne2k_pci"),
            QemuConfigNetModel::Pcnet => String::from_str("pcnet"),
            QemuConfigNetModel::Rtl8139 => String::from_str("rtl8139"),
            QemuConfigNetModel::Virtio => String::from_str("virtio"),
            QemuConfigNetModel::Vmxnet3 => String::from_str("vmxnet3"),
            QemuConfigNetModel::UnknownEnumValue(s) => s.clone(),
        }
    }

    /// Reads an API name; a name that is not known is kept as an unknown value.
    pub fn from_name(s: &str) -> (r: Self)
        ensures
            Self::parses_to(s@, r),
    {
        if str_eq(s, "e1000") {
            QemuConfigNetModel::E1000
        }         else if str_eq(s, "e1000-82540em") {
            QemuConfigNetModel::E100082540em
        }         else if str_eq(s, "e1000-82544gc") {
            QemuConfigNetModel::E100082544gc
        }         else if str_eq(s, "e1000-82545em") {
            QemuConfigNetModel::E100082545em
        }         else if str_eq(s, "e1000e") {
            QemuConfigNetModel::E1000e
        }         else if str_eq(s, "i82551") {
            QemuConfigNetModel::I82551
        }         else if str_eq(s, "i82557b") {
            QemuConfigNetModel::I82557b
        }         else if str_eq(s, "i82559er") {
            QemuConfigNetModel::I82559er
        }         else if str_eq(s, "ne2k_isa") {
            QemuConfigNetModel::Ne2kIsa
        }         else if str_eq(s, "ne2k_pci") {
            QemuConfigNetModel::Ne2kPci
        }         else if str_eq(s, "pcnet") {
            QemuConfigNetModel::Pcnet
        }         else if str_eq(s, "rtl8139") {
            QemuConfigNetModel::Rtl8139
        }         else if str_eq(s, "virtio") {
            QemuConfigNetModel::Virtio
        }         else if str_eq(s, "vmxnet3") {
            QemuConfigNetModel::Vmxnet3
        } else {
            QemuConfigNetModel::UnknownEnumValue(String::from_str(s))
        }
    }

    /// Each known value goes with the name the API uses for it: `e1000` for `E1000`, `e1000-82540em` for `E100082540em`, `e1000-82544gc` for `E100082544gc`, and so on for every known value.
    /// `to_string` writes that name and `from_name` reads it as that value.
    pub proof fn lemma_api_names()
        ensures
            QemuConfigNetModel::E1000.name() == "e1000"@,
            Self::parses_to("e1000"@, QemuConfigNetModel::E1000),
            QemuConfigNetModel::E100082540em.name() == "e1000-82540em"@,
            Self::parses_to("e1000-82540em"@, QemuConfigNetModel::E100082540em),
            QemuConfigNetModel::E100082544gc.name() == "e1000-82544gc"@,
            Self::parses_to("e1000-82544gc"@, QemuConfigNetModel::E100082544gc),
            QemuConfigNetModel::E100082545em.name() == "e1000-82545em"@,
            Self::parses_to("e1000-82545em"@, QemuConfigNetModel::E100082545em),
            QemuConfigNetModel::E1000e.name() == "e1000e"@,
            Self::parses_to("e1000e"@, QemuConfigNetModel::E1000e),
            QemuConfigNetModel::I82551.name() == "i82551"@,
            Self::parses_to("i82551"@, QemuConfigNetModel::I82551),
            QemuConfigNetModel::I82557b.name() == "i82557b"@,
            Self::parses_to("i82557b"@, QemuConfigNetModel::I82557b),
            QemuConfigNetModel::I82559er.name() == "i82559er"@,
            Self::parses_to("i82559er"@, QemuConfigNetModel::I82559er),
            QemuConfigNetModel::Ne2kIsa.name() == "ne2k_isa"@,
            Self::parses_to("ne2k_isa"@, QemuConfigNetModel::Ne2kIsa),
            QemuConfigNetModel::Ne2kPci.name() == "ne2k_pci"@,
            Self::parses_to("ne2k_pci"@, QemuConfigNetModel::Ne2kPci),
            QemuConfigNetModel::Pcnet.name() == "pcnet"@,
            Self::parses_to("pcnet"@, QemuConfigNetModel::Pcnet),
            QemuConfigNetModel::Rtl8139.name() == "rtl8139"@,
            Self::parses_to("rtl8139"@, QemuConfigNetModel::Rtl8139),
            QemuConfigNetModel::Virtio.name() == "virtio"@,
            Self::parses_to("virtio"@, QemuConfigNetModel::Virtio),
            QemuConfigNetModel::Vmxnet3.name() == "vmxnet3"@,
            Self::parses_to("vmxnet3"@, QemuConfigNetModel::Vmxnet3),
    {
        Self::lemma_to_string_from_name(QemuConfigNetModel::E1000);
        Self::lemma_to_string_from_name(QemuConfigNetModel::E100082540em);
        Self::lemma_to_string_from_name(QemuConfigNetModel::E100082544gc);
        Self::lemma_to_string_from_name(QemuConfigNetModel::E100082545em);
        Self::lemma_to_string_from_name(QemuConfigNetModel::E1000e);
        Self::lemma_to_string_from_name(QemuConfigNetModel::I82551);
        Self::lemma_to_string_from_name(QemuConfigNetModel::I82557b);
        Self::lemma_to_string_from_name(QemuConfigNetModel::I82559er);
        Self::lemma_to_string_from_name(QemuConfigNetModel::Ne2kIsa);
        Self::lemma_to_string_from_name(QemuConfigNetModel::Ne2kPci);
        Self::lemma_to_string_from_name(QemuConfigNetModel::Pcnet);
        Self::lemma_to_string_from_name(QemuConfigNetModel::Rtl8139);
        Self::lemma_to_string_from_name(QemuConfigNetModel::Virtio);
        Self::lemma_to_string_from_name(QemuConfigNetModel::Vmxnet3);
    }

    /// Writing out a value that was read gives back the name that was read.
    pub proof fn lemma_from_name_to_string(s: Seq<char>, v: Self)
        requires
            Self::parses_to(s, v),
        ensures
            v.name() == s,
    {
    }

    /// Reading the name of a value gives back the value, unless the value is an
    /// unknown one that carries the name of a known one.
    pub proof fn lemma_to_string_from_name(v: Self)
        requires
            v is UnknownEnumValue ==> Self::known(v.name()) is None,
        ensures
            Self::parses_to(v.name(), v),
    {
        if !(v is UnknownEnumValue) {
            Self::lemma_known_names(v);
        }
    }

    /// The spelling of known names, character by character.
    proof fn lemma_name_spelling()
        ensures
            "e1000"@.len() == 5 && "e1000"@[0] == 'e' && "e1000"@[1] == '1' && "e1000"@[2] == '0' && "e1000"@[3] == '0' && "e1000"@[4] == '0',
            "e1000-82540em"@.len() == 13 && "e1000-82540em"@[0] == 'e' && "e1000-82540em"@[1] == '1' && "e1000-82540em"@[2] == '0' && "e1000-82540em"@[3] == '0' && "e1000-82540em"@[4] == '0' && "e1000-82540em"@[5] == '-' && "e1000-82540em"@[6] == '8' && "e1000-82540em"@[7] == '2' && "e1000-82540em"@[8] == '5' && "e1000-82540em"@[9] == '4' && "e1000-82540em"@[10] == '0' && "e1000-82540em"@[11] == 'e' && "e1000-82540em"@[12] == 'm',
            "e1000-82544gc"@.len() == 13 && "e1000-82544gc"@[0] == 'e' && "e1000-82544gc"@[1] == '1' && "e1000-82544gc"@[2] == '0' && "e1000-82544gc"@[3] == '0' && "e1000-82544gc"@[4] == '0' && "e1000-82544gc"@[5] == '-' && "e1000-82544gc"@[6] == '8' && "e1000-82544gc"@[7] == '2' && "e1000-82544gc"@[8] == '5' && "e1000-82544gc"@[9] == '4' && "e1000-82544gc"@[10] == '4' && "e1000-82544gc"@[11] == 'g' && "e1000-82544gc"@[12] == 'c',
            "e1000-82545em"@.len() == 13 && "e1000-82545em"@[0] == 'e' && "e1000-82545em"@[1] == '1' && "e1000-82545em"@[2] == '0' && "e1000-82545em"@[3] == '0' && "e1000-82545em"@[4] == '0' && "e1000-82545em"@[5] == '-' && "e1000-82545em"@[6] == '8' && "e1000-82545em"@[7] == '2' && "e1000-82545em"@[8] == '5' && "e1000-82545em"@[9] == '4' && "e1000-82545em"@[10] == '5' && "e1000-82545em"@[11] == 'e' && "e1000-82545em"@[12] == 'm',
            "e1000e"@.len() == 6 && "e1000e"@[0] == 'e' && "e1000e"@[1] == '1' && "e1000e"@[2] == '0' && "e1000e"@[3] == '0' && "e1000e"@[4] == '0' && "e1000e"@[5] == 'e',
            "i82551"@.len() == 6 && "i82551"@[0] == 'i' && "i82551"@[1] == '8' && "i82551"@[2] == '2' && "i82551"@[3] == '5' && "i82551"@[4] == '5' && "i82551"@[5] == '1',
            "i82557b"@.len() == 7 && "i82557b"@[0] == 'i' && "i82557b"@[1] == '8' && "i82557b"@[2] == '2' && "i82557b"@[3] == '5' && "i82557b"@[4] == '5' && "i82557b"@[5] == '7' && "i82557b"@[6] == 'b',
            "i82559er"@.len() == 8 && "i82559er"@[0] == 'i' && "i82559er"@[1] == '8' && "i82559er"@[2] == '2' && "i82559er"@[3] == '5' && "i82559er"@[4] == '5' && "i82559er"@[5] == '9' && "i82559er"@[6] == 'e' && "i82559er"@[7] == 'r',
            "ne2k_isa"@.len() == 8 && "ne2k_isa"@[0] == 'n' && "ne2k_isa"@[1] == 'e' && "ne2k_isa"@[2] == '2' && "ne2k_isa"@[3] == 'k' && "ne2k_isa"@[4] == '_' && "ne2k_isa"@[5] == 'i' && "ne2k_isa"@[6] == 's' && "ne2k_isa"@[7] == 'a',
            "ne2k_pci"@.len() == 8 && "ne2k_pci"@[0] == 'n' && "ne2k_pci"@[1] == 'e' && "ne2k_pci"@[2] == '2' && "ne2k_pci"@[3] == 'k' && "ne2k_pci"@[4] == '_' && "ne2k_pci"@[5] == 'p' && "ne2k_pci"@[6] == 'c' && "ne2k_pci"@[7] == 'i',
            "pcnet"@.len() == 5 && "pcnet"@[0] == 'p' && "pcnet"@[1] == 'c' && "pcnet"@[2] == 'n' && "pcnet"@[3] == 'e' && "pcnet"@[4] == 't',
            "rtl8139"@.len() == 7 && "rtl8139"@[0] == 'r' && "rtl8139"@[1] == 't' && "rtl8139"@[2] == 'l' && "rtl8139"@[3] == '8' && "rtl8139"@[4] == '1' && "rtl8139"@[5] == '3' && "rtl8139"@[6] == '9',
            "virtio"@.len() == 6 && "virtio"@[0] == 'v' && "virtio"@[1] == 'i' && "virtio"@[2] == 'r' && "virtio"@[3] == 't' && "virtio"@[4] == 'i' && "virtio"@[5] == 'o',
            "vmxnet3"@.len() == 7 && "vmxnet3"@[0] == 'v' && "vmxnet3"@[1] == 'm' && "vmxnet3"@[2] == 'x' && "vmxnet3"@[3] == 'n' && "vmxnet3"@[4] == 'e' && "vmxnet3"@[5] == 't' && "vmxnet3"@[6] == '3',
    {
        broadcast use vstd::string::group_string_axioms;

        reveal_strlit("e1000");
        reveal_strlit("e1000-82540em");
        reveal_strlit("e1000-82544gc");
        reveal_strlit("e1000-82545em");
        reveal_strlit("e1000e");
        reveal_strlit("i82551");
        reveal_strlit("i82557b");
        reveal_strlit("i82559er");
        reveal_strlit("ne2k_isa");
        reveal_strlit("ne2k_pci");
        reveal_strlit("pcnet");
        reveal_strlit("rtl8139");
        reveal_strlit("virtio");
        reveal_strlit("vmxnet3");
    }

    proof fn lemma_known_names(v: Self)
        requires
            !(v is UnknownEnumValue),
        ensures
            Self::known(v.name()) == Some(v),
    {
        Self::lemma_name_spelling();
    }

}

/// NUMA allocation policy.
#[derive(Clone, Debug)]
pub enum QemuConfigNumaPolicy {
    /// preferred.
    Preferred,
    /// bind.
    Bind,
    /// interleave.
    Interleave,
    /// Unknown variants for forward compatibility.
    UnknownEnumValue(String),
}

impl PartialEq for QemuConfigNumaPolicy {
    fn eq(&self, other: &Self) -> (r: bool) {
        match (self, other) {
            (QemuConfigNumaPolicy::Preferred, QemuConfigNumaPolicy::Preferred) => true,
            (QemuConfigNumaPolicy::Bind, QemuConfigNumaPolicy::Bind) => true,
            (QemuConfigNumaPolicy::Interleave, QemuConfigNumaPolicy::Interleave) => true,
            (QemuConfigNumaPolicy::UnknownEnumValue(a), QemuConfigNumaPolicy::UnknownEnumValue(b)) => *a == *b,
            _ => false,
        }
    }
}

impl PartialEqSpecImpl for QemuConfigNumaPolicy {
    open spec fn obeys_eq_spec() -> bool {
        true
    }

    open spec fn eq_spec(&self, other: &Self) -> bool {
        match (self, other) {
            (QemuConfigNumaPolicy::UnknownEnumValue(a), QemuConfigNumaPolicy::UnknownEnumValue(b)) => a@ == b@,
            _ => *self == *other,
        }
    }
}

impl std::str::FromStr for QemuConfigNumaPolicy {
    type Err = core::convert::Infallible;

    fn from_str(s: &str) -> (r: Result<Self, Self::Err>)
        ensures
            r matches Ok(v) && Self::parses_to(s@, v),
    {
        Ok(QemuConfigNumaPolicy::from_name(s))
    }
}

impl QemuConfigNumaPolicy {
    /// The name under which the API writes this value.
    pub open spec fn name(self) -> Seq<char> {
        match self {
            QemuConfigNumaPolicy::Preferred => "preferred"@,
            QemuConfigNumaPolicy::Bind => "bind"@,
            QemuConfigNumaPolicy::Interleave => "interleave"@,
            QemuConfigNumaPolicy::UnknownEnumValue(s) => s@,
        }
    }

    /// The known value that the API name `s` stands for, if any.
    pub open spec fn known(s: Seq<char>) -> Option<Self> {
        if s == "preferred"@ {
            Some(QemuConfigNumaPolicy::Preferred)
        }         else if s == "bind"@ {
            Some(QemuConfigNumaPolicy::Bind)
        }         else if s == "interleave"@ {
            Some(QemuConfigNumaPolicy::Interleave)
        } else {
            None
        }
    }

    /// `v` is the value that reading the API name `s` gives.
    pub open spec fn parses_to(s: Seq<char>, v: Self) -> bool {
        match Self::known(s) {
            Some(k) => v == k,
            None => v matches QemuConfigNumaPolicy::UnknownEnumValue(t) && t@ == s,
        }
    }

    /// The API name of this value.
    pub fn to_string(&self) -> (r: String)
        ensures
            r@ == self.name(),
    {
        match self {
            QemuConfigNumaPolicy::Preferred => String::from_str("preferred"),
            QemuConfigNumaPolicy::Bind => String::from_str("bind"),
            QemuConfigNumaPolicy::Interleave => String::from_str("interleave"),
            QemuConfigNumaPolicy::UnknownEnumValue(s) => s.clone(),
        }
    }

    /// Reads an API name; a name that is not known is kept as an unknown value.
    pub fn from_name(s: &str) -> (r: Self)
        ensures
            Self::parses_to(s@, r),
    {
        if str_eq(s, "preferred") {
            QemuConfigNumaPolicy::Preferred
        }         else if str_eq(s, "bind") {
            QemuConfigNumaPolicy::Bind
        }         else if str_eq(s, "interleave") {
            QemuConfigNumaPolicy::Interleave
        } else {
            QemuConfigNumaPolicy::UnknownEnumValue(String::from_str(s))
        }
    }

    /// Each known value goes with the name the API uses for it: `preferred` for `Preferred`, `bind` for `Bind`, `interleave` for `Interleave`.
    /// `to_string` writes that name and `from_name` reads it as that value.
    pub proof fn lemma_api_names()
        ensures
            QemuConfigNumaPolicy::Preferred.name() == "preferred"@,
            Self::parses_to("preferred"@, QemuConfigNumaPolicy::Preferred),
            QemuConfigNumaPolicy::Bind.name() == "bind"@,
            Self::parses_to("bind"@, QemuConfigNumaPolicy::Bind),
            QemuConfigNumaPolicy::Interleave.name() == "interleave"@,
            Self::parses_to("interleave"@, QemuConfigNumaPolicy::Interleave),
    {
        Self::lemma_to_string_from_name(QemuConfigNumaPolicy::Preferred);
        Self::lemma_to_string_from_name(QemuConfigNumaPolicy::Bind);
        Self::lemma_to_string_from_name(QemuConfigNumaPolicy::Interleave);
    }

    /// Writing out a value that was read gives back the name that was read.
    pub proof fn lemma_from_name_to_string(s: Seq<char>, v: Self)
        requires
            Self::parses_to(s, v),
        ensures
            v.name() == s,
    {
    }

    /// Reading the name of a value gives back the value, unless the value is an
    /// unknown one that carries the name of a known one.
    pub proof fn lemma_to_string_from_name(v: Self)
        requires
            v is UnknownEnumValue ==> Self::known(v.name()) is None,
        ensures
            Self::parses_to(v.name(), v),
    {
        if !(v is UnknownEnumValue) {
            Self::lemma_known_names(v);
        }
    }

    /// The spelling of known names, character by character.
    proof fn lemma_name_spelling()
        ensures
            "preferred"@.len() == 9 && "preferred"@[0] == 'p' && "preferred"@[1] == 'r' && "preferred"@[2] == 'e' && "preferred"@[3] == 'f' && "preferred"@[4] == 'e' && "preferred"@[5] == 'r' && "preferred"@[6] == 'r' && "preferred"@[7] == 'e' && "preferred"@[8] == 'd',
            "bind"@.len() == 4 && "bind"@[0] == 'b' && "bind"@[1] == 'i' && "bind"@[2] == 'n' && "bind"@[3] == 'd',
            "interleave"@.len() == 10 && "interleave"@[0] == 'i' && "interleave"@[1] == 'n' && "interleave"@[2] == 't' && "interleave"@[3] == 'e' && "interleave"@[4] == 'r' && "interleave"@[5] == 'l' && "interleave"@[6] == 'e' && "interleave"@[7] == 'a' && "interleave"@[8] == 'v' && "interleave"@[9] == 'e',
    {
        broadcast use vstd::string::group_string_axioms;

        reveal_strlit("preferred");
        reveal_strlit("bind");
        reveal_strlit("interleave");
    }

    proof fn lemma_known_names(v: Self)
        requires
            !(v is UnknownEnumValue),
        ensures
            Self::known(v.name()) == Some(v),
    {
        Self::lemma_name_spelling();
    }

}

/// Specify guest operating system.
#[derive(Clone, Debug)]
pub enum QemuConfigOstype {
    /// other.
    Other,
    /// wxp.
    Wxp,
    /// w2k.
    W2k,
    /// w2k3.
    W2k3,
    /// w2k8.
    W2k8,
    /// wvista.
    Wvista,
    /// win7.
    Win7,
    /// win8.
    Win8,
    /// win10.
    Win10,
    /// win11.
    Win11,
    /// l24.
    L24,
    /// l26.
    L26,
    /// solaris.
    Solaris,
    /// Unknown variants for forward compatibility.
    UnknownEnumValue(String),
}

impl PartialEq for QemuConfigOstype {
    fn eq(&self, other: &Self) -> (r: bool) {
        match (self, other) {
            (QemuConfigOstype::Other, QemuConfigOstype::Other) => true,
            (QemuConfigOstype::Wxp, QemuConfigOstype::Wxp) => true,
            (QemuConfigOstype::W2k, QemuConfigOstype::W2k) => true,
            (QemuConfigOstype::W2k3, QemuConfigOstype::W2k3) => true,
            (QemuConfigOstype::W2k8, QemuConfigOstype::W2k8) => true,
            (QemuConfigOstype::Wvista, QemuConfigOstype::Wvista) => true,
            (QemuConfigOstype::Win7, QemuConfigOstype::Win7) => true,
            (QemuConfigOstype::Win8, QemuConfigOstype::Win8) => true,
            (QemuConfigOstype::Win10, QemuConfigOstype::Win10) => true,
            (QemuConfigOstype::Win11, QemuConfigOstype::Win11) => true,
            (QemuConfigOstype::L24, QemuConfigOstype::L24) => true,
            (QemuConfigOstype::L26, QemuConfigOstype::L26) => true,
            (QemuConfigOstype::Solaris, QemuConfigOstype::Solaris) => true,
            (QemuConfigOstype::UnknownEnumValue(a), QemuConfigOstype::UnknownEnumValue(b)) => *a == *b,
            _ => false,
        }
    }
}

impl PartialEqSpecImpl for QemuConfigOstype {
    open spec fn obeys_eq_spec() -> bool {
        true
    }

    open spec fn eq_spec(&self, other: &Self) -> bool {
        match (self, other) {
            (QemuConfigOstype::UnknownEnumValue(a), QemuConfigOstype::UnknownEnumValue(b)) => a@ == b@,
            _ => *self == *other,
        }
    }
}

impl Default for QemuConfigOstype {
    fn default() -> (r: Self)
        ensures
            r == QemuConfigOstype::Other,
    {
        QemuConfigOstype::Other
    }
}

impl std::str::FromStr for QemuConfigOstype {
    type Err = core::convert::Infallible;

    fn from_str(s: &str) -> (r: Result<Self, Self::Err>)
        ensures
            r matches Ok(v) && Self::parses_to(s@, v),
    {
        Ok(QemuConfigOstype::from_name(s))
    }
}

impl QemuConfigOstype {
    /// The name under which the API writes this value.
    pub open spec fn name(self) -> Seq<char> {
        match self {
            QemuConfigOstype::Other => "other"@,
            QemuConfigOstype::Wxp => "wxp"@,
            QemuConfigOstype::W2k => "w2k"@,
            QemuConfigOstype::W2k3 => "w2k3"@,
            QemuConfigOstype::W2k8 => "w2k8"@,
            QemuConfigOstype::Wvista => "wvista"@,
            QemuConfigOstype::Win7 => "win7"@,
            QemuConfigOstype::Win8 => "win8"@,
            QemuConfigOstype::Win10 => "win10"@,
            QemuConfigOstype::Win11 => "win11"@,
            QemuConfigOstype::L24 => "l24"@,
            QemuConfigOstype::L26 => "l26"@,
            QemuConfigOstype::Solaris => "solaris"@,
            QemuConfigOstype::UnknownEnumValue(s) => s@,
        }
    }

    /// The known value that the API name `s` stands for, if any.
    pub open spec fn known(s: Seq<char>) -> Option<Self> {
        if s == "other"@ {
            Some(QemuConfigOstype::Other)
        }         else if s == "wxp"@ {
            Some(QemuConfigOstype::Wxp)
        }         else if s == "w2k"@ {
            Some(QemuConfigOstype::W2k)
        }         else if s == "w2k3"@ {
            Some(QemuConfigOstype::W2k3)
        }         else if s == "w2k8"@ {
            Some(QemuConfigOstype::W2k8)
        }         else if s == "wvista"@ {
            Some(QemuConfigOstype::Wvista)
        }         else if s == "win7"@ {
            Some(QemuConfigOstype::Win7)
        }         else if s == "win8"@ {
            Some(QemuConfigOstype::Win8)
        }         else if s == "win10"@ {
            Some(QemuConfigOstype::Win10)
        }         else if s == "win11"@ {
            Some(QemuConfigOstype::Win11)
        }         else if s == "l24"@ {
            Some(QemuConfigOstype::L24)
        }         else if s == "l26"@ {
            Some(QemuConfigOstype::L26)
        }         else if s == "solaris"@ {
            Some(QemuConfigOstype::Solaris)
        } else {
            None
        }
    }

    /// `v` is the value that reading the API name `s` gives.
    pub open spec fn parses_to(s: Seq<char>, v: Self) -> bool {
        match Self::known(s) {
            Some(k) => v == k,
            None => v matches QemuConfigOstype::UnknownEnumValue(t) && t@ == s,
        }
    }

    /// The API name of this value.
    pub fn to_string(&self) -> (r: String)
        ensures
            r@ == self.name(),
    {
        match self {
            QemuConfigOstype::Other => String::from_str("other"),
            QemuConfigOstype::Wxp => String::from_str("wxp"),
            QemuConfigOstype::W2k => String::from_str("w2k"),
            QemuConfigOstype::W2k3 => String::from_str("w2k3"),
            QemuConfigOstype::W2k8 => String::from_str("w2k8"),
            QemuConfigOstype::Wvista => String::from_str("wvista"),
            QemuConfigOstype::Win7 => String::from_str("win7"),
            QemuConfigOstype::Win8 => String::from_str("win8"),
            QemuConfigOstype::Win10 => String::from_str("win10"),
            QemuConfigOstype::Win11 => String::from_str("win11"),
            QemuConfigOstype::L24 => String::from_str("l24"),
            QemuConfigOstype::L26 => String::from_str("l26"),
            QemuConfigOstype::Solaris => String::from_str("solaris"),
            QemuConfigOstype::UnknownEnumValue(s) => s.clone(),
        }
    }

    /// Reads an API name; a name that is not known is kept as an unknown value.
    pub fn from_name(s: &str) -> (r: Self)
        ensures
            Self::parses_to(s@, r),
    {
        if str_eq(s, "other") {
            QemuConfigOstype::Other
        }         else if str_eq(s, "wxp") {
            QemuConfigOstype::Wxp
        }         else if str_eq(s, "w2k") {
            QemuConfigOstype::W2k
        }         else if str_eq(s, "w2k3") {
            QemuConfigOstype::W2k3
        }         else if str_eq(s, "w2k8") {
            QemuConfigOstype::W2k8
        }         else if str_eq(s, "wvista") {
            QemuConfigOstype::Wvista
        }         else if str_eq(s, "win7") {
            QemuConfigOstype::Win7
        }         else if str_eq(s, "win8") {
            QemuConfigOstype::Win8
        }         else if str_eq(s, "win10") {
            QemuConfigOstype::Win10
        }         else if str_eq(s, "win11") {
            QemuConfigOstype::Win11
        }         else if str_eq(s, "l24") {
            QemuConfigOstype::L24
        }         else if str_eq(s, "l26") {
            QemuConfigOstype::L26
        }         else if str_eq(s, "solaris") {
            QemuConfigOstype::Solaris
        } else {
            QemuConfigOstype::UnknownEnumValue(String::from_str(s))
        }
    }

    /// Each known value goes with the name the API uses for it: `other` for `Other`, `wxp` for `Wxp`, `w2k` for `W2k`, and so on for every known value.
    /// `to_string` writes that name and `from_name` reads it as that value.
    pub proof fn lemma_api_names()
        ensures
            QemuConfigOstype::Other.name() == "other"@,
            Self::parses_to("other"@, QemuConfigOstype::Other),
            QemuConfigOstype::Wxp.name() == "wxp"@,
            Self::parses_to("wxp"@, QemuConfigOstype::Wxp),
            QemuConfigOstype::W2k.name() == "w2k"@,
            Self::parses_to("w2k"@, QemuConfigOstype::W2k),
            QemuConfigOstype::W2k3.name() == "w2k3"@,
            Self::parses_to("w2k3"@, QemuConfigOstype::W2k3),
            QemuConfigOstype::W2k8.name() == "w2k8"@,
            Self::parses_to("w2k8"@, QemuConfigOstype::W2k8),
            QemuConfigOstype::Wvista.name() == "wvista"@,
            Self::parses_to("wvista"@, QemuConfigOstype::Wvista),
            QemuConfigOstype::Win7.name() == "win7"@,
            Self::parses_to("win7"@, QemuConfigOstype::Win7),
            QemuConfigOstype::Win8.name() == "win8"@,
            Self::parses_to("win8"@, QemuConfigOstype::Win8),
            QemuConfigOstype::Win10.name() == "win10"@,
            Self::parses_to("win10"@, QemuConfigOstype::Win10),
            QemuConfigOstype::Win11.name() == "win11"@,
            Self::parses_to("win11"@, QemuConfigOstype::Win11),
            QemuConfigOstype::L24.name() == "l24"@,
            Self::parses_to("l24"@, QemuConfigOstype::L24),
            QemuConfigOstype::L26.name() == "l26"@,
            Self::parses_to("l26"@, QemuConfigOstype::L26),
            QemuConfigOstype::Solaris.name() == "solaris"@,
            Self::parses_to("solaris"@, QemuConfigOstype::Solaris),
    {
        Self::lemma_to_string_from_name(QemuConfigOstype::Other);
        Self::lemma_to_string_from_name(QemuConfigOstype::Wxp);
        Self::lemma_to_string_from_name(QemuConfigOstype::W2k);
        Self::lemma_to_string_from_name(QemuConfigOstype::W2k3);
        Self::lemma_to_string_from_name(QemuConfigOstype::W2k8);
        Self::lemma_to_string_from_name(QemuConfigOstype::Wvista);
        Self::lemma_to_string_from_name(QemuConfigOstype::Win7);
        Self::lemma_to_string_from_name(QemuConfigOstype::Win8);
        Self::lemma_to_string_from_name(QemuConfigOstype::Win10);
        Self::lemma_to_string_from_name(QemuConfigOstype::Win11);
        Self::lemma_to_string_from_name(QemuConfigOstype::L24);
        Self::lemma_to_string_from_name(QemuConfigOstype::L26);
        Self::lemma_to_string_from_name(QemuConfigOstype::Solaris);
    }

    /// Writing out a value that was read gives back the name that was read.
    pub proof fn lemma_from_name_to_string(s: Seq<char>, v: Self)
        requires
            Self::parses_to(s, v),
        ensures
            v.name() == s,
    {
    }

    /// Reading the name of a value gives back the value, unless the value is an
    /// unknown one that carries the name of a known one.
    pub proof fn lemma_to_string_from_name(v: Self)
        requires
            v is UnknownEnumValue ==> Self::known(v.name()) is None,
        ensures
            Self::parses_to(v.name(), v),
    {
        if !(v is UnknownEnumValue) {
            Self::lemma_known_names(v);
        }
    }

    /// The spelling of known names, character by character.
    proof fn lemma_name_spelling()
        ensures
            "other"@.len() == 5 && "other"@[0] == 'o' && "other"@[1] == 't' && "other"@[2] == 'h' && "other"@[3] == 'e' && "other"@[4] == 'r',
            "wxp"@.len() == 3 && "wxp"@[0] == 'w' && "wxp"@[1] == 'x' && "wxp"@[2] == 'p',
            "w2k"@.len() == 3 && "w2k"@[0] == 'w' && "w2k"@[1] == '2' && "w2k"@[2] == 'k',
            "w2k3"@.len() == 4 && "w2k3"@[0] == 'w' && "w2k3"@[1] == '2' && "w2k3"@[2] == 'k' && "w2k3"@[3] == '3',
            "w2k8"@.len() == 4 && "w2k8"@[0] == 'w' && "w2k8"@[1] == '2' && "w2k8"@[2] == 'k' && "w2k8"@[3] == '8',
            "wvista"@.len() == 6 && "wvista"@[0] == 'w' && "wvista"@[1] == 'v' && "wvista"@[2] == 'i' && "wvista"@[3] == 's' && "wvista"@[4] == 't' && "wvista"@[5] == 'a',
            "win7"@.len() == 4 && "win7"@[0] == 'w' && "win7"@[1] == 'i' && "win7"@[2] == 'n' && "win7"@[3] == '7',
            "win8"@.len() == 4 && "win8"@[0] == 'w' && "win8"@[1] == 'i' && "win8"@[2] == 'n' && "win8"@[3] == '8',
            "win10"@.len() == 5 && "win10"@[0] == 'w' && "win10"@[1] == 'i' && "win10"@[2] == 'n' && "win10"@[3] == '1' && "win10"@[4] == '0',
            "win11"@.len() == 5 && "win11"@[0] == 'w' && "win11"@[1] == 'i' && "win11"@[2] == 'n' && "win11"@[3] == '1' && "win11"@[4] == '1',
            "l24"@.len() == 3 && "l24"@[0] == 'l' && "l24"@[1] == '2' && "l24"@[2] == '4',
            "l26"@.len() == 3 && "l26"@[0] == 'l' && "l26"@[1] == '2' && "l26"@[2] == '6',
            "solaris"@.len() == 7 && "solaris"@[0] == 's' && "solaris"@[1] == 'o' && "solaris"@[2] == 'l' && "solaris"@[3] == 'a' && "solaris"@[4] == 'r' && "solaris"@[5] == 'i' && "solaris"@[6] == 's',
    {
        broadcast use vstd::string::group_string_axioms;

        reveal_strlit("other");
        reveal_strlit("wxp");
        reveal_strlit("w2k");
        reveal_strlit("w2k3");
        reveal_strlit("w2k8");
        reveal_strlit("wvista");
        reveal_strlit("win7");
        reveal_strlit("win8");
        reveal_strlit("win10");
        reveal_strlit("win11");
        reveal_strlit("l24");
        reveal_strlit("l26");
        reveal_strlit("solaris");
    }

    proof fn lemma_known_names(v: Self)
        requires
            !(v is UnknownEnumValue),
        ensures
            Self::known(v.name()) == Some(v),
    {
        Self::lemma_name_spelling();
    }

}

/// SCSI controller model
#[derive(Clone, Debug)]
pub enum QemuConfigScsihw {
    /// lsi.
    Lsi,
    /// lsi53c810.
    Lsi53c810,
    /// virtio-scsi-pci.
    VirtioScsiPci,
    /// virtio-scsi-single.
    VirtioScsiSingle,
    /// megasas.
    Megasas,
    /// pvscsi.
    Pvscsi,
    /// Unknown variants for forward compatibility.
    UnknownEnumValue(String),
}

impl PartialEq for QemuConfigScsihw {
    fn eq(&self, other: &Self) -> (r: bool) {
        match (self, other) {
            (QemuConfigScsihw::Lsi, QemuConfigScsihw::Lsi) => true,
            (QemuConfigScsihw::Lsi53c810, QemuConfigScsihw::Lsi53c810) => true,
            (QemuConfigScsihw::VirtioScsiPci, QemuConfigScsihw::VirtioScsiPci) => true,
            (QemuConfigScsihw::VirtioScsiSingle, QemuConfigScsihw::VirtioScsiSingle) => true,
            (QemuConfigScsihw::Megasas, QemuConfigScsihw::Megasas) => true,
            (QemuConfigScsihw::Pvscsi, QemuConfigScsihw::Pvscsi) => true,
            (QemuConfigScsihw::UnknownEnumValue(a), QemuConfigScsihw::UnknownEnumValue(b)) => *a == *b,
            _ => false,
        }
    }
}

impl PartialEqSpecImpl for QemuConfigScsihw {
    open spec fn obeys_eq_spec() -> bool {
        true
    }

    open spec fn eq_spec(&self, other: &Self) -> bool {
        match (self, other) {
            (QemuConfigScsihw::UnknownEnumValue(a), QemuConfigScsihw::UnknownEnumValue(b)) => a@ == b@,
            _ => *self == *other,
        }
    }
}

impl Default for QemuConfigScsihw {
    fn default() -> (r: Self)
        ensures
            r == QemuConfigScsihw::Lsi,
    {
        QemuConfigScsihw::Lsi
    }
}

impl std::str::FromStr for QemuConfigScsihw {
    type Err = core::convert::Infallible;

    fn from_str(s: &str) -> (r: Result<Self, Self::Err>)
        ensures
            r matches Ok(v) && Self::parses_to(s@, v),
    {
        Ok(QemuConfigScsihw::from_name(s))
    }
}

impl QemuConfigScsihw {
    /// The name under which the API writes this value.
    pub open spec fn name(self) -> Seq<char> {
        match self {
            QemuConfigScsihw::Lsi => "lsi"@,
            QemuConfigScsihw::Lsi53c810 => "lsi53c810"@,
            QemuConfigScsihw::VirtioScsiPci => "virtio-scsi-pci"@,
            QemuConfigScsihw::VirtioScsiSingle => "virtio-scsi-single"@,
            QemuConfigScsihw::Megasas => "megasas"@,
            QemuConfigScsihw::Pvscsi => "pvscsi"@,
            QemuConfigScsihw::UnknownEnumValue(s) => s@,
        }
    }

    /// The known value that the API name `s` stands for, if any.
    pub open spec fn known(s: Seq<char>) -> Option<Self> {
        if s == "lsi"@ {
            Some(QemuConfigScsihw::Lsi)
        }         else if s == "lsi53c810"@ {
            Some(QemuConfigScsihw::Lsi53c810)
        }         else if s == "virtio-scsi-pci"@ {
            Some(QemuConfigScsihw::VirtioScsiPci)
        }         else if s == "virtio-scsi-single"@ {
            Some(QemuConfigScsihw::VirtioScsiSingle)
        }         else if s == "megasas"@ {
            Some(QemuConfigScsihw::Megasas)
        }         else if s == "pvscsi"@ {
            Some(QemuConfigScsihw::Pvscsi)
        } else {
            None
        }
    }

    /// `v` is the value that reading the API name `s` gives.
    pub open spec fn parses_to(s: Seq<char>, v: Self) -> bool {
        match Self::known(s) {
            Some(k) => v == k,
            None => v matches QemuConfigScsihw::UnknownEnumValue(t) && t@ == s,
        }
    }

    /// The API name of this value.
    pub fn to_string(&self) -> (r: String)
        ensures
            r@ == self.name(),
    {
        match self {
            QemuConfigScsihw::Lsi => String::from_str("lsi"),
            QemuConfigScsihw::Lsi53c810 => String::from_str("lsi53c810"),
            QemuConfigScsihw::VirtioScsiPci => String::from_str("virtio-scsi-pci"),
            QemuConfigScsihw::VirtioScsiSingle => String::from_str("virtio-scsi-single"),
            QemuConfigScsihw::Megasas => String::from_str("megasas"),
            QemuConfigScsihw::Pvscsi => String::from_str("pvscsi"),
            QemuConfigScsihw::UnknownEnumValue(s) => s.clone(),
        }
    }

    /// Reads an API name; a name that is not known is kept as an unknown value.
    pub fn from_name(s: &str) -> (r: Self)
        ensures
            Self::parses_to(s@, r),
    {
        if str_eq(s, "lsi") {
            QemuConfigScsihw::Lsi
        }         else if str_eq(s, "lsi53c810") {
            QemuConfigScsihw::Lsi53c810
        }         else if str_eq(s, "virtio-scsi-pci") {
            QemuConfigScsihw::VirtioScsiPci
        }         else if str_eq(s, "virtio-scsi-single") {
            QemuConfigScsihw::VirtioScsiSingle
        }         else if str_eq(s, "megasas") {
            QemuConfigScsihw::Megasas
        }         else if str_eq(s, "pvscsi") {
            QemuConfigScsihw::Pvscsi
        } else {
            QemuConfigScsihw::UnknownEnumValue(String::from_str(s))
        }
    }

    /// Each known value goes with the name the API uses for it: `lsi` for `Lsi`, `lsi53c810` for `Lsi53c810`, `virtio-scsi-pci` for `VirtioScsiPci`, and so on for every known value.
    /// `to_string` writes that name and `from_name` reads it as that value.
    pub proof fn lemma_api_names()
        ensures
            QemuConfigScsihw::Lsi.name() == "lsi"@,
            Self::parses_to("lsi"@, QemuConfigScsihw::Lsi),
            QemuConfigScsihw::Lsi53c810.name() == "lsi53c810"@,
            Self::parses_to("lsi53c810"@, QemuConfigScsihw::Lsi53c810),
            QemuConfigScsihw::VirtioScsiPci.name() == "virtio-scsi-pci"@,
            Self::parses_to("virtio-scsi-pci"@, QemuConfigScsihw::VirtioScsiPci),
            QemuConfigScsihw::VirtioScsiSingle.name() == "virtio-scsi-single"@,
            Self::parses_to("virtio-scsi-single"@, QemuConfigScsihw::VirtioScsiSingle),
            QemuConfigScsihw::Megasas.name() == "megasas"@,
            Self::parses_to("megasas"@, QemuConfigScsihw::Megasas),
            QemuConfigScsihw::Pvscsi.name() == "pvscsi"@,
            Self::parses_to("pvscsi"@, QemuConfigScsihw::Pvscsi),
    {
        Self::lemma_to_string_from_name(QemuConfigScsihw::Lsi);
        Self::lemma_to_string_from_name(QemuConfigScsihw::Lsi53c810);
        Self::lemma_to_string_from_name(QemuConfigScsihw::VirtioScsiPci);
        Self::lemma_to_string_from_name(QemuConfigScsihw::VirtioScsiSingle);
        Self::lemma_to_string_from_name(QemuConfigScsihw::Megasas);
        Self::lemma_to_string_from_name(QemuConfigScsihw::Pvscsi);
    }

    /// Writing out a value that was read gives back the name that was read.
    pub proof fn lemma_from_name_to_string(s: Seq<char>, v: Self)
        requires
            Self::parses_to(s, v),
        ensures
            v.name() == s,
    {
    }

    /// Reading the name of a value gives back the value, unless the value is an
    /// unknown one that carries the name of a known one.
    pub proof fn lemma_to_string_from_name(v: Self)
        requires
            v is UnknownEnumValue ==> Self::known(v.name()) is None,
        ensures
            Self::parses_to(v.name(), v),
    {
        if !(v is UnknownEnumValue) {
            Self::lemma_known_names(v);
        }
    }

    /// The spelling of known names, character by character.
    proof fn lemma_name_spelling()
        ensures
            "lsi"@.len() == 3 && "lsi"@[0] == 'l' && "lsi"@[1] == 's' && "lsi"@[2] == 'i',
            "lsi53c810"@.len() == 9 && "lsi53c810"@[0] == 'l' && "lsi53c810"@[1] == 's' && "lsi53c810"@[2] == 'i' && "lsi53c810"@[3] == '5' && "lsi53c810"@[4] == '3' && "lsi53c810"@[5] == 'c' && "lsi53c810"@[6] == '8' && "lsi53c810"@[7] == '1' && "lsi53c810"@[8] == '0',
            "virtio-scsi-pci"@.len() == 15 && "virtio-scsi-pci"@[0] == 'v' && "virtio-scsi-pci"@[1] == 'i' && "virtio-scsi-pci"@[2] == 'r' && "virtio-scsi-pci"@[3] == 't' && "virtio-scsi-pci"@[4] == 'i' && "virtio-scsi-pci"@[5] == 'o' && "virtio-scsi-pci"@[6] == '-' && "virtio-scsi-pci"@[7] == 's' && "virtio-scsi-pci"@[8] == 'c' && "virtio-scsi-pci"@[9] == 's' && "virtio-scsi-pci"@[10] == 'i' && "virtio-scsi-pci"@[11] == '-' && "virtio-scsi-pci"@[12] == 'p' && "virtio-scsi-pci"@[13] == 'c' && "virtio-scsi-pci"@[14] == 'i',
            "virtio-scsi-single"@.len() == 18 && "virtio-scsi-single"@[0] == 'v' && "virtio-scsi-single"@[1] == 'i' && "virtio-scsi-single"@[2] == 'r' && "virtio-scsi-single"@[3] == 't' && "virtio-scsi-single"@[4] == 'i' && "virtio-scsi-single"@[5] == 'o' && "virtio-scsi-single"@[6] == '-' && "virtio-scsi-single"@[7] == 's' && "virtio-scsi-single"@[8] == 'c' && "virtio-scsi-single"@[9] == 's' && "virtio-scsi-single"@[10] == 'i' && "virtio-scsi-single"@[11] == '-' && "virtio-scsi-single"@[12] == 's' && "virtio-scsi-single"@[13] == 'i' && "virtio-scsi-single"@[14] == 'n' && "virtio-scsi-single"@[15] == 'g' && "virtio-scsi-single"@[16] == 'l' && "virtio-scsi-single"@[17] == 'e',
            "megasas"@.len() == 7 && "megasas"@[0] == 'm' && "megasas"@[1] == 'e' && "megasas"@[2] == 'g' && "megasas"@[3] == 'a' && "megasas"@[4] == 's' && "megasas"@[5] == 'a' && "megasas"@[6] == 's',
            "pvscsi"@.len() == 6 && "pvscsi"@[0] == 'p' && "pvscsi"@[1] == 'v' && "pvscsi"@[2] == 's' && "pvscsi"@[3] == 'c' && "pvscsi"@[4] == 's' && "pvscsi"@[5] == 'i',
    {
        broadcast use vstd::string::group_string_axioms;

        reveal_strlit("lsi");
        reveal_strlit("lsi53c810");
        reveal_strlit("virtio-scsi-pci");
        reveal_strlit("virtio-scsi-single");
        reveal_strlit("megasas");
        reveal_strlit("pvscsi");
    }

    proof fn lemma_known_names(v: Self)
        requires
            !(v is UnknownEnumValue),
        ensures
            Self::known(v.name()) == Some(v),
    {
        Self::lemma_name_spelling();
    }

}

/// Object.
#[derive(Debug)]
pub struct QemuConfigSpiceEnhancements {
    /// Enable folder sharing via SPICE. Needs Spice-WebDAV daemon installed in
    /// the VM.
    pub foldersharing: Option<bool>,

    pub videostreaming: Option<QemuConfigSpiceEnhancementsVideostreaming>,
}

/// Enable video streaming. Uses compression for detected video streams.
#[derive(Clone, Debug)]
pub enum QemuConfigSpiceEnhancementsVideostreaming {
    /// off.
    Off,
    /// all.
    All,
    /// filter.
    Filter,
    /// Unknown variants for forward compatibility.
    UnknownEnumValue(String),
}

impl PartialEq for QemuConfigSpiceEnhancementsVideostreaming {
    fn eq(&self, other: &Self) -> (r: bool) {
        match (self, other) {
            (QemuConfigSpiceEnhancementsVideostreaming::Off, QemuConfigSpiceEnhancementsVideostreaming::Off) => true,
            (QemuConfigSpiceEnhancementsVideostreaming::All, QemuConfigSpiceEnhancementsVideostreaming::All) => true,
            (QemuConfigSpiceEnhancementsVideostreaming::Filter, QemuConfigSpiceEnhancementsVideostreaming::Filter) => true,
            (QemuConfigSpiceEnhancementsVideostreaming::UnknownEnumValue(a), QemuConfigSpiceEnhancementsVideostreaming::UnknownEnumValue(b)) => *a == *b,
            _ => false,
        }
    }
}

impl PartialEqSpecImpl for QemuConfigSpiceEnhancementsVideostreaming {
    open spec fn obeys_eq_spec() -> bool {
        true
    }

    open spec fn eq_spec(&self, other: &Self) -> bool {
        match (self, other) {
            (QemuConfigSpiceEnhancementsVideostreaming::UnknownEnumValue(a), QemuConfigSpiceEnhancementsVideostreaming::UnknownEnumValue(b)) => a@ == b@,
            _ => *self == *other,
        }
    }
}

impl Default for QemuConfigSpiceEnhancementsVideostreaming {
    fn default() -> (r: Self)
        ensures
            r == QemuConfigSpiceEnhancementsVideostreaming::Off,
    {
        QemuConfigSpiceEnhancementsVideostreaming::Off
    }
}

impl std::str::FromStr for QemuConfigSpiceEnhancementsVideostreaming {
    type Err = core::convert::Infallible;

    fn from_str(s: &str) -> (r: Result<Self, Self::Err>)
        ensures
            r matches Ok(v) && Self::parses_to(s@, v),
    {
        Ok(QemuConfigSpiceEnhancementsVideostreaming::from_name(s))
    }
}

impl QemuConfigSpiceEnhancementsVideostreaming {
    /// The name under which the API writes this value.
    pub open spec fn name(self) -> Seq<char> {
        match self {
            QemuConfigSpiceEnhancementsVideostreaming::Off => "off"@,
            QemuConfigSpiceEnhancementsVideostreaming::All => "all"@,
            QemuConfigSpiceEnhancementsVideostreaming::Filter => "filter"@,
            QemuConfigSpiceEnhancementsVideostreaming::UnknownEnumValue(s) => s@,
        }
    }

    /// The known value that the API name `s` stands for, if any.
    pub open spec fn known(s: Seq<char>) -> Option<Self> {
        if s == "off"@ {
            Some(QemuConfigSpiceEnhancementsVideostreaming::Off)
        }         else if s == "all"@ {
            Some(QemuConfigSpiceEnhancementsVideostreaming::All)
        }         else if s == "filter"@ {
            Some(QemuConfigSpiceEnhancementsVideostreaming::Filter)
        } else {
            None
        }
    }

    /// `v` is the value that reading the API name `s` gives.
    pub open spec fn parses_to(s: Seq<char>, v: Self) -> bool {
        match Self::known(s) {
            Some(k) => v == k,
            None => v matches QemuConfigSpiceEnhancementsVideostreaming::UnknownEnumValue(t) && t@ == s,
        }
    }

    /// The API name of this value.
    pub fn to_string(&self) -> (r: String)
        ensures
            r@ == self.name(),
    {
        match self {
            QemuConfigSpiceEnhancementsVideostreaming::Off => String::from_str("off"),
            QemuConfigSpiceEnhancementsVideostreaming::All => String::from_str("all"),
            QemuConfigSpiceEnhancementsVideostreaming::Filter => String::from_str("filter"),
            QemuConfigSpiceEnhancementsVideostreaming::UnknownEnumValue(s) => s.clone(),
        }
    }

    /// Reads an API name; a name that is not known is kept as an unknown value.
    pub fn from_name(s: &str) -> (r: Self)
        ensures
            Self::parses_to(s@, r),
    {
        if str_eq(s, "off") {
            QemuConfigSpiceEnhancementsVideostreaming::Off
        }         else if str_eq(s, "all") {
            QemuConfigSpiceEnhancementsVideostreaming::All
        }         else if str_eq(s, "filter") {
            QemuConfigSpiceEnhancementsVideostreaming::Filter
        } else {
            QemuConfigSpiceEnhancementsVideostreaming::UnknownEnumValue(String::from_str(s))
        }
    }

    /// Each known value goes with the name the API uses for it: `off` for `Off`, `all` for `All`, `filter` for `Filter`.
    /// `to_string` writes that name and `from_name` reads it as that value.
    pub proof fn lemma_api_names()
        ensures
            QemuConfigSpiceEnhancementsVideostreaming::Off.name() == "off"@,
            Self::parses_to("off"@, QemuConfigSpiceEnhancementsVideostreaming::Off),
            QemuConfigSpiceEnhancementsVideostreaming::All.name() == "all"@,
            Self::parses_to("all"@, QemuConfigSpiceEnhancementsVideostreaming::All),
            QemuConfigSpiceEnhancementsVideostreaming::Filter.name() == "filter"@,
            Self::parses_to("filter"@, QemuConfigSpiceEnhancementsVideostreaming::Filter),
    {
        Self::lemma_to_string_from_name(QemuConfigSpiceEnhancementsVideostreaming::Off);
        Self::lemma_to_string_from_name(QemuConfigSpiceEnhancementsVideostreaming::All);
        Self::lemma_to_string_from_name(QemuConfigSpiceEnhancementsVideostreaming::Filter);
    }

    /// Writing out a value that was read gives back the name that was read.
    pub proof fn lemma_from_name_to_string(s: Seq<char>, v: Self)
        requires
            Self::parses_to(s, v),
        ensures
            v.name() == s,
    {
    }

    /// Reading the name of a value gives back the value, unless the value is an
    /// unknown one that carries the name of a known one.
    pub proof fn lemma_to_string_from_name(v: Self)
        requires
            v is UnknownEnumValue ==> Self::known(v.name()) is None,
        ensures
            Self::parses_to(v.name(), v),
    {
        if !(v is UnknownEnumValue) {
            Self::lemma_known_names(v);
        }
    }

    /// The spelling of known names, character by character.
    proof fn lemma_name_spelling()
        ensures
            "off"@.len() == 3 && "off"@[0] == 'o' && "off"@[1] == 'f' && "off"@[2] == 'f',
            "all"@.len() == 3 && "all"@[0] == 'a' && "all"@[1] == 'l' && "all"@[2] == 'l',
            "filter"@.len() == 6 && "filter"@[0] == 'f' && "filter"@[1] == 'i' && "filter"@[2] == 'l' && "filter"@[3] == 't' && "filter"@[4] == 'e' && "filter"@[5] == 'r',
    {
        broadcast use vstd::string::group_string_axioms;

        reveal_strlit("off");
        reveal_strlit("all");
        reveal_strlit("filter");
    }

    proof fn lemma_known_names(v: Self)
        requires
            !(v is UnknownEnumValue),
        ensures
            Self::known(v.name()) == Some(v),
    {
        Self::lemma_name_spelling();
    }

}

/// Object.
#[derive(Debug)]
pub struct QemuConfigTpmstate0 {
    /// The drive's backing volume.
    pub file: String,

    /// Disk size. This is purely informational and has no effect.
    pub size: Option<String>,

    pub version: Option<QemuConfigTpmstate0Version>,
}

/// The TPM interface version. v2.0 is newer and should be preferred. Note that
/// this cannot be changed later on.
#[derive(Clone, Debug)]
pub enum QemuConfigTpmstate0Version {
    /// v1.2.
    V1_2,
    /// v2.0.
    V2_0,
    /// Unknown variants for forward compatibility.
    UnknownEnumValue(String),
}

impl PartialEq for QemuConfigTpmstate0Version {
    fn eq(&self, other: &Self) -> (r: bool) {
        match (self, other) {
            (QemuConfigTpmstate0Version::V1_2, QemuConfigTpmstate0Version::V1_2) => true,
            (QemuConfigTpmstate0Version::V2_0, QemuConfigTpmstate0Version::V2_0) => true,
            (QemuConfigTpmstate0Version::UnknownEnumValue(a), QemuConfigTpmstate0Version::UnknownEnumValue(b)) => *a == *b,
            _ => false,
        }
    }
}

impl PartialEqSpecImpl for QemuConfigTpmstate0Version {
    open spec fn obeys_eq_spec() -> bool {
        true
    }

    open spec fn eq_spec(&self, other: &Self) -> bool {
        match (self, other) {
            (QemuConfigTpmstate0Version::UnknownEnumValue(a), QemuConfigTpmstate0Version::UnknownEnumValue(b)) => a@ == b@,
            _ => *self == *other,
        }
    }
}

impl Default for QemuConfigTpmstate0Version {
    fn default() -> (r: Self)
        ensures
            r == QemuConfigTpmstate0Version::V1_2,
    {
        QemuConfigTpmstate0Version::V1_2
    }
}

impl std::str::FromStr for QemuConfigTpmstate0Version {
    type Err = core::convert::Infallible;

    fn from_str(s: &str) -> (r: Result<Self, Self::Err>)
        ensures
            r matches Ok(v) && Self::parses_to(s@, v),
    {
        Ok(QemuConfigTpmstate0Version::from_name(s))
    }
}

impl QemuConfigTpmstate0Version {
    /// The name under which the API writes this value.
    pub open spec fn name(self) -> Seq<char> {
        match self {
            QemuConfigTpmstate0Version::V1_2 => "v1.2"@,
            QemuConfigTpmstate0Version::V2_0 => "v2.0"@,
            QemuConfigTpmstate0Version::UnknownEnumValue(s) => s@,
        }
    }

    /// The known value that the API name `s` stands for, if any.
    pub open spec fn known(s: Seq<char>) -> Option<Self> {
        if s == "v1.2"@ {
            Some(QemuConfigTpmstate0Version::V1_2)
        }         else if s == "v2.0"@ {
            Some(QemuConfigTpmstate0Version::V2_0)
        } else {
            None
        }
    }

    /// `v` is the value that reading the API name `s` gives.
    pub open spec fn parses_to(s: Seq<char>, v: Self) -> bool {
        match Self::known(s) {
            Some(k) => v == k,
            None => v matches QemuConfigTpmstate0Version::UnknownEnumValue(t) && t@ == s,
        }
    }

    /// The API name of this value.
    pub fn to_string(&self) -> (r: String)
        ensures
            r@ == self.name(),
    {
        match self {
            QemuConfigTpmstate0Version::V1_2 => String::from_str("v1.2"),
            QemuConfigTpmstate0Version::V2_0 => String::from_str("v2.0"),
            QemuConfigTpmstate0Version::UnknownEnumValue(s) => s.clone(),
        }
    }

    /// Reads an API name; a name that is not known is kept as an unknown value.
    pub fn from_name(s: &str) -> (r: Self)
        ensures
            Self::parses_to(s@, r),
    {
        if str_eq(s, "v1.2") {
            QemuConfigTpmstate0Version::V1_2
        }         else if str_eq(s, "v2.0") {
            QemuConfigTpmstate0Version::V2_0
        } else {
            QemuConfigTpmstate0Version::UnknownEnumValue(String::from_str(s))
        }
    }

    /// Each known value goes with the name the API uses for it: `v1.2` for `V1_2`, `v2.0` for `V2_0`.
    /// `to_string` writes that name and `from_name` reads it as that value.
    pub proof fn lemma_api_names()
        ensures
            QemuConfigTpmstate0Version::V1_2.name() == "v1.2"@,
            Self::parses_to("v1.2"@, QemuConfigTpmstate0Version::V1_2),
            QemuConfigTpmstate0Version::V2_0.name() == "v2.0"@,
            Self::parses_to("v2.0"@, QemuConfigTpmstate0Version::V2_0),
    {
        Self::lemma_to_string_from_name(QemuConfigTpmstate0Version::V1_2);
        Self::lemma_to_string_from_name(QemuConfigTpmstate0Version::V2_0);
    }

    /// Writing out a value that was read gives back the name that was read.
    pub proof fn lemma_from_name_to_string(s: Seq<char>, v: Self)
        requires
            Self::parses_to(s, v),
        ensures
            v.name() == s,
    {
    }

    /// Reading the name of a value gives back the value, unless the value is an
    /// unknown one that carries the name of a known one.
    pub proof fn lemma_to_string_from_name(v: Self)
        requires
            v is UnknownEnumValue ==> Self::known(v.name()) is None,
        ensures
            Self::parses_to(v.name(), v),
    {
        if !(v is UnknownEnumValue) {
            Self::lemma_known_names(v);
        }
    }

    /// The spelling of known names, character by character.
    proof fn lemma_name_spelling()
        ensures
            "v1.2"@.len() == 4 && "v1.2"@[0] == 'v' && "v1.2"@[1] == '1' && "v1.2"@[2] == '.' && "v1.2"@[3] == '2',
            "v2.0"@.len() == 4 && "v2.0"@[0] == 'v' && "v2.0"@[1] == '2' && "v2.0"@[2] == '.' && "v2.0"@[3] == '0',
    {
        broadcast use vstd::string::group_string_axioms;

        reveal_strlit("v1.2");
        reveal_strlit("v2.0");
    }

    proof fn lemma_known_names(v: Self)
        requires
            !(v is UnknownEnumValue),
        ensures
            Self::known(v.name()) == Some(v),
    {
        Self::lemma_name_spelling();
    }

}

/// Object.
#[derive(Debug)]
pub struct QemuConfigUnused {
    /// The drive's backing volume.
    pub file: String,
}

/// Object.
#[derive(Debug)]
pub struct QemuConfigUsb {
    /// The Host USB device or port or the value 'spice'. HOSTUSBDEVICE syntax
    /// is:
    ///
    ///  'bus-port(.port)*' (decimal numbers) or
    ///  'vendor_id:product_id' (hexadecimal numbers) or
    ///  'spice'
    ///
    /// You can use the 'lsusb -t' command to list existing usb devices.
    ///
    /// NOTE: This option allows direct access to host hardware. So it is no
    /// longer possible to migrate such machines - use with special care.
    ///
    /// The value 'spice' can be used to add a usb redirection devices for
    /// spice.
    ///
    /// Either this or the 'mapping' key must be set.
    pub host: Option<String>,

    /// The ID of a cluster wide mapping. Either this or the default-key 'host'
    /// must be set.
    pub mapping: Option<String>,

    /// Specifies whether if given host option is a USB3 device or port. For
    /// modern guests (machine version >= 7.1 and ostype l26 and windows > 7),
    /// this flag is irrelevant (all devices are plugged into a xhci
    /// controller).
    pub usb3: Option<bool>,
}

/// Object.
#[derive(Debug)]
pub struct QemuConfigVga {
    pub clipboard: Option<QemuConfigVgaClipboard>,

    /// Sets the VGA memory (in MiB). Has no effect with serial display.
    pub memory: Option<u16>,

    pub ty: Option<QemuConfigVgaType>,
}

/// Enable a specific clipboard. If not set, depending on the display type the
/// SPICE one will be added. Migration with VNC clipboard is not yet supported!
#[derive(Clone, Debug)]
pub enum QemuConfigVgaClipboard {
    /// vnc.
    Vnc,
    /// Unknown variants for forward compatibility.
    UnknownEnumValue(String),
}

impl PartialEq for QemuConfigVgaClipboard {
    fn eq(&self, other: &Self) -> (r: bool) {
        match (self, other) {
            (QemuConfigVgaClipboard::Vnc, QemuConfigVgaClipboard::Vnc) => true,
            (QemuConfigVgaClipboard::UnknownEnumValue(a), QemuConfigVgaClipboard::UnknownEnumValue(b)) => *a == *b,
            _ => false,
        }
    }
}

impl PartialEqSpecImpl for QemuConfigVgaClipboard {
    open spec fn obeys_eq_spec() -> bool {
        true
    }

    open spec fn eq_spec(&self, other: &Self) -> bool {
        match (self, other) {
            (QemuConfigVgaClipboard::UnknownEnumValue(a), QemuConfigVgaClipboard::UnknownEnumValue(b)) => a@ == b@,
            _ => *self == *other,
        }
    }
}

impl std::str::FromStr for QemuConfigVgaClipboard {
    type Err = core::convert::Infallible;

    fn from_str(s: &str) -> (r: Result<Self, Self::Err>)
        ensures
            r matches Ok(v) && Self::parses_to(s@, v),
    {
        Ok(QemuConfigVgaClipboard::from_name(s))
    }
}

impl QemuConfigVgaClipboard {
    /// The name under which the API writes this value.
    pub open spec fn name(self) -> Seq<char> {
        match self {
            QemuConfigVgaClipboard::Vnc => "vnc"@,
            QemuConfigVgaClipboard::UnknownEnumValue(s) => s@,
        }
    }

    /// The known value that the API name `s` stands for, if any.
    pub open spec fn known(s: Seq<char>) -> Option<Self> {
        if s == "vnc"@ {
            Some(QemuConfigVgaClipboard::Vnc)
        } else {
            None
        }
    }

    /// `v` is the value that reading the API name `s` gives.
    pub open spec fn parses_to(s: Seq<char>, v: Self) -> bool {
        match Self::known(s) {
            Some(k) => v == k,
            None => v matches QemuConfigVgaClipboard::UnknownEnumValue(t) && t@ == s,
        }
    }

    /// The API name of this value.
    pub fn to_string(&self) -> (r: String)
        ensures
            r@ == self.name(),
    {
        match self {
            QemuConfigVgaClipboard::Vnc => String::from_str("vnc"),
            QemuConfigVgaClipboard::UnknownEnumValue(s) => s.clone(),
        }
    }

    /// Reads an API name; a name that is not known is kept as an unknown value.
    pub fn from_name(s: &str) -> (r: Self)
        ensures
            Self::parses_to(s@, r),
    {
        if str_eq(s, "vnc") {
            QemuConfigVgaClipboard::Vnc
        } else {
            QemuConfigVgaClipboard::UnknownEnumValue(String::from_str(s))
        }
    }

    /// Each known value goes with the name the API uses for it: `vnc` for `Vnc`.
    /// `to_string` writes that name and `from_name` reads it as that value.
    pub proof fn lemma_api_names()
        ensures
            QemuConfigVgaClipboard::Vnc.name() == "vnc"@,
            Self::parses_to("vnc"@, QemuConfigVgaClipboard::Vnc),
    {
        Self::lemma_to_string_from_name(QemuConfigVgaClipboard::Vnc);
    }

    /// Writing out a value that was read gives back the name that was read.
    pub proof fn lemma_from_name_to_string(s: Seq<char>, v: Self)
        requires
            Self::parses_to(s, v),
        ensures
            v.name() == s,
    {
    }

    /// Reading the name of a value gives back the value, unless the value is an
    /// unknown one that carries the name of a known one.
    pub proof fn lemma_to_string_from_name(v: Self)
        requires
            v is UnknownEnumValue ==> Self::known(v.name()) is None,
        ensures
            Self::parses_to(v.name(), v),
    {
        if !(v is UnknownEnumValue) {
            Self::lemma_known_names(v);
        }
    }

    /// The spelling of known names, character by character.
    proof fn lemma_name_spelling()
        ensures
            "vnc"@.len() == 3 && "vnc"@[0] == 'v' && "vnc"@[1] == 'n' && "vnc"@[2] == 'c',
    {
        broadcast use vstd::string::group_string_axioms;

        reveal_strlit("vnc");
    }

    proof fn lemma_known_names(v: Self)
        requires
            !(v is UnknownEnumValue),
        ensures
            Self::known(v.name()) == Some(v),
    {
        Self::lemma_name_spelling();
    }

}

/// Select the VGA type. Using type 'cirrus' is not recommended.
#[derive(Clone, Debug)]
pub enum QemuConfigVgaType {
    /// cirrus.
    Cirrus,
    /// qxl.
    Qxl,
    /// qxl2.
    Qxl2,
    /// qxl3.
    Qxl3,
    /// qxl4.
    Qxl4,
    /// none.
    NoneValue,
    /// serial0.
    Serial0,
    /// serial1.
    Serial1,
    /// serial2.
    Serial2,
    /// serial3.
    Serial3,
    /// std.
    Std,
    /// virtio.
    Virtio,
    /// virtio-gl.
    VirtioGl,
    /// vmware.
    Vmware,
    /// Unknown variants for forward compatibility.
    UnknownEnumValue(String),
}

impl PartialEq for QemuConfigVgaType {
    fn eq(&self, other: &Self) -> (r: bool) {
        match (self, other) {
            (QemuConfigVgaType::Cirrus, QemuConfigVgaType::Cirrus) => true,
            (QemuConfigVgaType::Qxl, QemuConfigVgaType::Qxl) => true,
            (QemuConfigVgaType::Qxl2, QemuConfigVgaType::Qxl2) => true,
            (QemuConfigVgaType::Qxl3, QemuConfigVgaType::Qxl3) => true,
            (QemuConfigVgaType::Qxl4, QemuConfigVgaType::Qxl4) => true,
            (QemuConfigVgaType::NoneValue, QemuConfigVgaType::NoneValue) => true,
            (QemuConfigVgaType::Serial0, QemuConfigVgaType::Serial0) => true,
            (QemuConfigVgaType::Serial1, QemuConfigVgaType::Serial1) => true,
            (QemuConfigVgaType::Serial2, QemuConfigVgaType::Serial2) => true,
            (QemuConfigVgaType::Serial3, QemuConfigVgaType::Serial3) => true,
            (QemuConfigVgaType::Std, QemuConfigVgaType::Std) => true,
            (QemuConfigVgaType::Virtio, QemuConfigVgaType::Virtio) => true,
            (QemuConfigVgaType::VirtioGl, QemuConfigVgaType::VirtioGl) => true,
            (QemuConfigVgaType::Vmware, QemuConfigVgaType::Vmware) => true,
            (QemuConfigVgaType::UnknownEnumValue(a), QemuConfigVgaType::UnknownEnumValue(b)) => *a == *b,
            _ => false,
        }
    }
}

impl PartialEqSpecImpl for QemuConfigVgaType {
    open spec fn obeys_eq_spec() -> bool {
        true
    }

    open spec fn eq_spec(&self, other: &Self) -> bool {
        match (self, other) {
            (QemuConfigVgaType::UnknownEnumValue(a), QemuConfigVgaType::UnknownEnumValue(b)) => a@ == b@,
            _ => *self == *other,
        }
    }
}

impl Default for QemuConfigVgaType {
    fn default() -> (r: Self)
        ensures
            r == QemuConfigVgaType::Std,
    {
        QemuConfigVgaType::Std
    }
}

impl std::str::FromStr for QemuConfigVgaType {
    type Err = core::convert::Infallible;

    fn from_str(s: &str) -> (r: Result<Self, Self::Err>)
        ensures
            r matches Ok(v) && Self::parses_to(s@, v),
    {
        Ok(QemuConfigVgaType::from_name(s))
    }
}

impl QemuConfigVgaType {
    /// The name under which the API writes this value.
    pub open spec fn name(self) -> Seq<char> {
        match self {
            QemuConfigVgaType::Cirrus => "cirrus"@,
            QemuConfigVgaType::Qxl => "qxl"@,
            QemuConfigVgaType::Qxl2 => "qxl2"@,
            QemuConfigVgaType::Qxl3 => "qxl3"@,
            QemuConfigVgaType::Qxl4 => "qxl4"@,
            QemuConfigVgaType::NoneValue => "none"@,
            QemuConfigVgaType::Serial0 => "serial0"@,
            QemuConfigVgaType::Serial1 => "serial1"@,
            QemuConfigVgaType::Serial2 => "serial2"@,
            QemuConfigVgaType::Serial3 => "serial3"@,
            QemuConfigVgaType::Std => "std"@,
            QemuConfigVgaType::Virtio => "virtio"@,
            QemuConfigVgaType::VirtioGl => "virtio-gl"@,
            QemuConfigVgaType::Vmware => "vmware"@,
            QemuConfigVgaType::UnknownEnumValue(s) => s@,
        }
    }

    /// The known value that the API name `s` stands for, if any.
    pub open spec fn known(s: Seq<char>) -> Option<Self> {
        if s == "cirrus"@ {
            Some(QemuConfigVgaType::Cirrus)
        }         else if s == "qxl"@ {
            Some(QemuConfigVgaType::Qxl)
        }         else if s == "qxl2"@ {
            Some(QemuConfigVgaType::Qxl2)
        }         else if s == "qxl3"@ {
            Some(QemuConfigVgaType::Qxl3)
        }         else if s == "qxl4"@ {
            Some(QemuConfigVgaType::Qxl4)
        }         else if s == "none"@ {
            Some(QemuConfigVgaType::NoneValue)
        }         else if s == "serial0"@ {
            Some(QemuConfigVgaType::Serial0)
        }         else if s == "serial1"@ {
            Some(QemuConfigVgaType::Serial1)
        }         else if s == "serial2"@ {
            Some(QemuConfigVgaType::Serial2)
        }         else if s == "serial3"@ {
            Some(QemuConfigVgaType::Serial3)
        }         else if s == "std"@ {
            Some(QemuConfigVgaType::Std)
        }         else if s == "virtio"@ {
            Some(QemuConfigVgaType::Virtio)
        }         else if s == "virtio-gl"@ {
            Some(QemuConfigVgaType::VirtioGl)
        }         else if s == "vmware"@ {
            Some(QemuConfigVgaType::Vmware)
        } else {
            None
        }
    }

    /// `v` is the value that reading the API name `s` gives.
    pub open spec fn parses_to(s: Seq<char>, v: Self) -> bool {
        match Self::known(s) {
            Some(k) => v == k,
            None => v matches QemuConfigVgaType::UnknownEnumValue(t) && t@ == s,
        }
    }

    /// The API name of this value.
    pub fn to_string(&self) -> (r: String)
        ensures
            r@ == self.name(),
    {
        match self {
            QemuConfigVgaType::Cirrus => String::from_str("cirrus"),
            QemuConfigVgaType::Qxl => String::from_str("qxl"),
            QemuConfigVgaType::Qxl2 => String::from_str("qxl2"),
            QemuConfigVgaType::Qxl3 => String::from_str("qxl3"),
            QemuConfigVgaType::Qxl4 => String::from_str("qxl4"),
            QemuConfigVgaType::NoneValue => String::from_str("none"),
            QemuConfigVgaType::Serial0 => String::from_str("serial0"),
            QemuConfigVgaType::Serial1 => String::from_str("serial1"),
            QemuConfigVgaType::Serial2 => String::from_str("serial2"),
            QemuConfigVgaType::Serial3 => String::from_str("serial3"),
            QemuConfigVgaType::Std => String::from_str("std"),
            QemuConfigVgaType::Virtio => String::from_str("virtio"),
            QemuConfigVgaType::VirtioGl => String::from_str("virtio-gl"),
            QemuConfigVgaType::Vmware => String::from_str("vmware"),
            QemuConfigVgaType::UnknownEnumValue(s) => s.clone(),
        }
    }

    /// Reads an API name; a name that is not known is kept as an unknown value.
    pub fn from_name(s: &str) -> (r: Self)
        ensures
            Self::parses_to(s@, r),
    {
        if str_eq(s, "cirrus") {
            QemuConfigVgaType::Cirrus
        }         else if str_eq(s, "qxl") {
            QemuConfigVgaType::Qxl
        }         else if str_eq(s, "qxl2") {
            QemuConfigVgaType::Qxl2
        }         else if str_eq(s, "qxl3") {
            QemuConfigVgaType::Qxl3
        }         else if str_eq(s, "qxl4") {
            QemuConfigVgaType::Qxl4
        }         else if str_eq(s, "none") {
            QemuConfigVgaType::NoneValue
        }         else if str_eq(s, "serial0") {
            QemuConfigVgaType::Serial0
        }         else if str_eq(s, "serial1") {
            QemuConfigVgaType::Serial1
        }         else if str_eq(s, "serial2") {
            QemuConfigVgaType::Serial2
        }         else if str_eq(s, "serial3") {
            QemuConfigVgaType::Serial3
        }         else if str_eq(s, "std") {
            QemuConfigVgaType::Std
        }         else if str_eq(s, "virtio") {
            QemuConfigVgaType::Virtio
        }         else if str_eq(s, "virtio-gl") {
            QemuConfigVgaType::VirtioGl
        }         else if str_eq(s, "vmware") {
            QemuConfigVgaType::Vmware
        } else {
            QemuConfigVgaType::UnknownEnumValue(String::from_str(s))
        }
    }

    /// Each known value goes with the name the API uses for it: `cirrus` for `Cirrus`, `qxl` for `Qxl`, `qxl2` for `Qxl2`, and so on for every known value.
    /// `to_string` writes that name and `from_name` reads it as that value.
    pub proof fn lemma_api_names()
        ensures
            QemuConfigVgaType::Cirrus.name() == "cirrus"@,
            Self::parses_to("cirrus"@, QemuConfigVgaType::Cirrus),
            QemuConfigVgaType::Qxl.name() == "qxl"@,
            Self::parses_to("qxl"@, QemuConfigVgaType::Qxl),
            QemuConfigVgaType::Qxl2.name() == "qxl2"@,
            Self::parses_to("qxl2"@, QemuConfigVgaType::Qxl2),
            QemuConfigVgaType::Qxl3.name() == "qxl3"@,
            Self::parses_to("qxl3"@, QemuConfigVgaType::Qxl3),
            QemuConfigVgaType::Qxl4.name() == "qxl4"@,
            Self::parses_to("qxl4"@, QemuConfigVgaType::Qxl4),
            QemuConfigVgaType::NoneValue.name() == "none"@,
            Self::parses_to("none"@, QemuConfigVgaType::NoneValue),
            QemuConfigVgaType::Serial0.name() == "serial0"@,
            Self::parses_to("serial0"@, QemuConfigVgaType::Serial0),
            QemuConfigVgaType::Serial1.name() == "serial1"@,
            Self::parses_to("serial1"@, QemuConfigVgaType::Serial1),
            QemuConfigVgaType::Serial2.name() == "serial2"@,
            Self::parses_to("serial2"@, QemuConfigVgaType::Serial2),
            QemuConfigVgaType::Serial3.name() == "serial3"@,
            Self::parses_to("serial3"@, QemuConfigVgaType::Serial3),
            QemuConfigVgaType::Std.name() == "std"@,
            Self::parses_to("std"@, QemuConfigVgaType::Std),
            QemuConfigVgaType::Virtio.name() == "virtio"@,
            Self::parses_to("virtio"@, QemuConfigVgaType::Virtio),
            QemuConfigVgaType::VirtioGl.name() == "virtio-gl"@,
            Self::parses_to("virtio-gl"@, QemuConfigVgaType::VirtioGl),
            QemuConfigVgaType::Vmware.name() == "vmware"@,
            Self::parses_to("vmware"@, QemuConfigVgaType::Vmware),
    {
        Self::lemma_to_string_from_name(QemuConfigVgaType::Cirrus);
        Self::lemma_to_string_from_name(QemuConfigVgaType::Qxl);
        Self::lemma_to_string_from_name(QemuConfigVgaType::Qxl2);
        Self::lemma_to_string_from_name(QemuConfigVgaType::Qxl3);
        Self::lemma_to_string_from_name(QemuConfigVgaType::Qxl4);
        Self::lemma_to_string_from_name(QemuConfigVgaType::NoneValue);
        Self::lemma_to_string_from_name(QemuConfigVgaType::Serial0);
        Self::lemma_to_string_from_name(QemuConfigVgaType::Serial1);
        Self::lemma_to_string_from_name(QemuConfigVgaType::Serial2);
        Self::lemma_to_string_from_name(QemuConfigVgaType::Serial3);
        Self::lemma_to_string_from_name(QemuConfigVgaType::Std);
        Self::lemma_to_string_from_name(QemuConfigVgaType::Virtio);
        Self::lemma_to_string_from_name(QemuConfigVgaType::VirtioGl);
        Self::lemma_to_string_from_name(QemuConfigVgaType::Vmware);
    }

    /// Writing out a value that was read gives back the name that was read.
    pub proof fn lemma_from_name_to_string(s: Seq<char>, v: Self)
        requires
            Self::parses_to(s, v),
        ensures
            v.name() == s,
    {
    }

    /// Reading the name of a value gives back the value, unless the value is an
    /// unknown one that carries the name of a known one.
    pub proof fn lemma_to_string_from_name(v: Self)
        requires
            v is UnknownEnumValue ==> Self::known(v.name()) is None,
        ensures
            Self::parses_to(v.name(), v),
    {
        if !(v is UnknownEnumValue) {
            Self::lemma_known_names(v);
        }
    }

    /// The spelling of known names, character by character.
    proof fn lemma_name_spelling()
        ensures
            "cirrus"@.len() == 6 && "cirrus"@[0] == 'c' && "cirrus"@[1] == 'i' && "cirrus"@[2] == 'r' && "cirrus"@[3] == 'r' && "cirrus"@[4] == 'u' && "cirrus"@[5] == 's',
            "qxl"@.len() == 3 && "qxl"@[0] == 'q' && "qxl"@[1] == 'x' && "qxl"@[2] == 'l',
            "qxl2"@.len() == 4 && "qxl2"@[0] == 'q' && "qxl2"@[1] == 'x' && "qxl2"@[2] == 'l' && "qxl2"@[3] == '2',
            "qxl3"@.len() == 4 && "qxl3"@[0] == 'q' && "qxl3"@[1] == 'x' && "qxl3"@[2] == 'l' && "qxl3"@[3] == '3',
            "qxl4"@.len() == 4 && "qxl4"@[0] == 'q' && "qxl4"@[1] == 'x' && "qxl4"@[2] == 'l' && "qxl4"@[3] == '4',
            "none"@.len() == 4 && "none"@[0] == 'n' && "none"@[1] == 'o' && "none"@[2] == 'n' && "none"@[3] == 'e',
            "serial0"@.len() == 7 && "serial0"@[0] == 's' && "serial0"@[1] == 'e' && "serial0"@[2] == 'r' && "serial0"@[3] == 'i' && "serial0"@[4] == 'a' && "serial0"@[5] == 'l' && "serial0"@[6] == '0',
            "serial1"@.len() == 7 && "serial1"@[0] == 's' && "serial1"@[1] == 'e' && "serial1"@[2] == 'r' && "serial1"@[3] == 'i' && "serial1"@[4] == 'a' && "serial1"@[5] == 'l' && "serial1"@[6] == '1',
            "serial2"@.len() == 7 && "serial2"@[0] == 's' && "serial2"@[1] == 'e' && "serial2"@[2] == 'r' && "serial2"@[3] == 'i' && "serial2"@[4] == 'a' && "serial2"@[5] == 'l' && "serial2"@[6] == '2',
            "serial3"@.len() == 7 && "serial3"@[0] == 's' && "serial3"@[1] == 'e' && "serial3"@[2] == 'r' && "serial3"@[3] == 'i' && "serial3"@[4] == 'a' && "serial3"@[5] == 'l' && "serial3"@[6] == '3',
            "std"@.len() == 3 && "std"@[0] == 's' && "std"@[1] == 't' && "std"@[2] == 'd',
            "virtio"@.len() == 6 && "virtio"@[0] == 'v' && "virtio"@[1] == 'i' && "virtio"@[2] == 'r' && "virtio"@[3] == 't' && "virtio"@[4] == 'i' && "virtio"@[5] == 'o',
            "virtio-gl"@.len() == 9 && "virtio-gl"@[0] == 'v' && "virtio-gl"@[1] == 'i' && "virtio-gl"@[2] == 'r' && "virtio-gl"@[3] == 't' && "virtio-gl"@[4] == 'i' && "virtio-gl"@[5] == 'o' && "virtio-gl"@[6] == '-' && "virtio-gl"@[7] == 'g' && "virtio-gl"@[8] == 'l',
            "vmware"@.len() == 6 && "vmware"@[0] == 'v' && "vmware"@[1] == 'm' && "vmware"@[2] == 'w' && "vmware"@[3] == 'a' && "vmware"@[4] == 'r' && "vmware"@[5] == 'e',
    {
        broadcast use vstd::string::group_string_axioms;

        reveal_strlit("cirrus");
        reveal_strlit("qxl");
        reveal_strlit("qxl2");
        reveal_strlit("qxl3");
        reveal_strlit("qxl4");
        reveal_strlit("none");
        reveal_strlit("serial0");
        reveal_strlit("serial1");
        reveal_strlit("serial2");
        reveal_strlit("serial3");
        reveal_strlit("std");
        reveal_strlit("virtio");
        reveal_strlit("virtio-gl");
        reveal_strlit("vmware");
    }

    proof fn lemma_known_names(v: Self)
        requires
            !(v is UnknownEnumValue),
        ensures
            Self::known(v.name()) == Some(v),
    {
        Self::lemma_name_spelling();
    }

}

/// Object.
#[derive(Debug)]
pub struct QemuConfigVirtiofs {
    pub cache: Option<QemuConfigVirtiofsCache>,

    /// Honor the O_DIRECT flag passed down by guest applications.
    pub direct_io: Option<bool>,

    /// Mapping identifier of the directory mapping to be shared with the guest.
    /// Also used as a mount tag inside the VM.
    pub dirid: String,

    /// Enable support for POSIX ACLs (enabled ACL implies xattr) for this
    /// mount.
    pub expose_acl: Option<bool>,

    /// Enable support for extended attributes for this mount.
    pub expose_xattr: Option<bool>,
}

/// The caching policy the file system should use (auto, always, metadata,
/// never).
#[derive(Clone, Debug)]
pub enum QemuConfigVirtiofsCache {
    /// auto.
    Auto,
    /// always.
    Always,
    /// metadata.
    Metadata,
    /// never.
    Never,
    /// Unknown variants for forward compatibility.
    UnknownEnumValue(String),
}

impl PartialEq for QemuConfigVirtiofsCache {
    fn eq(&self, other: &Self) -> (r: bool) {
        match (self, other) {
            (QemuConfigVirtiofsCache::Auto, QemuConfigVirtiofsCache::Auto) => true,
            (QemuConfigVirtiofsCache::Always, QemuConfigVirtiofsCache::Always) => true,
            (QemuConfigVirtiofsCache::Metadata, QemuConfigVirtiofsCache::Metadata) => true,
            (QemuConfigVirtiofsCache::Never, QemuConfigVirtiofsCache::Never) => true,
            (QemuConfigVirtiofsCache::UnknownEnumValue(a), QemuConfigVirtiofsCache::UnknownEnumValue(b)) => *a == *b,
            _ => false,
        }
    }
}

impl PartialEqSpecImpl for QemuConfigVirtiofsCache {
    open spec fn obeys_eq_spec() -> bool {
        true
    }

    open spec fn eq_spec(&self, other: &Self) -> bool {
        match (self, other) {
            (QemuConfigVirtiofsCache::UnknownEnumValue(a), QemuConfigVirtiofsCache::UnknownEnumValue(b)) => a@ == b@,
            _ => *self == *other,
        }
    }
}

impl Default for QemuConfigVirtiofsCache {
    fn default() -> (r: Self)
        ensures
            r == QemuConfigVirtiofsCache::Auto,
    {
        QemuConfigVirtiofsCache::Auto
    }
}

impl std::str::FromStr for QemuConfigVirtiofsCache {
    type Err = core::convert::Infallible;

    fn from_str(s: &str) -> (r: Result<Self, Self::Err>)
        ensures
            r matches Ok(v) && Self::parses_to(s@, v),
    {
        Ok(QemuConfigVirtiofsCache::from_name(s))
    }
}

impl QemuConfigVirtiofsCache {
    /// The name under which the API writes this value.
    pub open spec fn name(self) -> Seq<char> {
        match self {
            QemuConfigVirtiofsCache::Auto => "auto"@,
            QemuConfigVirtiofsCache::Always => "always"@,
            QemuConfigVirtiofsCache::Metadata => "metadata"@,
            QemuConfigVirtiofsCache::Never => "never"@,
            QemuConfigVirtiofsCache::UnknownEnumValue(s) => s@,
        }
    }

    /// The known value that the API name `s` stands for, if any.
    pub open spec fn known(s: Seq<char>) -> Option<Self> {
        if s == "auto"@ {
            Some(QemuConfigVirtiofsCache::Auto)
        }         else if s == "always"@ {
            Some(QemuConfigVirtiofsCache::Always)
        }         else if s == "metadata"@ {
            Some(QemuConfigVirtiofsCache::Metadata)
        }         else if s == "never"@ {
            Some(QemuConfigVirtiofsCache::Never)
        } else {
            None
        }
    }

    /// `v` is the value that reading the API name `s` gives.
    pub open spec fn parses_to(s: Seq<char>, v: Self) -> bool {
        match Self::known(s) {
            Some(k) => v == k,
            None => v matches QemuConfigVirtiofsCache::UnknownEnumValue(t) && t@ == s,
        }
    }

    /// The API name of this value.
    pub fn to_string(&self) -> (r: String)
        ensures
            r@ == self.name(),
    {
        match self {
            QemuConfigVirtiofsCache::Auto => String::from_str("auto"),
            QemuConfigVirtiofsCache::Always => String::from_str("always"),
            QemuConfigVirtiofsCache::Metadata => String::from_str("metadata"),
            QemuConfigVirtiofsCache::Never => String::from_str("never"),
            QemuConfigVirtiofsCache::UnknownEnumValue(s) => s.clone(),
        }
    }

    /// Reads an API name; a name that is not known is kept as an unknown value.
    pub fn from_name(s: &str) -> (r: Self)
        ensures
            Self::parses_to(s@, r),
    {
        if str_eq(s, "auto") {
            QemuConfigVirtiofsCache::Auto
        }         else if str_eq(s, "always") {
            QemuConfigVirtiofsCache::Always
        }         else if str_eq(s, "metadata") {
            QemuConfigVirtiofsCache::Metadata
        }         else if str_eq(s, "never") {
            QemuConfigVirtiofsCache::Never
        } else {
            QemuConfigVirtiofsCache::UnknownEnumValue(String::from_str(s))
        }
    }

    /// Each known value goes with the name the API uses for it: `auto` for `Auto`, `always` for `Always`, `metadata` for `Metadata`, and so on for every known value.
    /// `to_string` writes that name and `from_name` reads it as that value.
    pub proof fn lemma_api_names()
        ensures
            QemuConfigVirtiofsCache::Auto.name() == "auto"@,
            Self::parses_to("auto"@, QemuConfigVirtiofsCache::Auto),
            QemuConfigVirtiofsCache::Always.name() == "always"@,
            Self::parses_to("always"@, QemuConfigVirtiofsCache::Always),
            QemuConfigVirtiofsCache::Metadata.name() == "metadata"@,
            Self::parses_to("metadata"@, QemuConfigVirtiofsCache::Metadata),
            QemuConfigVirtiofsCache::Never.name() == "never"@,
            Self::parses_to("never"@, QemuConfigVirtiofsCache::Never),
    {
        Self::lemma_to_string_from_name(QemuConfigVirtiofsCache::Auto);
        Self::lemma_to_string_from_name(QemuConfigVirtiofsCache::Always);
        Self::lemma_to_string_from_name(QemuConfigVirtiofsCache::Metadata);
        Self::lemma_to_string_from_name(QemuConfigVirtiofsCache::Never);
    }

    /// Writing out a value that was read gives back the name that was read.
    pub proof fn lemma_from_name_to_string(s: Seq<char>, v: Self)
        requires
            Self::parses_to(s, v),
        ensures
            v.name() == s,
    {
    }

    /// Reading the name of a value gives back the value, unless the value is an
    /// unknown one that carries the name of a known one.
    pub proof fn lemma_to_string_from_name(v: Self)
        requires
            v is UnknownEnumValue ==> Self::known(v.name()) is None,
        ensures
            Self::parses_to(v.name(), v),
    {
        if !(v is UnknownEnumValue) {
            Self::lemma_known_names(v);
        }
    }

    /// The spelling of known names, character by character.
    proof fn lemma_name_spelling()
        ensures
            "auto"@.len() == 4 && "auto"@[0] == 'a' && "auto"@[1] == 'u' && "auto"@[2] == 't' && "auto"@[3] == 'o',
            "always"@.len() == 6 && "always"@[0] == 'a' && "always"@[1] == 'l' && "always"@[2] == 'w' && "always"@[3] == 'a' && "always"@[4] == 'y' && "always"@[5] == 's',
            "metadata"@.len() == 8 && "metadata"@[0] == 'm' && "metadata"@[1] == 'e' && "metadata"@[2] == 't' && "metadata"@[3] == 'a' && "metadata"@[4] == 'd' && "metadata"@[5] == 'a' && "metadata"@[6] == 't' && "metadata"@[7] == 'a',
            "never"@.len() == 5 && "never"@[0] == 'n' && "never"@[1] == 'e' && "never"@[2] == 'v' && "never"@[3] == 'e' && "never"@[4] == 'r',
    {
        broadcast use vstd::string::group_string_axioms;

        reveal_strlit("auto");
        reveal_strlit("always");
        reveal_strlit("metadata");
        reveal_strlit("never");
    }

    proof fn lemma_known_names(v: Self)
        requires
            !(v is UnknownEnumValue),
        ensures
            Self::known(v.name()) == Some(v),
    {
        Self::lemma_name_spelling();
    }

}

} // verus!
