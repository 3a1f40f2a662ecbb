//! Storage types.
use vstd::prelude::*;
use vstd::std_specs::cmp::PartialEqSpecImpl;
use vstd::string::*;

use crate::text::str_eq;

verus! {

/// Storage content type.
#[derive(Clone, Debug)]
pub enum StorageContent {
    /// backup.
    Backup,
    /// images.
    Images,
    /// import.
    Import,
    /// iso.
    Iso,
    /// none.
    NoneValue,
    /// rootdir.
    Rootdir,
    /// snippets.
    Snippets,
    /// vztmpl.
    Vztmpl,
    /// Unknown variants for forward compatibility.
    UnknownEnumValue(String),
}

impl PartialEq for StorageContent {
    fn eq(&self, other: &Self) -> (r: bool) {
        match (self, other) {
            (StorageContent::Backup, StorageContent::Backup) => true,
            (StorageContent::Images, StorageContent::Images) => true,
            (StorageContent::Import, StorageContent::Import) => true,
            (StorageContent::Iso, StorageContent::Iso) => true,
            (StorageContent::NoneValue, StorageContent::NoneValue) => true,
            (StorageContent::Rootdir, StorageContent::Rootdir) => true,
            (StorageContent::Snippets, StorageContent::Snippets) => true,
            (StorageContent::Vztmpl, StorageContent::Vztmpl) => true,
            (StorageContent::UnknownEnumValue(a), StorageContent::UnknownEnumValue(b)) => *a == *b,
            _ => false,
        }
    }
}

impl PartialEqSpecImpl for StorageContent {
    open spec fn obeys_eq_spec() -> bool {
        true
    }

    open spec fn eq_spec(&self, other: &Self) -> bool {
        match (self, other) {
            (StorageContent::UnknownEnumValue(a), StorageContent::UnknownEnumValue(b)) => a@ == b@,
            _ => *self == *other,
        }
    }
}

impl std::str::FromStr for StorageContent {
    type Err = core::convert::Infallible;

    fn from_str(s: &str) -> (r: Result<Self, Self::Err>)
        ensures
            r matches Ok(v) && Self::parses_to(s@, v),
    {
        Ok(StorageContent::from_name(s))
    }
}

impl StorageContent {
    /// The name under which the API writes this value.
    pub open spec fn name(self) -> Seq<char> {
        match self {
            StorageContent::Backup => "backup"@,
            StorageContent::Images => "images"@,
            StorageContent::Import => "import"@,
            StorageContent::Iso => "iso"@,
            StorageContent::NoneValue => "none"@,
            StorageContent::Rootdir => "rootdir"@,
            StorageContent::Snippets => "snippets"@,
            StorageContent::Vztmpl => "vztmpl"@,
            StorageContent::UnknownEnumValue(s) => s@,
        }
    }

    /// The known value that the API name `s` stands for, if any.
    pub open spec fn known(s: Seq<char>) -> Option<Self> {
        if s == "backup"@ {
            Some(StorageContent::Backup)
        }         else if s == "images"@ {
            Some(StorageContent::Images)
        }         else if s == "import"@ {
            Some(StorageContent::Import)
        }         else if s == "iso"@ {
            Some(StorageContent::Iso)
        }         else if s == "none"@ {
            Some(StorageContent::NoneValue)
        }         else if s == "rootdir"@ {
            Some(StorageContent::Rootdir)
        }         else if s == "snippets"@ {
            Some(StorageContent::Snippets)
        }         else if s == "vztmpl"@ {
            Some(StorageContent::Vztmpl)
        } else {
            None
        }
    }

    /// `v` is the value that reading the API name `s` gives.
    pub open spec fn parses_to(s: Seq<char>, v: Self) -> bool {
        match Self::known(s) {
            Some(k) => v == k,
            None => v matches StorageContent::UnknownEnumValue(t) && t@ == s,
        }
    }

    /// The API name of this value.
    pub fn to_string(&self) -> (r: String)
        ensures
            r@ == self.name(),
    {
        match self {
            StorageContent::Backup => String::from_str("backup"),
            StorageContent::Images => String::from_str("images"),
            StorageContent::Import => String::from_str("import"),
            StorageContent::Iso => String::from_str("iso"),
            StorageContent::NoneValue => String::from_str("none"),
            StorageContent::Rootdir => String::from_str("rootdir"),
            StorageContent::Snippets => String::from_str("snippets"),
            StorageContent::Vztmpl => String::from_str("vztmpl"),
            StorageContent::UnknownEnumValue(s) => s.clone(),
        }
    }

    /// Reads an API name; a name that is not known is kept as an unknown value.
    pub fn from_name(s: &str) -> (r: Self)
        ensures
            Self::parses_to(s@, r),
    {
        if str_eq(s, "backup") {
            StorageContent::Backup
        }         else if str_eq(s, "images") {
            StorageContent::Images
        }         else if str_eq(s, "import") {
            StorageContent::Import
        }         else if str_eq(s, "iso") {
            StorageContent::Iso
        }         else if str_eq(s, "none") {
            StorageContent::NoneValue
        }         else if str_eq(s, "rootdir") {
            StorageContent::Rootdir
        }         else if str_eq(s, "snippets") {
            StorageContent::Snippets
        }         else if str_eq(s, "vztmpl") {
            StorageContent::Vztmpl
        } else {
            StorageContent::UnknownEnumValue(String::from_str(s))
        }
    }

    /// Each known value goes with the name the API uses for it: `backup` for `Backup`, `images` for `Images`, `import` for `Import`, and so on for every known value.
    /// `to_string` writes that name and `from_name` reads it as that value.
    pub proof fn lemma_api_names()
        ensures
            StorageContent::Backup.name() == "backup"@,
            Self::parses_to("backup"@, StorageContent::Backup),
            StorageContent::Images.name() == "images"@,
            Self::parses_to("images"@, StorageContent::Images),
            StorageContent::Import.name() == "import"@,
            Self::parses_to("import"@, StorageContent::Import),
            StorageContent::Iso.name() == "iso"@,
            Self::parses_to("iso"@, StorageContent::Iso),
            StorageContent::NoneValue.name() == "none"@,
            Self::parses_to("none"@, StorageContent::NoneValue),
            StorageContent::Rootdir.name() == "rootdir"@,
            Self::parses_to("rootdir"@, StorageContent::Rootdir),
            StorageContent::Snippets.name() == "snippets"@,
            Self::parses_to("snippets"@, StorageContent::Snippets),
            StorageContent::Vztmpl.name() == "vztmpl"@,
            Self::parses_to("vztmpl"@, StorageContent::Vztmpl),
    {
        Self::lemma_to_string_from_name(StorageContent::Backup);
        Self::lemma_to_string_from_name(StorageContent::Images);
        Self::lemma_to_string_from_name(StorageContent::Import);
        Self::lemma_to_string_from_name(StorageContent::Iso);
        Self::lemma_to_string_from_name(StorageContent::NoneValue);
        Self::lemma_to_string_from_name(StorageContent::Rootdir);
        Self::lemma_to_string_from_name(StorageContent::Snippets);
        Self::lemma_to_string_from_name(StorageContent::Vztmpl);
    }

    /// Writing out a value that was read gives back the name that was read.
    pub proof fn lemma_from_name_to_string(s: Seq<char>, v: Self)
        requires
            Self::parses_to(s, v),
        ensures
            v.name() == s,
    {
    }

    /// Reading the name of a value gives back the value, unless the value is an
    /// unknown one that carries the name of a known one.
    pub proof fn lemma_to_string_from_name(v: Self)
        requires
            v is UnknownEnumValue ==> Self::known(v.name()) is None,
        ensures
            Self::parses_to(v.name(), v),
    {
        if !(v is UnknownEnumValue) {
            Self::lemma_known_names(v);
        }
    }

    /// The spelling of known names, character by character.
    proof fn lemma_name_spelling()
        ensures
            "backup"@.len() == 6 && "backup"@[0] == 'b' && "backup"@[1] == 'a' && "backup"@[2] == 'c' && "backup"@[3] == 'k' && "backup"@[4] == 'u' && "backup"@[5] == 'p',
            "images"@.len() == 6 && "images"@[0] == 'i' && "images"@[1] == 'm' && "images"@[2] == 'a' && "images"@[3] == 'g' && "images"@[4] == 'e' && "images"@[5] == 's',
            "import"@.len() == 6 && "import"@[0] == 'i' && "import"@[1] == 'm' && "import"@[2] == 'p' && "import"@[3] == 'o' && "import"@[4] == 'r' && "import"@[5] == 't',
            "iso"@.len() == 3 && "iso"@[0] == 'i' && "iso"@[1] == 's' && "iso"@[2] == 'o',
            "none"@.len() == 4 && "none"@[0] == 'n' && "none"@[1] == 'o' && "none"@[2] == 'n' && "none"@[3] == 'e',
            "rootdir"@.len() == 7 && "rootdir"@[0] == 'r' && "rootdir"@[1] == 'o' && "rootdir"@[2] == 'o' && "rootdir"@[3] == 't' && "rootdir"@[4] == 'd' && "rootdir"@[5] == 'i' && "rootdir"@[6] == 'r',
            "snippets"@.len() == 8 && "snippets"@[0] == 's' && "snippets"@[1] == 'n' && "snippets"@[2] == 'i' && "snippets"@[3] == 'p' && "snippets"@[4] == 'p' && "snippets"@[5] == 'e' && "snippets"@[6] == 't' && "snippets"@[7] == 's',
            "vztmpl"@.len() == 6 && "vztmpl"@[0] == 'v' && "vztmpl"@[1] == 'z' && "vztmpl"@[2] == 't' && "vztmpl"@[3] == 'm' && "vztmpl"@[4] == 'p' && "vztmpl"@[5] == 'l',
    {
        broadcast use vstd::string::group_string_axioms;

        reveal_strlit("backup");
        reveal_strlit("images");
        reveal_strlit("import");
        reveal_strlit("iso");
        reveal_strlit("none");
        reveal_strlit("rootdir");
        reveal_strlit("snippets");
        reveal_strlit("vztmpl");
    }

    proof fn lemma_known_names(v: Self)
        requires
            !(v is UnknownEnumValue),
        ensures
            Self::known(v.name()) == Some(v),
    {
        Self::lemma_name_spelling();
    }

}

/// Lists the supported and default format. Use 'formats' instead. Only included
/// if 'format' parameter is set.
#[derive(Clone, Debug, PartialEq)]
pub struct StorageInfoFormats {
    pub default: StorageInfoFormatsDefault,

    /// The list of supported formats
    pub supported: Vec<StorageInfoFormatsDefault>,
}

/// The default format of the storage.
#[derive(Clone, Debug)]
pub enum StorageInfoFormatsDefault {
    /// qcow2.
    Qcow2,
    /// raw.
    Raw,
    /// subvol.
    Subvol,
    /// vmdk.
    Vmdk,
    /// Unknown variants for forward compatibility.
    UnknownEnumValue(String),
}

impl PartialEq for StorageInfoFormatsDefault {
    fn eq(&self, other: &Self) -> (r: bool) {
        match (self, other) {
            (StorageInfoFormatsDefault::Qcow2, StorageInfoFormatsDefault::Qcow2) => true,
            (StorageInfoFormatsDefault::Raw, StorageInfoFormatsDefault::Raw) => true,
            (StorageInfoFormatsDefault::Subvol, StorageInfoFormatsDefault::Subvol) => true,
            (StorageInfoFormatsDefault::Vmdk, StorageInfoFormatsDefault::Vmdk) => true,
            (StorageInfoFormatsDefault::UnknownEnumValue(a), StorageInfoFormatsDefault::UnknownEnumValue(b)) => *a == *b,
            _ => false,
        }
    }
}

impl PartialEqSpecImpl for StorageInfoFormatsDefault {
    open spec fn obeys_eq_spec() -> bool {
        true
    }

    open spec fn eq_spec(&self, other: &Self) -> bool {
        match (self, other) {
            (StorageInfoFormatsDefault::UnknownEnumValue(a), StorageInfoFormatsDefault::UnknownEnumValue(b)) => a@ == b@,
            _ => *self == *other,
        }
    }
}

impl std::str::FromStr for StorageInfoFormatsDefault {
    type Err = core::convert::Infallible;

    fn from_str(s: &str) -> (r: Result<Self, Self::Err>)
        ensures
            r matches Ok(v) && Self::parses_to(s@, v),
    {
        Ok(StorageInfoFormatsDefault::from_name(s))
    }
}

impl StorageInfoFormatsDefault {
    /// The name under which the API writes this value.
    pub open spec fn name(self) -> Seq<char> {
        match self {
            StorageInfoFormatsDefault::Qcow2 => "qcow2"@,
            StorageInfoFormatsDefault::Raw => "raw"@,
            StorageInfoFormatsDefault::Subvol => "subvol"@,
            StorageInfoFormatsDefault::Vmdk => "vmdk"@,
            StorageInfoFormatsDefault::UnknownEnumValue(s) => s@,
        }
    }

    /// The known value that the API name `s` stands for, if any.
    pub open spec fn known(s: Seq<char>) -> Option<Self> {
        if s == "qcow2"@ {
            Some(StorageInfoFormatsDefault::Qcow2)
        }         else if s == "raw"@ {
            Some(StorageInfoFormatsDefault::Raw)
        }         else if s == "subvol"@ {
            Some(StorageInfoFormatsDefault::Subvol)
        }         else if s == "vmdk"@ {
            Some(StorageInfoFormatsDefault::Vmdk)
        } else {
            None
        }
    }

    /// `v` is the value that reading the API name `s` gives.
    pub open spec fn parses_to(s: Seq<char>, v: Self) -> bool {
        match Self::known(s) {
            Some(k) => v == k,
            None => v matches StorageInfoFormatsDefault::UnknownEnumValue(t) && t@ == s,
        }
    }

    /// The API name of this value.
    pub fn to_string(&self) -> (r: String)
        ensures
            r@ == self.name(),
    {
        match self {
            StorageInfoFormatsDefault::Qcow2 => String::from_str("qcow2"),
            StorageInfoFormatsDefault::Raw => String::from_str("raw"),
            StorageInfoFormatsDefault::Subvol => String::from_str("subvol"),
            StorageInfoFormatsDefault::Vmdk => String::from_str("vmdk"),
            StorageInfoFormatsDefault::UnknownEnumValue(s) => s.clone(),
        }
    }

    /// Reads an API name; a name that is not known is kept as an unknown value.
    pub fn from_name(s: &str) -> (r: Self)
        ensures
            Self::parses_to(s@, r),
    {
        if str_eq(s, "qcow2") {
            StorageInfoFormatsDefault::Qcow2
        }         else if str_eq(s, "raw") {
            StorageInfoFormatsDefault::Raw
        }         else if str_eq(s, "subvol") {
            StorageInfoFormatsDefault::Subvol
        }         else if str_eq(s, "vmdk") {
            StorageInfoFormatsDefault::Vmdk
        } else {
            StorageInfoFormatsDefault::UnknownEnumValue(String::from_str(s))
        }
    }

    /// Each known value goes with the name the API uses for it: `qcow2` for `Qcow2`, `raw` for `Raw`, `subvol` for `Subvol`, and so on for every known value.
    /// `to_string` writes that name and `from_name` reads it as that value.
    pub proof fn lemma_api_names()
        ensures
            StorageInfoFormatsDefault::Qcow2.name() == "qcow2"@,
            Self::parses_to("qcow2"@, StorageInfoFormatsDefault::Qcow2),
            StorageInfoFormatsDefault::Raw.name() == "raw"@,
            Self::parses_to("raw"@, StorageInfoFormatsDefault::Raw),
            StorageInfoFormatsDefault::Subvol.name() == "subvol"@,
            Self::parses_to("subvol"@, StorageInfoFormatsDefault::Subvol),
            StorageInfoFormatsDefault::Vmdk.name() == "vmdk"@,
            Self::parses_to("vmdk"@, StorageInfoFormatsDefault::Vmdk),
    {
        Self::lemma_to_string_from_name(StorageInfoFormatsDefault::Qcow2);
        Self::lemma_to_string_from_name(StorageInfoFormatsDefault::Raw);
        Self::lemma_to_string_from_name(StorageInfoFormatsDefault::Subvol);
        Self::lemma_to_string_from_name(StorageInfoFormatsDefault::Vmdk);
    }

    /// Writing out a value that was read gives back the name that was read.
    pub proof fn lemma_from_name_to_string(s: Seq<char>, v: Self)
        requires
            Self::parses_to(s, v),
        ensures
            v.name() == s,
    {
    }

    /// Reading the name of a value gives back the value, unless the value is an
    /// unknown one that carries the name of a known one.
    pub proof fn lemma_to_string_from_name(v: Self)
        requires
            v is UnknownEnumValue ==> Self::known(v.name()) is None,
        ensures
            Self::parses_to(v.name(), v),
    {
        if !(v is UnknownEnumValue) {
            Self::lemma_known_names(v);
        }
    }

    /// The spelling of known names, character by character.
    proof fn lemma_name_spelling()
        ensures
            "qcow2"@.len() == 5 && "qcow2"@[0] == 'q' && "qcow2"@[1] == 'c' && "qcow2"@[2] == 'o' && "qcow2"@[3] == 'w' && "qcow2"@[4] == '2',
            "raw"@.len() == 3 && "raw"@[0] == 'r' && "raw"@[1] == 'a' && "raw"@[2] == 'w',
            "subvol"@.len() == 6 && "subvol"@[0] == 's' && "subvol"@[1] == 'u' && "subvol"@[2] == 'b' && "subvol"@[3] == 'v' && "subvol"@[4] == 'o' && "subvol"@[5] == 'l',
            "vmdk"@.len() == 4 && "vmdk"@[0] == 'v' && "vmdk"@[1] == 'm' && "vmdk"@[2] == 'd' && "vmdk"@[3] == 'k',
    {
        broadcast use vstd::string::group_string_axioms;

        reveal_strlit("qcow2");
        reveal_strlit("raw");
        reveal_strlit("subvol");
        reveal_strlit("vmdk");
    }

    proof fn lemma_known_names(v: Self)
        requires
            !(v is UnknownEnumValue),
        ensures
            Self::known(v.name()) == Some(v),
    {
        Self::lemma_name_spelling();
    }

}

/// Object.
#[derive(Debug)]
pub struct StorageStatus {
    /// Set when storage is accessible.
    pub active: Option<bool>,

    /// Available storage space in bytes.
    pub avail: Option<i64>,

    /// Allowed storage content types.
    pub content: Vec<StorageContent>,

    /// Set when storage is enabled (not disabled).
    pub enabled: Option<bool>,

    /// Shared flag from storage configuration.
    pub shared: Option<bool>,

    /// Total storage space in bytes.
    pub total: Option<i64>,

    /// Storage type.
    pub ty: String,

    /// Used storage space in bytes.
    pub used: Option<i64>,
}

} // verus!
