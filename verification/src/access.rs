//! Access control: realms and API tokens.
use vstd::prelude::*;
use vstd::std_specs::cmp::PartialEqSpecImpl;
use vstd::string::*;

use crate::text::str_eq;

verus! {

/// Object.
#[derive(Debug)]
pub struct CreateToken {
    pub comment: Option<String>,

    /// API token expiration date (seconds since epoch). '0' means no expiration
    /// date.
    pub expire: Option<u64>,

    /// Restrict API token privileges with separate ACLs (default), or give full
    /// privileges of corresponding user.
    pub privsep: Option<bool>,
}

impl Default for CreateToken {
    /// No parameter is set.
    fn default() -> (r: Self)
        ensures
            r.comment is None,
            r.expire is None,
            r.privsep is None,
    {
        CreateToken {
            comment: None,
            expire: None,
            privsep: None,
        }
    }
}

/// Object.
#[derive(Debug)]
pub struct CreateTokenResponse {
    /// The full token id.
    pub full_tokenid: String,

    pub info: CreateTokenResponseInfo,

    /// API token value used for authentication.
    pub value: String,
}

/// Object.
#[derive(Debug)]
pub struct CreateTokenResponseInfo {
    pub comment: Option<String>,

    /// API token expiration date (seconds since epoch). '0' means no expiration
    /// date.
    pub expire: Option<u64>,

    /// Restrict API token privileges with separate ACLs (default), or give full
    /// privileges of corresponding user.
    pub privsep: Option<bool>,
}

/// Object.
#[derive(Clone, Debug, PartialEq)]
pub struct ListRealm {
    /// A comment. The GUI use this text when you select a domain (Realm) on the
    /// login window.
    pub comment: Option<String>,

    pub realm: String,

    pub tfa: Option<ListRealmTfa>,

    pub ty: String,
}

/// Two-factor authentication provider.
#[derive(Clone, Debug)]
pub enum ListRealmTfa {
    /// yubico.
    Yubico,
    /// oath.
    Oath,
    /// Unknown variants for forward compatibility.
    UnknownEnumValue(String),
}

impl PartialEq for ListRealmTfa {
    fn eq(&self, other: &Self) -> (r: bool) {
        match (self, other) {
            (ListRealmTfa::Yubico, ListRealmTfa::Yubico) => true,
            (ListRealmTfa::Oath, ListRealmTfa::Oath) => true,
            (ListRealmTfa::UnknownEnumValue(a), ListRealmTfa::UnknownEnumValue(b)) => *a == *b,
            _ => false,
        }
    }
}

impl PartialEqSpecImpl for ListRealmTfa {
    open spec fn obeys_eq_spec() -> bool {
        true
    }

    open spec fn eq_spec(&self, other: &Self) -> bool {
        match (self, other) {
            (ListRealmTfa::UnknownEnumValue(a), ListRealmTfa::UnknownEnumValue(b)) => a@ == b@,
            _ => *self == *other,
        }
    }
}

impl std::str::FromStr for ListRealmTfa {
    type Err = core::convert::Infallible;

    fn from_str(s: &str) -> (r: Result<Self, Self::Err>)
        ensures
            r matches Ok(v) && Self::parses_to(s@, v),
    {
        Ok(ListRealmTfa::from_name(s))
    }
}

impl ListRealmTfa {
    /// The name under which the API writes this value.
    pub open spec fn name(self) -> Seq<char> {
        match self {
            ListRealmTfa::Yubico => "yubico"@,
            ListRealmTfa::Oath => "oath"@,
            ListRealmTfa::UnknownEnumValue(s) => s@,
        }
    }

    /// The known value that the API name `s` stands for, if any.
    pub open spec fn known(s: Seq<char>) -> Option<Self> {
        if s == "yubico"@ {
            Some(ListRealmTfa::Yubico)
        }         else if s == "oath"@ {
            Some(ListRealmTfa::Oath)
        } else {
            None
        }
    }

    /// `v` is the value that reading the API name `s` gives.
    pub open spec fn parses_to(s: Seq<char>, v: Self) -> bool {
        match Self::known(s) {
            Some(k) => v == k,
            None => v matches ListRealmTfa::UnknownEnumValue(t) && t@ == s,
        }
    }

    /// The API name of this value.
    pub fn to_string(&self) -> (r: String)
        ensures
            r@ == self.name(),
    {
        match self {
            ListRealmTfa::Yubico => String::from_str("yubico"),
            ListRealmTfa::Oath => String::from_str("oath"),
            ListRealmTfa::UnknownEnumValue(s) => s.clone(),
        }
    }

    /// Reads an API name; a name that is not known is kept as an unknown value.
    pub fn from_name(s: &str) -> (r: Self)
        ensures
            Self::parses_to(s@, r),
    {
        if str_eq(s, "yubico") {
            ListRealmTfa::Yubico
        }         else if str_eq(s, "oath") {
            ListRealmTfa::Oath
        } else {
            ListRealmTfa::UnknownEnumValue(String::from_str(s))
        }
    }

    /// Each known value goes with the name the API uses for it: `yubico` for `Yubico`, `oath` for `Oath`.
    /// `to_string` writes that name and `from_name` reads it as that value.
    pub proof fn lemma_api_names()
        ensures
            ListRealmTfa::Yubico.name() == "yubico"@,
            Self::parses_to("yubico"@, ListRealmTfa::Yubico),
            ListRealmTfa::Oath.name() == "oath"@,
            Self::parses_to("oath"@, ListRealmTfa::Oath),
    {
        Self::lemma_to_string_from_name(ListRealmTfa::Yubico);
        Self::lemma_to_string_from_name(ListRealmTfa::Oath);
    }

    /// Writing out a value that was read gives back the name that was read.
    pub proof fn lemma_from_name_to_string(s: Seq<char>, v: Self)
        requires
            Self::parses_to(s, v),
        ensures
            v.name() == s,
    {
    }

    /// Reading the name of a value gives back the value, unless the value is an
    /// unknown one that carries the name of a known one.
    pub proof fn lemma_to_string_from_name(v: Self)
        requires
            v is UnknownEnumValue ==> Self::known(v.name()) is None,
        ensures
            Self::parses_to(v.name(), v),
    {
        if !(v is UnknownEnumValue) {
            Self::lemma_known_names(v);
        }
    }

    /// The spelling of known names, character by character.
    proof fn lemma_name_spelling()
        ensures
            "yubico"@.len() == 6 && "yubico"@[0] == 'y' && "yubico"@[1] == 'u' && "yubico"@[2] == 'b' && "yubico"@[3] == 'i' && "yubico"@[4] == 'c' && "yubico"@[5] == 'o',
            "oath"@.len() == 4 && "oath"@[0] == 'o' && "oath"@[1] == 'a' && "oath"@[2] == 't' && "oath"@[3] == 'h',
    {
        broadcast use vstd::string::group_string_axioms;

        reveal_strlit("yubico");
        reveal_strlit("oath");
    }

    proof fn lemma_known_names(v: Self)
        requires
            !(v is UnknownEnumValue),
        ensures
            Self::known(v.name()) == Some(v),
    {
        Self::lemma_name_spelling();
    }

}

} // verus!
