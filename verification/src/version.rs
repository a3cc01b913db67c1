//! The protocol versions a connection can speak, and their dotted names.

use vstd::prelude::*;
use vstd::string::StringExecFns;

verus! {

/// Whether two string slices spell the same text.
pub fn str_eq(a: &str, b: &str) -> (same: bool)
    ensures
        same == (a@ == b@),
{
    let left = String::from_str(a);
    let right = String::from_str(b);
    left == right
}

/// A supported protocol version, oldest first.
#[derive(Debug, Clone, Copy, PartialEq, Eq, PartialOrd, Ord, Structural)]
pub enum Version {
    V1_16,
    V1_16_1,
    V1_16_2,
    V1_16_3,
    V1_16_4,
    V1_16_5,
    V1_17,
    V1_17_1,
    V1_18,
    V1_18_1,
    V1_18_2,
    V1_19,
    V1_19_1,
    V1_19_2,
    V1_20,
    V1_20_1,
    V1_20_2,
    V1_20_3,
    V1_20_4,
    V1_20_5,
    V1_21,
    V1_21_1,
    V1_21_2,
    V1_21_3,
    V1_21_4,
    V1_21_5,
    V1_21_6,
    V1_21_7,
}

impl Default for Version {
    /// The newest supported version.
    fn default() -> (version: Self)
        ensures
            version == Version::V1_21_7,
    {
        Version::V1_21_7
    }
}

impl std::str::FromStr for Version {
    type Err = String;

    /// As `from_string`; an unknown name is answered with a message naming it.
    fn from_str(s: &str) -> (parsed: Result<Self, String>)
        ensures
            match parsed {
                Ok(version) => Version::parse(s@) == Some(version),
                Err(message) => Version::parse(s@) is None && message@ == "Invalid version: "@ + s@,
            },
    {
        match Version::from_string(s) {
            Some(version) => Ok(version),
            None => Err("Invalid version: ".to_owned().concat(s)),
        }
    }
}

impl Version {
    /// The dotted name of a version, such as `1.20.5`.
    pub open spec fn name(self) -> Seq<char> {
        match self {
            Version::V1_16 => "1.16"@,
            Version::V1_16_1 => "1.16.1"@,
            Version::V1_16_2 => "1.16.2"@,
            Version::V1_16_3 => "1.16.3"@,
            Version::V1_16_4 => "1.16.4"@,
            Version::V1_16_5 => "1.16.5"@,
            Version::V1_17 => "1.17"@,
            Version::V1_17_1 => "1.17.1"@,
            Version::V1_18 => "1.18"@,
            Version::V1_18_1 => "1.18.1"@,
            Version::V1_18_2 => "1.18.2"@,
            Version::V1_19 => "1.19"@,
            Version::V1_19_1 => "1.19.1"@,
            Version::V1_19_2 => "1.19.2"@,
            Version::V1_20 => "1.20"@,
            Version::V1_20_1 => "1.20.1"@,
            Version::V1_20_2 => "1.20.2"@,
            Version::V1_20_3 => "1.20.3"@,
            Version::V1_20_4 => "1.20.4"@,
            Version::V1_20_5 => "1.20.5"@,
            Version::V1_21 => "1.21"@,
            Version::V1_21_1 => "1.21.1"@,
            Version::V1_21_2 => "1.21.2"@,
            Version::V1_21_3 => "1.21.3"@,
            Version::V1_21_4 => "1.21.4"@,
            Version::V1_21_5 => "1.21.5"@,
            Version::V1_21_6 => "1.21.6"@,
            Version::V1_21_7 => "1.21.7"@,
        }
    }

    /// The version that a dotted name stands for, if any.
    pub open spec fn parse(text: Seq<char>) -> Option<Version> {
        if text == "1.16"@ {
            Some(Version::V1_16)
        } else if text == "1.16.1"@ {
            Some(Version::V1_16_1)
        } else if text == "1.16.2"@ {
            Some(Version::V1_16_2)
        } else if text == "1.16.3"@ {
            Some(Version::V1_16_3)
        } else if text == "1.16.4"@ {
            Some(Version::V1_16_4)
        } else if text == "1.16.5"@ {
            Some(Version::V1_16_5)
        } else if text == "1.17"@ {
            Some(Version::V1_17)
        } else if text == "1.17.1"@ {
            Some(Version::V1_17_1)
        } else if text == "1.18"@ {
            Some(Version::V1_18)
        } else if text == "1.18.1"@ {
            Some(Version::V1_18_1)
        } else if text == "1.18.2"@ {
            Some(Version::V1_18_2)
        } else if text == "1.19"@ {
            Some(Version::V1_19)
        } else if text == "1.19.1"@ {
            Some(Version::V1_19_1)
        } else if text == "1.19.2"@ {
            Some(Version::V1_19_2)
        } else if text == "1.20"@ {
            Some(Version::V1_20)
        } else if text == "1.20.1"@ {
            Some(Version::V1_20_1)
        } else if text == "1.20.2"@ {
            Some(Version::V1_20_2)
        } else if text == "1.20.3"@ {
            Some(Version::V1_20_3)
        } else if text == "1.20.4"@ {
            Some(Version::V1_20_4)
        } else if text == "1.20.5"@ {
            Some(Version::V1_20_5)
        } else if text == "1.21"@ {
            Some(Version::V1_21)
        } else if text == "1.21.1"@ {
            Some(Version::V1_21_1)
        } else if text == "1.21.2"@ {
            Some(Version::V1_21_2)
        } else if text == "1.21.3"@ {
            Some(Version::V1_21_3)
        } else if text == "1.21.4"@ {
            Some(Version::V1_21_4)
        } else if text == "1.21.5"@ {
            Some(Version::V1_21_5)
        } else if text == "1.21.6"@ {
            Some(Version::V1_21_6)
        } else if text == "1.21.7"@ {
            Some(Version::V1_21_7)
        } else {
            None
        }
    }

    /// Every supported version, oldest first.
    pub open spec fn catalogue() -> Seq<Version> {
        seq![
            Version::V1_16,
            Version::V1_16_1,
            Version::V1_16_2,
            Version::V1_16_3,
            Version::V1_16_4,
            Version::V1_16_5,
            Version::V1_17,
            Version::V1_17_1,
            Version::V1_18,
            Version::V1_18_1,
            Version::V1_18_2,
            Version::V1_19,
            Version::V1_19_1,
            Version::V1_19_2,
            Version::V1_20,
            Version::V1_20_1,
            Version::V1_20_2,
            Version::V1_20_3,
            Version::V1_20_4,
            Version::V1_20_5,
            Version::V1_21,
            Version::V1_21_1,
            Version::V1_21_2,
            Version::V1_21_3,
            Version::V1_21_4,
            Version::V1_21_5,
            Version::V1_21_6,
            Version::V1_21_7,
        ]
    }

    /// Reads a dotted name. Any other text gives `None`.
    pub fn from_string(version: &str) -> (parsed: Option<Self>)
        ensures
            parsed == Version::parse(version@),
    {
        if str_eq(version, "1.16") {
            Some(Version::V1_16)
        } else if str_eq(version, "1.16.1") {
            Some(Version::V1_16_1)
        } else if str_eq(version, "1.16.2") {
            Some(Version::V1_16_2)
        } else if str_eq(version, "1.16.3") {
            Some(Version::V1_16_3)
        } else if str_eq(version, "1.16.4") {
            Some(Version::V1_16_4)
        } else if str_eq(version, "1.16.5") {
            Some(Version::V1_16_5)
        } else if str_eq(version, "1.17") {
            Some(Version::V1_17)
        } else if str_eq(version, "1.17.1") {
            Some(Version::V1_17_1)
        } else if str_eq(version, "1.18") {
            Some(Version::V1_18)
        } else if str_eq(version, "1.18.1") {
            Some(Version::V1_18_1)
        } else if str_eq(version, "1.18.2") {
            Some(Version::V1_18_2)
        } else if str_eq(version, "1.19") {
            Some(Version::V1_19)
        } else if str_eq(version, "1.19.1") {
            Some(Version::V1_19_1)
        } else if str_eq(version, "1.19.2") {
            Some(Version::V1_19_2)
        } else if str_eq(version, "1.20") {
            Some(Version::V1_20)
        } else if str_eq(version, "1.20.1") {
            Some(Version::V1_20_1)
        } else if str_eq(version, "1.20.2") {
            Some(Version::V1_20_2)
        } else if str_eq(version, "1.20.3") {
            Some(Version::V1_20_3)
        } else if str_eq(version, "1.20.4") {
            Some(Version::V1_20_4)
        } else if str_eq(version, "1.20.5") {
            Some(Version::V1_20_5)
        } else if str_eq(version, "1.21") {
            Some(Version::V1_21)
        } else if str_eq(version, "1.21.1") {
            Some(Version::V1_21_1)
        } else if str_eq(version, "1.21.2") {
            Some(Version::V1_21_2)
        } else if str_eq(version, "1.21.3") {
            Some(Version::V1_21_3)
        } else if str_eq(version, "1.21.4") {
            Some(Version::V1_21_4)
        } else if str_eq(version, "1.21.5") {
            Some(Version::V1_21_5)
        } else if str_eq(version, "1.21.6") {
            Some(Version::V1_21_6)
        } else if str_eq(version, "1.21.7") {
            Some(Version::V1_21_7)
        } else {
            None
        }
    }

    /// Every supported version, oldest first.
    pub fn all() -> (versions: Vec<Version>)
        ensures
            versions@ == Version::catalogue(),
    {
        let mut versions: Vec<Version> = Vec::new();
        versions.push(Version::V1_16);
        versions.push(Version::V1_16_1);
        versions.push(Version::V1_16_2);
        versions.push(Version::V1_16_3);
        versions.push(Version::V1_16_4);
        versions.push(Version::V1_16_5);
        versions.push(Version::V1_17);
        versions.push(Version::V1_17_1);
        versions.push(Version::V1_18);
        versions.push(Version::V1_18_1);
        versions.push(Version::V1_18_2);
        versions.push(Version::V1_19);
        versions.push(Version::V1_19_1);
        versions.push(Version::V1_19_2);
        versions.push(Version::V1_20);
        versions.push(Version::V1_20_1);
        versions.push(Version::V1_20_2);
        versions.push(Version::V1_20_3);
        versions.push(Version::V1_20_4);
        versions.push(Version::V1_20_5);
        versions.push(Version::V1_21);
        versions.push(Version::V1_21_1);
        versions.push(Version::V1_21_2);
        versions.push(Version::V1_21_3);
        versions.push(Version::V1_21_4);
        versions.push(Version::V1_21_5);
        versions.push(Version::V1_21_6);
        versions.push(Version::V1_21_7);
        assert(versions@ =~= Version::catalogue());
        versions
    }

    /// The dotted name of this version.
    pub fn to_string(&self) -> (text: String)
        ensures
            text@ == self.name(),
    {
        match self {
            Version::V1_16 => String::from_str("1.16"),
            Version::V1_16_1 => String::from_str("1.16.1"),
            Version::V1_16_2 => String::from_str("1.16.2"),
            Version::V1_16_3 => String::from_str("1.16.3"),
            Version::V1_16_4 => String::from_str("1.16.4"),
            Version::V1_16_5 => String::from_str("1.16.5"),
            Version::V1_17 => String::from_str("1.17"),
            Version::V1_17_1 => String::from_str("1.17.1"),
            Version::V1_18 => String::from_str("1.18"),
            Version::V1_18_1 => String::from_str("1.18.1"),
            Version::V1_18_2 => String::from_str("1.18.2"),
            Version::V1_19 => String::from_str("1.19"),
            Version::V1_19_1 => String::from_str("1.19.1"),
            Version::V1_19_2 => String::from_str("1.19.2"),
            Version::V1_20 => String::from_str("1.20"),
            Version::V1_20_1 => String::from_str("1.20.1"),
            Version::V1_20_2 => String::from_str("1.20.2"),
            Version::V1_20_3 => String::from_str("1.20.3"),
            Version::V1_20_4 => String::from_str("1.20.4"),
            Version::V1_20_5 => String::from_str("1.20.5"),
            Version::V1_21 => String::from_str("1.21"),
            Version::V1_21_1 => String::from_str("1.21.1"),
            Version::V1_21_2 => String::from_str("1.21.2"),
            Version::V1_21_3 => String::from_str("1.21.3"),
            Version::V1_21_4 => String::from_str("1.21.4"),
            Version::V1_21_5 => String::from_str("1.21.5"),
            Version::V1_21_6 => String::from_str("1.21.6"),
            Version::V1_21_7 => String::from_str("1.21.7"),
        }
    }
}

/// The names of two different versions differ.
pub proof fn lemma_version_names_distinct(a: Version, b: Version)
    requires
        a != b,
    ensures
        a.name() != b.name(),
{
    reveal_names();
    let x = a.name();
    let y = b.name();
    if x.len() == y.len() {
        assert(x[x.len() - 1] != y[y.len() - 1] || x[3] != y[3]);
    }
}

/// A version's name reads back as that version, and a name that reads as a
/// version is that version's name.
pub proof fn lemma_version_name_round_trip(version: Version, text: Seq<char>)
    ensures
        Version::parse(version.name()) == Some(version),
        Version::parse(text) == Some(version) ==> text == version.name(),
{
    reveal_names();
    let x = version.name();
    assert(x.len() >= 4);
    assert(Version::parse(x) == Some(version)) by {
        let p = Version::parse(x);
        assert(p is Some);
        let q = p->0;
        assert(q.name() == x);
        if q != version {
            lemma_version_names_distinct(q, version);
        }
    }
}

/// Every version stands in the catalogue exactly once.
pub proof fn lemma_catalogue_complete(version: Version)
    ensures
        Version::catalogue().len() == 28,
        Version::catalogue().contains(version),
        Version::catalogue().no_duplicates(),
{
    let c = Version::catalogue();
    assert(c[0] == Version::V1_16);
    assert(c[1] == Version::V1_16_1);
    assert(c[2] == Version::V1_16_2);
    assert(c[3] == Version::V1_16_3);
    assert(c[4] == Version::V1_16_4);
    assert(c[5] == Version::V1_16_5);
    assert(c[6] == Version::V1_17);
    assert(c[7] == Version::V1_17_1);
    assert(c[8] == Version::V1_18);
    assert(c[9] == Version::V1_18_1);
    assert(c[10] == Version::V1_18_2);
    assert(c[11] == Version::V1_19);
    assert(c[12] == Version::V1_19_1);
    assert(c[13] == Version::V1_19_2);
    assert(c[14] == Version::V1_20);
    assert(c[15] == Version::V1_20_1);
    assert(c[16] == Version::V1_20_2);
    assert(c[17] == Version::V1_20_3);
    assert(c[18] == Version::V1_20_4);
    assert(c[19] == Version::V1_20_5);
    assert(c[20] == Version::V1_21);
    assert(c[21] == Version::V1_21_1);
    assert(c[22] == Version::V1_21_2);
    assert(c[23] == Version::V1_21_3);
    assert(c[24] == Version::V1_21_4);
    assert(c[25] == Version::V1_21_5);
    assert(c[26] == Version::V1_21_6);
    assert(c[27] == Version::V1_21_7);
}

proof fn reveal_names()
    ensures
        "1.16"@ =~= seq!['1', '.', '1', '6'],
        "1.16.1"@ =~= seq!['1', '.', '1', '6', '.', '1'],
        "1.16.2"@ =~= seq!['1', '.', '1', '6', '.', '2'],
        "1.16.3"@ =~= seq!['1', '.', '1', '6', '.', '3'],
        "1.16.4"@ =~= seq!['1', '.', '1', '6', '.', '4'],
        "1.16.5"@ =~= seq!['1', '.', '1', '6', '.', '5'],
        "1.17"@ =~= seq!['1', '.', '1', '7'],
        "1.17.1"@ =~= seq!['1', '.', '1', '7', '.', '1'],
        "1.18"@ =~= seq!['1', '.', '1', '8'],
        "1.18.1"@ =~= seq!['1', '.', '1', '8', '.', '1'],
        "1.18.2"@ =~= seq!['1', '.', '1', '8', '.', '2'],
        "1.19"@ =~= seq!['1', '.', '1', '9'],
        "1.19.1"@ =~= seq!['1', '.', '1', '9', '.', '1'],
        "1.19.2"@ =~= seq!['1', '.', '1', '9', '.', '2'],
        "1.20"@ =~= seq!['1', '.', '2', '0'],
        "1.20.1"@ =~= seq!['1', '.', '2', '0', '.', '1'],
        "1.20.2"@ =~= seq!['1', '.', '2', '0', '.', '2'],
        "1.20.3"@ =~= seq!['1', '.', '2', '0', '.', '3'],
        "1.20.4"@ =~= seq!['1', '.', '2', '0', '.', '4'],
        "1.20.5"@ =~= seq!['1', '.', '2', '0', '.', '5'],
        "1.21"@ =~= seq!['1', '.', '2', '1'],
        "1.21.1"@ =~= seq!['1', '.', '2', '1', '.', '1'],
        "1.21.2"@ =~= seq!['1', '.', '2', '1', '.', '2'],
        "1.21.3"@ =~= seq!['1', '.', '2', '1', '.', '3'],
        "1.21.4"@ =~= seq!['1', '.', '2', '1', '.', '4'],
        "1.21.5"@ =~= seq!['1', '.', '2', '1', '.', '5'],
        "1.21.6"@ =~= seq!['1', '.', '2', '1', '.', '6'],
        "1.21.7"@ =~= seq!['1', '.', '2', '1', '.', '7'],
{
    reveal_strlit("1.16");
    reveal_strlit("1.16.1");
    reveal_strlit("1.16.2");
    reveal_strlit("1.16.3");
    reveal_strlit("1.16.4");
    reveal_strlit("1.16.5");
    reveal_strlit("1.17");
    reveal_strlit("1.17.1");
    reveal_strlit("1.18");
    reveal_strlit("1.18.1");
    reveal_strlit("1.18.2");
    reveal_strlit("1.19");
    reveal_strlit("1.19.1");
    reveal_strlit("1.19.2");
    reveal_strlit("1.20");
    reveal_strlit("1.20.1");
    reveal_strlit("1.20.2");
    reveal_strlit("1.20.3");
    reveal_strlit("1.20.4");
    reveal_strlit("1.20.5");
    reveal_strlit("1.21");
    reveal_strlit("1.21.1");
    reveal_strlit("1.21.2");
    reveal_strlit("1.21.3");
    reveal_strlit("1.21.4");
    reveal_strlit("1.21.5");
    reveal_strlit("1.21.6");
    reveal_strlit("1.21.7");
}

} // verus!
