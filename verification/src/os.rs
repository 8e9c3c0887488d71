//! What a node tells its peers about the system it runs on. The registry
//! carries these values along and never decides on them.

use vstd::prelude::*;
use crate::error::{FluxyError, FluxyResult};

verus! {

/// The family of an operating system.
#[derive(Debug, Clone, Copy, PartialEq, Eq, Structural)]
pub enum OsType {
    Linux,
    Windows,
    Macos,
    IOS,
    Android,
}

/// The lower-case name of an operating system family.
pub open spec fn os_type_name(os_type: OsType) -> Seq<char> {
    match os_type {
        OsType::Linux => "linux"@,
        OsType::Windows => "windows"@,
        OsType::Macos => "macos"@,
        OsType::IOS => "ios"@,
        OsType::Android => "android"@,
    }
}

/// The family that a platform name belongs to. Linux and the BSDs count as
/// one family; a name outside the list belongs to none.
pub open spec fn os_type_of(platform: Seq<char>) -> Option<OsType> {
    if platform == "linux"@ || platform == "dragonfly"@ || platform == "freebsd"@ || platform
        == "netbsd"@ || platform == "openbsd"@ {
        Some(OsType::Linux)
    } else if platform == "windows"@ {
        Some(OsType::Windows)
    } else if platform == "macos"@ {
        Some(OsType::Macos)
    } else if platform == "ios"@ {
        Some(OsType::IOS)
    } else if platform == "android"@ {
        Some(OsType::Android)
    } else {
        None
    }
}

impl OsType {
    /// The lower-case name of the family.
    pub fn name(&self) -> (name: String)
        ensures
            name@ == os_type_name(*self),
    {
        match self {
            OsType::Linux => "linux".to_owned(),
            OsType::Windows => "windows".to_owned(),
            OsType::Macos => "macos".to_owned(),
            OsType::IOS => "ios".to_owned(),
            OsType::Android => "android".to_owned(),
        }
    }
}

/// Whether two pieces of text hold the same characters.
pub fn same_text(a: &str, b: &str) -> (same: bool)
    ensures
        same == (a@ == b@),
{
    let left = a.to_owned();
    let right = b.to_owned();
    left == right
}

/// The operating system family of a platform name.
pub fn os_type(platform: &str) -> (family: Option<OsType>)
    ensures
        family == os_type_of(platform@),
{
    if same_text(platform, "linux") || same_text(platform, "dragonfly") || same_text(
        platform,
        "freebsd",
    ) || same_text(platform, "netbsd") || same_text(platform, "openbsd") {
        Some(OsType::Linux)
    } else if same_text(platform, "windows") {
        Some(OsType::Windows)
    } else if same_text(platform, "macos") {
        Some(OsType::Macos)
    } else if same_text(platform, "ios") {
        Some(OsType::IOS)
    } else if same_text(platform, "android") {
        Some(OsType::Android)
    } else {
        None
    }
}

/// The version of the running operating system, as text.
///
/// Calls `os_info::get` and renders the `Version` it reports. The text
/// depends on the machine, so nothing is claimed of it.
#[verifier::external_body]
pub fn version() -> (text: String) {
    os_info::get().version().to_string()
}

/// The host name of this machine.
///
/// Calls `hostname::get`. `Err` carries the system's refusal; `Ok(None)`
/// means that the name the system gave is not valid Unicode. The name
/// depends on the machine, so nothing is claimed of it.
#[verifier::external_body]
pub(crate) fn lookup_hostname() -> (name: Result<Option<String>, std::io::Error>) {
    match hostname::get() {
        Ok(name) => Ok(name.into_string().ok()),
        Err(e) => Err(e),
    }
}

/// The name under which a node announces itself: the host name, or
/// `unknown` where the system's name cannot be written as text.
pub open spec fn announced_hostname(name: Option<Seq<char>>) -> Seq<char> {
    match name {
        Some(text) => text,
        None => "unknown"@,
    }
}

/// The view of an optional string.
pub open spec fn text_of(name: Option<String>) -> Option<Seq<char>> {
    match name {
        Some(text) => Some(text@),
        None => None,
    }
}

/// The name under which a node announces itself, given what the lookup of
/// the host name brought.
pub fn hostname_or_unknown(name: Option<String>) -> (hostname: String)
    ensures
        hostname@ == announced_hostname(text_of(name)),
{
    match name {
        Some(text) => text,
        None => "unknown".to_owned(),
    }
}

/// The name under which this node announces itself. Fails where the
/// system refuses the lookup.
pub fn local_hostname() -> (hostname: FluxyResult<String>)
    ensures
        hostname matches Err(e) ==> e is Io,
{
    hostname_from_lookup(lookup_hostname())
}

/// What the lookup of the host name leads to: the name under which the
/// node announces itself where the system answered, and the system's
/// refusal, unchanged, as an `Io` error where it did not.
pub fn hostname_from_lookup(looked_up: Result<Option<String>, std::io::Error>) -> (hostname:
    FluxyResult<String>)
    ensures
        match looked_up {
            Ok(name) => hostname matches Ok(text) && text@ == announced_hostname(text_of(name)),
            Err(refusal) => hostname matches Err(FluxyError::Io(inner)) && inner == refusal,
        },
{
    match looked_up {
        Ok(name) => Ok(hostname_or_unknown(name)),
        Err(refusal) => Err(FluxyError::Io(refusal)),
    }
}

/// Platform name, family and version of a node's operating system.
#[derive(Debug, PartialEq, Eq)]
pub struct OsInformation {
    platform: String,
    os_type: OsType,
    version: String,
}

/// The model of an `OsInformation`.
pub struct OsInformationView {
    pub platform: Seq<char>,
    pub os_type: OsType,
    pub version: Seq<char>,
}

impl View for OsInformation {
    type V = OsInformationView;

    closed spec fn view(&self) -> OsInformationView {
        OsInformationView {
            platform: self.platform@,
            os_type: self.os_type,
            version: self.version@,
        }
    }
}

impl Clone for OsInformation {
    fn clone(&self) -> (copy: Self)
        ensures
            copy@ == self@,
    {
        OsInformation {
            platform: self.platform.clone(),
            os_type: self.os_type,
            version: self.version.clone(),
        }
    }
}

impl OsInformation {
    /// Describes the system this node runs on, given the platform name it
    /// was built for. The version is asked of the system. A platform of no
    /// known family has no description.
    pub fn new(platform: &str) -> (info: Option<Self>)
        ensures
            match os_type_of(platform@) {
                Some(family) => info is Some && info.unwrap()@.platform == platform@
                    && info.unwrap()@.os_type == family,
                None => info is None,
            },
    {
        match os_type(platform) {
            Some(family) => Some(Self::from_parts(platform.to_owned(), family, version())),
            None => None,
        }
    }

    /// A description made of the three given parts.
    pub fn from_parts(platform: String, os_type: OsType, version: String) -> (info: Self)
        ensures
            info@ == (OsInformationView { platform: platform@, os_type, version: version@ }),
    {
        OsInformation { platform, os_type, version }
    }

    /// The platform name.
    pub fn platform(&self) -> (platform: &String)
        ensures
            platform@ == self@.platform,
    {
        &self.platform
    }

    /// The operating system family.
    pub fn os_type(&self) -> (family: OsType)
        ensures
            family == self@.os_type,
    {
        self.os_type
    }

    /// The version text.
    pub fn version(&self) -> (version: &String)
        ensures
            version@ == self@.version,
    {
        &self.version
    }
}

} // verus!
