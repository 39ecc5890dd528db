//! Classification of the host's platform replies.
//!
//! The host answers the architecture and operating-system queries with free
//! strings, and either query can fail. A failed query is handed to the
//! library as `None`; anything outside the recognized sets classifies as
//! `Other`, which the resolution pipeline treats as "unsupported, do nothing".

use vstd::prelude::*;

verus! {

/// CPU architecture, as far as the resolution cares.
#[derive(Clone, Copy, PartialEq, Eq, Structural, Debug)]
pub enum Arch {
    X86_64,
    Aarch64,
    Other,
}

/// Operating system, as far as the resolution cares.
#[derive(Clone, Copy, PartialEq, Eq, Structural, Debug)]
pub enum Os {
    Macos,
    Linux,
    Windows,
    Other,
}

/// What the two platform queries together established.
#[derive(Clone, Copy, PartialEq, Eq, Structural, Debug)]
pub struct PlatformInfo {
    pub arch: Arch,
    pub os: Os,
}

/// The architecture that a host reply names; `None` stands for a failed query.
pub open spec fn spec_arch_of(reply: Option<String>) -> Arch {
    match reply {
        Some(s) => if s@ == "x86_64"@ {
            Arch::X86_64
        } else if s@ == "aarch64"@ {
            Arch::Aarch64
        } else {
            Arch::Other
        },
        None => Arch::Other,
    }
}

/// The operating system that a host reply names; `None` stands for a failed query.
pub open spec fn spec_os_of(reply: Option<String>) -> Os {
    match reply {
        Some(s) => if s@ == "macos"@ {
            Os::Macos
        } else if s@ == "linux"@ {
            Os::Linux
        } else if s@ == "windows"@ {
            Os::Windows
        } else {
            Os::Other
        },
        None => Os::Other,
    }
}

/// An architecture on which the server is offered.
pub open spec fn spec_arch_supported(a: Arch) -> bool {
    a != Arch::Other
}

/// An operating system on which the server is offered.
pub open spec fn spec_os_supported(o: Os) -> bool {
    o != Os::Other
}

pub fn arch_of(reply: &Option<String>) -> (r: Arch)
    ensures
        r == spec_arch_of(*reply),
{
    match reply {
        Some(s) => {
            if *s == "x86_64".to_owned() {
                Arch::X86_64
            } else if *s == "aarch64".to_owned() {
                Arch::Aarch64
            } else {
                Arch::Other
            }
        },
        None => Arch::Other,
    }
}

pub fn os_of(reply: &Option<String>) -> (r: Os)
    ensures
        r == spec_os_of(*reply),
{
    match reply {
        Some(s) => {
            if *s == "macos".to_owned() {
                Os::Macos
            } else if *s == "linux".to_owned() {
                Os::Linux
            } else if *s == "windows".to_owned() {
                Os::Windows
            } else {
                Os::Other
            }
        },
        None => Os::Other,
    }
}

} // verus!
