//! Platform tags: the path segment that selects a directory of pages.

use vstd::prelude::*;

verus! {

/// The directory of pages that a request is issued against.
#[derive(Clone, Copy, Debug, PartialEq, Eq, Structural)]
pub enum Platform {
    /// Pages that apply to every operating system.
    Common,
    /// Pages for Apple desktop systems.
    Osx,
    /// Pages for every other system.
    Linux,
}

/// The operating system this process runs on, as far as page lookup cares.
///
/// It is settled once at startup and only read afterwards.
#[derive(Clone, Copy, Debug, PartialEq, Eq, Structural)]
pub enum Host {
    /// An Apple desktop system.
    Apple,
    /// Anything else.
    Other,
}

impl Platform {
    /// The tag of this platform as it appears in a page's address.
    pub open spec fn tag_spec(self) -> Seq<char> {
        match self {
            Platform::Common => "common"@,
            Platform::Osx => "osx"@,
            Platform::Linux => "linux"@,
        }
    }

    /// The tag of this platform as it appears in a page's address.
    pub fn tag(self) -> (tag: &'static str)
        ensures
            tag@ == self.tag_spec(),
    {
        match self {
            Platform::Common => "common",
            Platform::Osx => "osx",
            Platform::Linux => "linux",
        }
    }
}

impl Host {
    /// The host that runs the operating system named `os`: an Apple desktop
    /// system under the name `"macos"`, under which the standard library
    /// reports it, and no Apple desktop system under any other name.
    pub open spec fn named(os: Seq<char>) -> Host {
        if os == "macos"@ {
            Host::Apple
        } else {
            Host::Other
        }
    }

    /// The platform whose pages are specific to this host.
    pub open spec fn platform_spec(self) -> Platform {
        match self {
            Host::Apple => Platform::Osx,
            Host::Other => Platform::Linux,
        }
    }

    /// The platform whose pages are specific to this host: never
    /// [`Platform::Common`].
    pub fn platform(self) -> (platform: Platform)
        ensures
            platform == self.platform_spec(),
            platform != Platform::Common,
    {
        match self {
            Host::Apple => Platform::Osx,
            Host::Other => Platform::Linux,
        }
    }

    /// Classifies an operating system by its name: `"macos"` is an Apple
    /// desktop system, every other name is not.
    pub fn detect(os: &str) -> (host: Host)
        ensures
            host == Host::named(os@),
    {
        let name = os.to_owned();
        let apple = "macos".to_owned();
        if name == apple {
            Host::Apple
        } else {
            Host::Other
        }
    }
}

} // verus!
