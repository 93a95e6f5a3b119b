use vstd::prelude::*;

verus! {

/// The operating systems the library knows.
#[derive(Clone, Copy, Debug, PartialEq, Eq, Structural)]
pub enum Platform {
    Windows,
    Linux,
    Unsupported,
}

/// The platform an operating-system name stands for.
pub open spec fn platform_of(os: Seq<char>) -> Platform {
    if os == "windows"@ {
        Platform::Windows
    } else if os == "linux"@ {
        Platform::Linux
    } else {
        Platform::Unsupported
    }
}

/// The name a platform is reported under.
pub open spec fn platform_name(p: Platform) -> Seq<char> {
    match p {
        Platform::Windows => "windows"@,
        Platform::Linux => "linux"@,
        Platform::Unsupported => "unsupported"@,
    }
}

fn same_text(a: &str, b: &str) -> (r: bool)
    ensures
        r == (a@ == b@),
{
    let n = a.unicode_len();
    if n != b.unicode_len() {
        return false;
    }
    let mut i: usize = 0;
    while i < n
        invariant
            n == a@.len(),
            n == b@.len(),
            i <= n,
            forall|j: int| 0 <= j < i ==> a@[j] == b@[j],
        decreases n - i,
    {
        if a.get_char(i) != b.get_char(i) {
            return false;
        }
        i = i + 1;
    }
    assert(a@ =~= b@);
    true
}

impl Platform {
    /// The platform an operating-system name (as the standard library's
    /// `OS` constant gives it) stands for.
    pub fn from_os(os: &str) -> (r: Platform)
        ensures
            r == platform_of(os@),
    {
        if same_text(os, "windows") {
            Platform::Windows
        } else if same_text(os, "linux") {
            Platform::Linux
        } else {
            Platform::Unsupported
        }
    }

    /// Whether the library can act on this platform.
    pub fn is_supported(&self) -> (r: bool)
        ensures
            r == (*self != Platform::Unsupported),
    {
        !matches!(self, Platform::Unsupported)
    }

    /// The name the platform is reported under.
    pub fn name(&self) -> (r: String)
        ensures
            r@ == platform_name(*self),
    {
        match self {
            Platform::Windows => String::from_str("windows"),
            Platform::Linux => String::from_str("linux"),
            Platform::Unsupported => String::from_str("unsupported"),
        }
    }
}

/// The name of the platform the named operating system is.
pub fn get_platform(os: &str) -> (r: String)
    ensures
        r@ == platform_name(platform_of(os@)),
{
    Platform::from_os(os).name()
}

/// Whatever the operating system, the reported platform is one of the three
/// fixed names, and never empty.
pub proof fn lemma_platform_name_is_fixed(os: Seq<char>)
    ensures
        platform_name(platform_of(os)) == "windows"@ || platform_name(platform_of(os))
            == "linux"@ || platform_name(platform_of(os)) == "unsupported"@,
        platform_name(platform_of(os)).len() > 0,
{
    reveal_strlit("windows");
    reveal_strlit("linux");
    reveal_strlit("unsupported");
}

} // verus!
