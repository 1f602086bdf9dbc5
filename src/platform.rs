//! The platform query and the host capability flag.
use vstd::prelude::*;

verus! {

/// An operating system that the shell names, or `Unknown` for any other.
#[derive(Clone, Copy, Debug, PartialEq, Eq, Structural)]
pub enum Platform {
    MacOs,
    Ios,
    Android,
    Windows,
    Linux,
    Unknown,
}

/// The platform that a target operating system stands for, given the name
/// under which the compiler knows it (`"macos"`, `"linux"`, ...).
pub open spec fn platform_of(target_os: Seq<char>) -> Platform {
    if target_os == "macos"@ {
        Platform::MacOs
    } else if target_os == "ios"@ {
        Platform::Ios
    } else if target_os == "android"@ {
        Platform::Android
    } else if target_os == "windows"@ {
        Platform::Windows
    } else if target_os == "linux"@ {
        Platform::Linux
    } else {
        Platform::Unknown
    }
}

/// Whether a target operating system is one of those the shell names.
pub open spec fn is_known_target(target_os: Seq<char>) -> bool {
    target_os == "macos"@ || target_os == "ios"@ || target_os == "android"@
        || target_os == "windows"@ || target_os == "linux"@
}

impl Platform {
    /// The label that the front end receives for this platform.
    pub open spec fn label_spec(self) -> Seq<char> {
        match self {
            Platform::MacOs => "macOS"@,
            Platform::Ios => "iOS"@,
            Platform::Android => "Android"@,
            Platform::Windows => "Windows"@,
            Platform::Linux => "Linux"@,
            Platform::Unknown => "Unknown"@,
        }
    }

    pub fn label(&self) -> (r: String)
        ensures
            r@ == self.label_spec(),
    {
        match self {
            Platform::MacOs => String::from_str("macOS"),
            Platform::Ios => String::from_str("iOS"),
            Platform::Android => String::from_str("Android"),
            Platform::Windows => String::from_str("Windows"),
            Platform::Linux => String::from_str("Linux"),
            Platform::Unknown => String::from_str("Unknown"),
        }
    }
}

fn same_text(a: &str, b: &str) -> (r: bool)
    ensures
        r == (a@ == b@),
{
    String::from_str(a) == String::from_str(b)
}

/// Resolves a target operating system name to the platform it stands for.
pub fn platform_from_target(target_os: &str) -> (p: Platform)
    ensures
        p == platform_of(target_os@),
{
    if same_text(target_os, "macos") {
        Platform::MacOs
    } else if same_text(target_os, "ios") {
        Platform::Ios
    } else if same_text(target_os, "android") {
        Platform::Android
    } else if same_text(target_os, "windows") {
        Platform::Windows
    } else if same_text(target_os, "linux") {
        Platform::Linux
    } else {
        Platform::Unknown
    }
}

/// The platform label of a build for the target operating system `target_os`.
pub fn get_platform(target_os: &str) -> (r: String)
    ensures
        r@ == platform_of(target_os@).label_spec(),
{
    platform_from_target(target_os).label()
}

/// Tells the front end that it runs inside the native shell.
pub fn is_tauri() -> (r: bool)
    ensures
        r,
{
    true
}

/// A build for a target that the shell names reports that target's own
/// label, and never `"Unknown"`.
pub proof fn lemma_known_target_label(target_os: Seq<char>)
    requires
        is_known_target(target_os),
    ensures
        platform_of(target_os) != Platform::Unknown,
        platform_of(target_os).label_spec() != "Unknown"@,
        target_os == "macos"@ ==> platform_of(target_os).label_spec() == "macOS"@,
        target_os == "ios"@ ==> platform_of(target_os).label_spec() == "iOS"@,
        target_os == "android"@ ==> platform_of(target_os).label_spec() == "Android"@,
        target_os == "windows"@ ==> platform_of(target_os).label_spec() == "Windows"@,
        target_os == "linux"@ ==> platform_of(target_os).label_spec() == "Linux"@,
{
    reveal_strlit("macos");
    reveal_strlit("ios");
    reveal_strlit("android");
    reveal_strlit("windows");
    reveal_strlit("linux");
    reveal_strlit("macOS");
    reveal_strlit("iOS");
    reveal_strlit("Android");
    reveal_strlit("Windows");
    reveal_strlit("Linux");
    reveal_strlit("Unknown");
    // The names begin with different letters, and so do the labels.
    assert("macos"@[0] != "ios"@[0]);
    assert("macos"@[0] != "android"@[0]);
    assert("macos"@[0] != "windows"@[0]);
    assert("macos"@[0] != "linux"@[0]);
    assert("ios"@[0] != "android"@[0]);
    assert("ios"@[0] != "windows"@[0]);
    assert("ios"@[0] != "linux"@[0]);
    assert("android"@[0] != "windows"@[0]);
    assert("android"@[0] != "linux"@[0]);
    assert("windows"@[0] != "linux"@[0]);
    assert("macOS"@[0] != "Unknown"@[0]);
    assert("iOS"@[0] != "Unknown"@[0]);
    assert("Android"@[0] != "Unknown"@[0]);
    assert("Windows"@[0] != "Unknown"@[0]);
    assert("Linux"@[0] != "Unknown"@[0]);
}

/// A build for any target that the shell does not name reports `"Unknown"`.
pub proof fn lemma_unlisted_target_label(target_os: Seq<char>)
    requires
        !is_known_target(target_os),
    ensures
        platform_of(target_os) == Platform::Unknown,
        platform_of(target_os).label_spec() == "Unknown"@,
{
}

/// The commands keep no state: whatever came before, two answers of the
/// platform query in one build are the same text, and the capability flag is
/// true each time.
pub proof fn lemma_answers_repeat(
    target_os: Seq<char>,
    first: Seq<char>,
    second: Seq<char>,
    flag_first: bool,
    flag_second: bool,
)
    requires
        first == platform_of(target_os).label_spec(),
        second == platform_of(target_os).label_spec(),
        flag_first,
        flag_second,
    ensures
        first == second,
        flag_first == flag_second,
{
}

} // verus!
