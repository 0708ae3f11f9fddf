//! The operating systems the launcher knows, and what differs between them.

use vstd::prelude::*;

verus! {

/// The operating system the launcher runs on.
#[derive(Clone, Copy, Debug, PartialEq, Eq, Structural)]
pub enum Platform {
    Windows,
    Linux,
    MacOs,
}

impl Platform {
    /// The character between classpath entries: ';' on Windows, ':' elsewhere.
    pub open spec fn classpath_separator_char(self) -> char {
        match self {
            Platform::Windows => ';',
            _ => ':',
        }
    }

    /// The separator between classpath entries, as text.
    pub open spec fn classpath_separator_spec(self) -> Seq<char> {
        seq![self.classpath_separator_char()]
    }

    /// The file name of the Java launcher: "java.exe" on Windows, "java" elsewhere.
    pub open spec fn java_executable_spec(self) -> Seq<char> {
        match self {
            Platform::Windows => seq!['j', 'a', 'v', 'a', '.', 'e', 'x', 'e'],
            _ => seq!['j', 'a', 'v', 'a'],
        }
    }

    /// The key under which a library lists its native classifier for this
    /// system: "windows", "linux" or "osx".
    pub open spec fn natives_key_spec(self) -> Seq<char> {
        match self {
            Platform::Windows => seq!['w', 'i', 'n', 'd', 'o', 'w', 's'],
            Platform::Linux => seq!['l', 'i', 'n', 'u', 'x'],
            Platform::MacOs => seq!['o', 's', 'x'],
        }
    }

    /// The separator between classpath entries.
    pub fn classpath_separator(&self) -> (s: &'static str)
        ensures
            s@ == self.classpath_separator_spec(),
    {
        match self {
            Platform::Windows => {
                proof {
                    reveal_strlit(";");
                }
                ";"
            },
            _ => {
                proof {
                    reveal_strlit(":");
                }
                ":"
            },
        }
    }

    /// The file name of the Java launcher.
    pub fn java_executable(&self) -> (s: &'static str)
        ensures
            s@ == self.java_executable_spec(),
    {
        match self {
            Platform::Windows => {
                proof {
                    reveal_strlit("java.exe");
                }
                "java.exe"
            },
            _ => {
                proof {
                    reveal_strlit("java");
                }
                "java"
            },
        }
    }

    /// The key of this system in a library's natives table.
    pub fn natives_key(&self) -> (s: &'static str)
        ensures
            s@ == self.natives_key_spec(),
    {
        match self {
            Platform::Windows => {
                proof {
                    reveal_strlit("windows");
                }
                "windows"
            },
            Platform::Linux => {
                proof {
                    reveal_strlit("linux");
                }
                "linux"
            },
            Platform::MacOs => {
                proof {
                    reveal_strlit("osx");
                }
                "osx"
            },
        }
    }
}

} // verus!
