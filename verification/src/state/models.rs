//! What an installation leaves behind: the saved profile and the mod loader.

use vstd::prelude::*;

verus! {

/// The saved record of an installation: what to start and how.
#[derive(Debug)]
pub struct InstallationProfile {
    pub minecraft_version: String,
    pub modloader_type: String,
    pub modloader_version: Option<String>,
    pub main_class: String,
    pub classpath: String,
    pub native_libraries: bool,
}

/// The mod loader an installation uses.
#[derive(Clone, Copy, Debug, PartialEq, Eq, Structural)]
pub enum ModLoader {
    Vanilla,
    Fabric,
    NeoForge,
}

impl ModLoader {
    /// The loader's name: "vanilla", "fabric" or "neoforge".
    pub open spec fn name_spec(self) -> Seq<char> {
        match self {
            ModLoader::Vanilla => "vanilla"@,
            ModLoader::Fabric => "fabric"@,
            ModLoader::NeoForge => "neoforge"@,
        }
    }

    /// The loader's name: "vanilla", "fabric" or "neoforge".
    pub fn as_str(&self) -> (s: &'static str)
        ensures
            s@ == self.name_spec(),
    {
        match self {
            ModLoader::Vanilla => "vanilla",
            ModLoader::Fabric => "fabric",
            ModLoader::NeoForge => "neoforge",
        }
    }
}

impl Default for ModLoader {
    /// An installation is vanilla unless told otherwise.
    fn default() -> (m: ModLoader)
        ensures
            m == ModLoader::Vanilla,
    {
        ModLoader::Vanilla
    }
}

/// Each loader has its own name: two loaders with the same name are the same.
pub proof fn law_loader_names_are_distinct(a: ModLoader, b: ModLoader)
    ensures
        a.name_spec() == b.name_spec() ==> a == b,
{
    reveal_strlit("vanilla");
    reveal_strlit("fabric");
    reveal_strlit("neoforge");
    assert("vanilla"@.len() != "fabric"@.len());
    assert("vanilla"@.len() != "neoforge"@.len());
    assert("fabric"@.len() != "neoforge"@.len());
}

} // verus!
