//! The platforms that can be built for, and the types of output.

use vstd::prelude::*;

use crate::text::same_text;

verus! {

/// A platform that can be built for.
#[derive(Debug, Clone, Copy, PartialEq, Eq, Structural)]
pub enum Platform {
    /// The Nintendo GameCube.
    Gamecube,
}

impl Platform {
    /// The platform that an argument names, if it names one.
    pub open spec fn named(value: Seq<char>) -> Option<Platform> {
        if value == "gamecube"@ || value == "gc"@ {
            Some(Platform::Gamecube)
        } else {
            None
        }
    }

    /// The name of the file that describes the platform to the toolchain.
    pub open spec fn target_json(self) -> Seq<char> {
        match self {
            Platform::Gamecube => "rbrew_gamecube.json"@,
        }
    }

    /// The name of the file that describes the platform to the toolchain.
    pub fn target_json_name(self) -> (name: &'static str)
        ensures
            name@ == self.target_json(),
    {
        match self {
            Platform::Gamecube => "rbrew_gamecube.json",
        }
    }

    /// Reads the platform from an argument of the command line.
    pub fn from_arg_value(value: &str) -> (result: Result<Platform, String>)
        ensures
            match result {
                Ok(platform) => Self::named(value@) == Some(platform),
                Err(message) => Self::named(value@) is None && message@
                    == "expected a valid platform."@,
            },
    {
        if same_text(value, "gamecube") || same_text(value, "gc") {
            Ok(Platform::Gamecube)
        } else {
            Err("expected a valid platform.".to_owned())
        }
    }
}

/// The type of file that a build leaves behind.
#[derive(Debug, Clone, Copy, PartialEq, Eq, Structural)]
pub enum OutputType {
    /// The executable as the toolchain links it.
    Elf,
    /// The executable converted for the loader of the console.
    Dol,
}

impl Default for OutputType {
    fn default() -> (output_type: OutputType)
        ensures
            output_type == OutputType::Elf,
    {
        OutputType::Elf
    }
}

impl OutputType {
    /// The type of output that an argument names, if it names one.
    pub open spec fn named(value: Seq<char>) -> Option<OutputType> {
        if value == "elf"@ {
            Some(OutputType::Elf)
        } else if value == "dol"@ {
            Some(OutputType::Dol)
        } else {
            None
        }
    }

    /// Whether the platform has this type of output. Every platform has ELF
    /// files; the GameCube has DOL files too.
    pub open spec fn supports(self, platform: Platform) -> bool {
        match (self, platform) {
            (OutputType::Elf, _) => true,
            (OutputType::Dol, Platform::Gamecube) => true,
        }
    }

    /// The extension of a file of this type, which is empty for an ELF file.
    pub open spec fn extension(self) -> Seq<char> {
        match self {
            OutputType::Elf => ""@,
            OutputType::Dol => ".dol"@,
        }
    }

    /// Reads the type of output from an argument of the command line.
    pub fn from_arg_value(value: &str) -> (result: Result<OutputType, String>)
        ensures
            match result {
                Ok(output_type) => Self::named(value@) == Some(output_type),
                Err(message) => Self::named(value@) is None && message@
                    == "expected a valid output type."@,
            },
    {
        if same_text(value, "elf") {
            Ok(OutputType::Elf)
        } else if same_text(value, "dol") {
            Ok(OutputType::Dol)
        } else {
            Err("expected a valid output type.".to_owned())
        }
    }

    /// Whether the platform has this type of output.
    pub fn supports_platform(self, platform: Platform) -> (supported: bool)
        ensures
            supported == self.supports(platform),
    {
        match (self, platform) {
            (OutputType::Elf, _) | (OutputType::Dol, Platform::Gamecube) => true,
        }
    }

    /// The extension of a file of this type.
    pub fn extension_name(self) -> (extension: &'static str)
        ensures
            extension@ == self.extension(),
    {
        match self {
            OutputType::Elf => "",
            OutputType::Dol => ".dol",
        }
    }
}

} // verus!
