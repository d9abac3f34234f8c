use vstd::prelude::*;
use vstd::string::StrSliceExecFns;
use vstd::string::StringExecFns;

use crate::error::VenvError;
use crate::text::{join, join_path, views};
use crate::version::{decimal, decimal_string, VersionDescriptor};

verus! {

/// The platform conventions that decide an environment's directory names.
#[derive(Clone, Copy, Debug, PartialEq, Eq, Structural)]
pub enum PlatformFamily {
    Unix,
    Windows,
}

/// The directory that holds the environment's executables.
pub open spec fn bin_name(platform: PlatformFamily) -> Seq<char> {
    match platform {
        PlatformFamily::Unix => "bin"@,
        PlatformFamily::Windows => "Scripts"@,
    }
}

/// The name of the link to the interpreter inside the executables directory.
pub open spec fn interpreter_name(platform: PlatformFamily) -> Seq<char> {
    match platform {
        PlatformFamily::Unix => "python"@,
        PlatformFamily::Windows => "python.exe"@,
    }
}

/// `major.minor`, as directory names write it.
pub open spec fn short_version(major: u64, minor: u64) -> Seq<char> {
    decimal(major as nat) + "."@ + decimal(minor as nat)
}

/// The standard-library directory, relative to the environment root; on Unix
/// its name embeds the major and minor version.
pub open spec fn lib_name(platform: PlatformFamily, major: u64, minor: u64) -> Seq<char> {
    match platform {
        PlatformFamily::Unix => "lib/python"@ + short_version(major, minor),
        PlatformFamily::Windows => "Lib"@,
    }
}

/// The name under which the generated path-configuration file is placed.
pub open spec fn path_config_name() -> Seq<char> {
    "venv_paths.pth"@
}

/// The name of the environment's metadata file.
pub open spec fn config_name() -> Seq<char> {
    "pyvenv.cfg"@
}

/// The directories and files of an environment.
pub struct EnvironmentLayout {
    pub platform: PlatformFamily,
    pub location: String,
    pub bin_dir: String,
    pub lib_dir: String,
    pub site_packages_dir: String,
    pub interpreter_link: String,
    pub config_file: String,
    pub path_config_file: String,
    /// Where the path-configuration file is written before it is renamed into place.
    pub path_config_staging: String,
}

impl EnvironmentLayout {
    /// The layout of an environment at `location` for the given version and platform.
    pub open spec fn is_layout_of(
        &self,
        location: Seq<char>,
        major: u64,
        minor: u64,
        platform: PlatformFamily,
    ) -> bool {
        &&& self.platform == platform
        &&& self.location@ == location
        &&& self.bin_dir@ == join_path(location, bin_name(platform))
        &&& self.lib_dir@ == join_path(location, lib_name(platform, major, minor))
        &&& self.site_packages_dir@ == join_path(self.lib_dir@, "site-packages"@)
        &&& self.interpreter_link@ == join_path(self.bin_dir@, interpreter_name(platform))
        &&& self.config_file@ == join_path(location, config_name())
        &&& self.path_config_file@ == join_path(self.site_packages_dir@, path_config_name())
        &&& self.path_config_staging@ == self.path_config_file@ + ".tmp"@
    }

    /// The layout of an environment at `location`; it depends on nothing else
    /// than the location, the version's major and minor numbers and the platform.
    pub fn new(location: &str, version: &VersionDescriptor, platform: PlatformFamily) -> (r:
        EnvironmentLayout)
        ensures
            r.is_layout_of(location@, version.major, version.minor, platform),
    {
        proof {
            reveal_strlit("bin");
            reveal_strlit("Scripts");
            reveal_strlit("python");
            reveal_strlit("python.exe");
            reveal_strlit(".");
            reveal_strlit("lib/python");
            reveal_strlit("Lib");
            reveal_strlit("site-packages");
            reveal_strlit("pyvenv.cfg");
            reveal_strlit("venv_paths.pth");
            reveal_strlit(".tmp");
        }
        let (bin, exe) = match platform {
            PlatformFamily::Unix => ("bin", "python"),
            PlatformFamily::Windows => ("Scripts", "python.exe"),
        };
        let lib_rel = match platform {
            PlatformFamily::Unix => String::from_str("lib/python").concat(
                decimal_string(version.major).as_str(),
            ).concat(".").concat(decimal_string(version.minor).as_str()),
            PlatformFamily::Windows => String::from_str("Lib"),
        };
        let bin_dir = join(location, bin);
        let lib_dir = join(location, lib_rel.as_str());
        let site_packages_dir = join(lib_dir.as_str(), "site-packages");
        let interpreter_link = join(bin_dir.as_str(), exe);
        let config_file = join(location, "pyvenv.cfg");
        let path_config_file = join(site_packages_dir.as_str(), "venv_paths.pth");
        let path_config_staging = String::from_str(path_config_file.as_str()).concat(".tmp");
        assert(lib_rel@ =~= lib_name(platform, version.major, version.minor));
        EnvironmentLayout {
            platform,
            location: String::from_str(location),
            bin_dir,
            lib_dir,
            site_packages_dir,
            interpreter_link,
            config_file,
            path_config_file,
            path_config_staging,
        }
    }

    /// The directories to make, each after the one that holds it: the
    /// location, the executables directory, on Unix the `lib` directory
    /// that holds the versioned standard-library directory, then the
    /// standard-library directory and site-packages.
    pub open spec fn directory_list(&self) -> Seq<Seq<char>> {
        match self.platform {
            PlatformFamily::Unix => seq![
                self.location@,
                self.bin_dir@,
                join_path(self.location@, "lib"@),
                self.lib_dir@,
                self.site_packages_dir@,
            ],
            PlatformFamily::Windows => seq![
                self.location@,
                self.bin_dir@,
                self.lib_dir@,
                self.site_packages_dir@,
            ],
        }
    }

    /// The directories to make, in the order of `directory_list`.
    pub fn directories(&self) -> (r: Vec<String>)
        ensures
            views(r@) == self.directory_list(),
    {
        proof {
            reveal_strlit("lib");
        }
        let mut r: Vec<String> = Vec::new();
        r.push(String::from_str(self.location.as_str()));
        r.push(String::from_str(self.bin_dir.as_str()));
        match self.platform {
            PlatformFamily::Unix => {
                r.push(join(self.location.as_str(), "lib"));
            },
            PlatformFamily::Windows => {},
        }
        r.push(String::from_str(self.lib_dir.as_str()));
        r.push(String::from_str(self.site_packages_dir.as_str()));
        assert(views(r@) =~= self.directory_list());
        r
    }
}

/// What to do about one directory of the layout.
#[derive(Clone, Copy, Debug, PartialEq, Eq, Structural)]
pub enum DirAction {
    /// It is there already.
    Keep,
    /// It is missing and must be made.
    Create,
}

/// Decides about a directory of the layout from what occupies its path:
/// nothing (`None`), a directory (`Some(true)`) or anything else
/// (`Some(false)`), which is a collision.
pub fn directory_action(occupant_is_dir: Option<bool>) -> (r: Result<DirAction, VenvError>)
    ensures
        occupant_is_dir == Option::<bool>::None ==> r == Ok::<DirAction, VenvError>(DirAction::Create),
        occupant_is_dir == Some(true) ==> r == Ok::<DirAction, VenvError>(DirAction::Keep),
        occupant_is_dir == Some(false) ==> r == Err::<DirAction, VenvError>(
            VenvError::LayoutPathCollision,
        ),
{
    match occupant_is_dir {
        None => Ok(DirAction::Create),
        Some(true) => Ok(DirAction::Keep),
        Some(false) => Err(VenvError::LayoutPathCollision),
    }
}

} // verus!
