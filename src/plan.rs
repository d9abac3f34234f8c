use vstd::prelude::*;
use vstd::string::StrSliceExecFns;
use vstd::string::StringExecFns;

use crate::entries::{workspace_context, WorkspaceContext};
use crate::error::VenvError;
use crate::layout::{EnvironmentLayout, PlatformFamily};
use crate::text::join_path;
use crate::version::{components, decimal, is_parseable_version, number_value, VersionDescriptor};

verus! {

/// The directory part of a path: what precedes its last `/`, or `/` itself
/// where that is the first character; empty where there is no `/`.
pub open spec fn parent_dir(p: Seq<char>) -> Seq<char>
    decreases p.len(),
{
    if p.len() == 0 {
        p
    } else if p.last() == '/' {
        if p.len() == 1 {
            p
        } else {
            p.drop_last()
        }
    } else {
        parent_dir(p.drop_last())
    }
}

/// The text of the environment's metadata file, which records the
/// interpreter's directory and path and the full version string.
pub open spec fn config_text(interpreter: Seq<char>, version: Seq<char>) -> Seq<char> {
    "home = "@ + parent_dir(interpreter) + "\ninclude-system-site-packages = false\nversion = "@
        + version + "\nexecutable = "@ + interpreter + "\n"@
}

/// The directory that holds the file at `path`.
pub fn parent(path: &str) -> (r: String)
    ensures
        r@ == parent_dir(path@),
{
    let n = path.unicode_len();
    let mut i: usize = n;
    assert(path@.subrange(0, n as int) =~= path@);
    while i > 0 && path.get_char(i - 1) != '/'
        invariant
            n == path@.len(),
            i <= n,
            parent_dir(path@) == parent_dir(path@.subrange(0, i as int)),
        decreases i,
    {
        assert(path@.subrange(0, i as int).drop_last() =~= path@.subrange(0, i - 1));
        i = i - 1;
    }
    if i == 0 {
        String::new()
    } else if i == 1 {
        String::from_str(path.substring_char(0, 1))
    } else {
        assert(path@.subrange(0, i as int).drop_last() =~= path@.subrange(0, i - 1));
        String::from_str(path.substring_char(0, i - 1))
    }
}

/// The text of the metadata file for an environment of `interpreter`, which
/// is expected to be an absolute canonical path.
pub fn render_config(interpreter: &str, version: &str) -> (r: String)
    ensures
        r@ == config_text(interpreter@, version@),
{
    proof {
        reveal_strlit("home = ");
        reveal_strlit("\ninclude-system-site-packages = false\nversion = ");
        reveal_strlit("\nexecutable = ");
        reveal_strlit("\n");
    }
    let home = parent(interpreter);
    String::from_str("home = ").concat(home.as_str()).concat(
        "\ninclude-system-site-packages = false\nversion = ",
    ).concat(version).concat("\nexecutable = ").concat(interpreter).concat("\n")
}

/// Everything decided before the file system is touched: the parsed version,
/// the layout, the metadata text and the workspace to resolve extra entries in.
pub struct VenvPlan {
    pub version: VersionDescriptor,
    pub layout: EnvironmentLayout,
    pub config: String,
    pub workspace: Option<WorkspaceContext>,
}

impl VenvPlan {
    /// What a plan holds for the given arguments.
    pub open spec fn is_plan_for(
        &self,
        interpreter: Seq<char>,
        version: Seq<char>,
        location: Seq<char>,
        platform: PlatformFamily,
    ) -> bool {
        &&& self.version.wf()
        &&& self.version.raw@ == version
        &&& self.layout.is_layout_of(location, self.version.major, self.version.minor, platform)
        &&& self.config@ == config_text(interpreter, version)
    }
}

/// Decides the whole environment for the canonical interpreter path, the
/// version string and the target location. The version is checked first,
/// then that additional paths come with a workspace root.
pub fn plan_venv(
    interpreter: &str,
    version: &str,
    location: &str,
    platform: PlatformFamily,
    workspace_root: Option<String>,
    additional_paths: Option<Vec<String>>,
) -> (r: Result<VenvPlan, VenvError>)
    ensures
        r is Ok <==> is_parseable_version(version@) && !(additional_paths is Some
            && workspace_root is None),
        !is_parseable_version(version@) ==> r == Err::<VenvPlan, VenvError>(
            VenvError::InvalidVersionFormat,
        ),
        is_parseable_version(version@) && additional_paths is Some && workspace_root is None
            ==> r == Err::<VenvPlan, VenvError>(VenvError::WorkspacePathsWithoutRoot),
        r matches Ok(p) ==> p.is_plan_for(interpreter@, version@, location@, platform),
        r matches Ok(p) ==> (p.workspace is Some <==> additional_paths is Some),
        r matches Ok(p) ==> (p.workspace matches Some(w) ==> workspace_root == Some(
            w.workspace_root,
        ) && additional_paths == Some(w.additional_relative_paths)),
{
    let descriptor = match VersionDescriptor::parse(version) {
        Ok(v) => v,
        Err(e) => {
            return Err(e);
        },
    };
    let workspace = match workspace_context(workspace_root, additional_paths) {
        Ok(w) => w,
        Err(e) => {
            return Err(e);
        },
    };
    let layout = EnvironmentLayout::new(location, &descriptor, platform);
    let config = render_config(interpreter, version);
    Ok(VenvPlan { version: descriptor, layout, config, workspace })
}

/// Planning is deterministic: two plans for the same arguments link the same
/// interpreter path, use the same directories and write the same metadata.
pub proof fn lemma_plan_deterministic(
    a: VenvPlan,
    b: VenvPlan,
    interpreter: Seq<char>,
    version: Seq<char>,
    location: Seq<char>,
    platform: PlatformFamily,
)
    requires
        a.is_plan_for(interpreter, version, location, platform),
        b.is_plan_for(interpreter, version, location, platform),
    ensures
        a.version.major == b.version.major,
        a.version.minor == b.version.minor,
        a.layout.interpreter_link@ == b.layout.interpreter_link@,
        a.layout.site_packages_dir@ == b.layout.site_packages_dir@,
        a.layout.path_config_file@ == b.layout.path_config_file@,
        a.layout.config_file@ == b.layout.config_file@,
        a.config@ == b.config@,
{
}

/// On Unix the site-packages directory of a plan names the first two
/// components of the version string, read as numbers, as `major.minor`;
/// later components play no part in it.
pub proof fn lemma_site_packages_names_version(
    p: VenvPlan,
    interpreter: Seq<char>,
    version: Seq<char>,
    location: Seq<char>,
)
    requires
        p.is_plan_for(interpreter, version, location, PlatformFamily::Unix),
    ensures
        p.layout.site_packages_dir@ == join_path(
            join_path(
                location,
                "lib/python"@ + decimal(number_value(components(version)[0])) + "."@ + decimal(
                    number_value(components(version)[1]),
                ),
            ),
            "site-packages"@,
        ),
{
}

} // verus!
