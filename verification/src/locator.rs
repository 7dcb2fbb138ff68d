use vstd::prelude::*;
use vstd::string::StrSliceExecFns;
use vstd::string::StringExecFns;

use crate::errors::ResolutionError;

verus! {

/// Joining a relative path onto a directory: a separator is inserted
/// unless the directory already ends with one.
pub open spec fn join(base: Seq<char>, rel: Seq<char>) -> Seq<char> {
    if base.len() > 0 && base[base.len() - 1] == '/' {
        base + rel
    } else {
        base + seq!['/'] + rel
    }
}

/// Appends `rel` to the directory `base` as `join` describes.
pub fn join_path(base: &str, rel: &str) -> (r: String)
    ensures
        r@ == join(base@, rel@),
{
    let n: usize = base.unicode_len();
    let mut s: String = String::from_str(base);
    if n == 0 || base.get_char(n - 1) != '/' {
        s.append("/");
        proof {
            reveal_strlit("/");
            assert(s@ =~= base@ + seq!['/']);
        }
    }
    s.append(rel);
    proof {
        assert(s@ =~= join(base@, rel@));
    }
    s
}

/// Relative path from the install root to the development-mode runtime:
/// the virtual environment of a sibling source checkout, at a fixed depth
/// above the application binary.
pub open spec fn dev_runtime_rel() -> Seq<char> {
    "../../../src-python/.venv/Scripts/python.exe"@
}

/// Relative path from the install root to the bundled, self-contained
/// runtime shipped beside the application binary.
pub open spec fn embedded_runtime_rel() -> Seq<char> {
    "python/python.exe"@
}

/// Relative path from the install root to the bundled runtime's package
/// library, which the embedded runtime must be pointed at explicitly.
pub open spec fn site_packages_rel() -> Seq<char> {
    "python/Lib/site-packages"@
}

/// The environment variable through which the embedded runtime is told
/// where its bundled packages live.
pub open spec fn module_path_var() -> Seq<char> {
    "PYTHONPATH"@
}

/// The development-mode candidate executable for a given install root.
/// The caller checks whether this path exists on disk; existence is the
/// sole discriminator between the two install layouts.
pub fn dev_candidate_path(install_root: &str) -> (r: String)
    ensures
        r@ == join(install_root@, dev_runtime_rel()),
{
    join_path(install_root, "../../../src-python/.venv/Scripts/python.exe")
}

/// Where the chosen runtime lives, whether it is the bundled one, and the
/// auxiliary environment it needs. Immutable once computed.
pub struct RuntimeLocation {
    pub executable_path: String,
    pub is_embedded: bool,
    pub aux_env: Vec<(String, String)>,
}

impl RuntimeLocation {
    /// The auxiliary environment is exactly what the chosen runtime kind
    /// requires: empty for a development runtime, the single module search
    /// path entry for the embedded one.
    pub open spec fn wf(self) -> bool {
        if self.is_embedded {
            self.aux_env@.len() == 1 && self.aux_env@[0].0@ == module_path_var()
        } else {
            self.aux_env@.len() == 0
        }
    }
}

/// What a successful resolution for install root `root` looks like: the
/// development candidate whenever it is present on disk (regardless of
/// whether the bundled one also exists), else the bundled runtime with
/// its module search path entry.
pub open spec fn resolved(root: Seq<char>, dev_runtime_present: bool, loc: RuntimeLocation) -> bool {
    &&& loc.wf()
    &&& loc.is_embedded == !dev_runtime_present
    &&& (dev_runtime_present ==> {
        &&& loc.executable_path@ == join(root, dev_runtime_rel())
        &&& loc.aux_env@.len() == 0
    })
    &&& (!dev_runtime_present ==> {
        &&& loc.executable_path@ == join(root, embedded_runtime_rel())
        &&& loc.aux_env@.len() == 1
        &&& loc.aux_env@[0].0@ == module_path_var()
        &&& loc.aux_env@[0].1@ == join(root, site_packages_rel())
    })
}

/// Chooses the runtime for an install root. The development candidate
/// takes priority whenever it is present on disk; otherwise the bundled
/// runtime is selected unconditionally, together with its module search
/// path entry. With no readable install root, resolution fails.
pub fn locate(install_root: Option<&str>, dev_runtime_present: bool) -> (r: Result<
    RuntimeLocation,
    ResolutionError,
>)
    ensures
        r is Ok <==> install_root is Some,
        r is Err ==> r->Err_0 is InstallRootUnavailable,
        r is Ok ==> resolved(install_root->0@, dev_runtime_present, r->Ok_0),
{
    match install_root {
        None => Err(ResolutionError::InstallRootUnavailable),
        Some(root) => {
            if dev_runtime_present {
                Ok(
                    RuntimeLocation {
                        executable_path: dev_candidate_path(root),
                        is_embedded: false,
                        aux_env: Vec::new(),
                    },
                )
            } else {
                let executable_path = join_path(root, "python/python.exe");
                let library_path = join_path(root, "python/Lib/site-packages");
                let mut aux_env: Vec<(String, String)> = Vec::new();
                aux_env.push((String::from_str("PYTHONPATH"), library_path));
                Ok(RuntimeLocation { executable_path, is_embedded: true, aux_env })
            }
        },
    }
}

} // verus!
