//! The resolved, immutable configuration handle of a script run.
//!
//! A [`Shell`] is built once from an environment snapshot: it derives the
//! project root by ascending one level from the manifest directory the
//! snapshot names, picks the output directory, resolves the compiler and
//! package-manager driver paths, and then answers path queries and hands
//! out [`Subprocess`] builders.

use crate::envmap::env_lookup;
use crate::envmap::lookup;
use crate::envmap::opt_str_view;
use crate::envmap::clone_env;
use crate::pathops::join_spec;
use crate::pathops::join_path;
use crate::pathops::parent_dir;
use crate::pathops::parent_dir_spec;
use crate::subprocess::Subprocess;
use vstd::prelude::*;

verus! {

/// The resolved configuration of a script run: the environment snapshot
/// taken at construction, the project root and output directory derived
/// from it, and the resolved tool paths.  Immutable after construction.
pub struct Shell {
    pub env_snapshot: Vec<(String, String)>,
    pub project_root: String,
    pub target_dir: String,
    pub rustc_path: String,
    pub cargo_path: String,
}

/// The manifest directory the resolution starts from: the value of
/// CARGO_MANIFEST_DIR in the snapshot, or the build-time-baked one.
pub open spec fn chosen_manifest_dir(
    env: Seq<(String, String)>,
    baked: Option<String>,
) -> Option<Seq<char>> {
    match env_lookup(env, "CARGO_MANIFEST_DIR"@) {
        Some(v) => Some(v),
        None => opt_str_view(baked),
    }
}

/// The project root: one directory level above the manifest directory,
/// when there is a manifest directory and it has a parent.
pub open spec fn resolved_root(env: Seq<(String, String)>, baked: Option<String>) -> Option<
    Seq<char>,
> {
    match chosen_manifest_dir(env, baked) {
        Some(md) => parent_dir_spec(md),
        None => None,
    }
}

/// The output directory: the value of CARGO_TARGET_DIR in the snapshot, or
/// `target` under the project root.
pub open spec fn resolved_target(env: Seq<(String, String)>, root: Seq<char>) -> Seq<char> {
    match env_lookup(env, "CARGO_TARGET_DIR"@) {
        Some(t) => t,
        None => join_spec(root, "target"@),
    }
}

/// A tool path: the override variable's value in the snapshot, then the
/// build-time-baked path, then the bare tool name for the search path.
pub open spec fn resolved_tool(
    env: Seq<(String, String)>,
    var: Seq<char>,
    baked: Option<String>,
    bare: Seq<char>,
) -> Seq<char> {
    match env_lookup(env, var) {
        Some(p) => p,
        None => match baked {
            Some(b) => b@,
            None => bare,
        },
    }
}

impl Shell {
    /// Resolves a shell from an environment snapshot and the build-time
    /// fallbacks.  Nothing is resolved — a build script cannot proceed —
    /// when no manifest directory is named anywhere or it has no parent to
    /// ascend to; the caller treats that as fatal.
    pub fn resolve(
        env: Vec<(String, String)>,
        baked_manifest_dir: Option<String>,
        baked_rustc: Option<String>,
        baked_cargo: Option<String>,
    ) -> (r: Option<Shell>)
        ensures
            r is Some <==> resolved_root(env@, baked_manifest_dir) is Some,
            r matches Some(sh) ==> {
                &&& sh.env_snapshot@ == env@
                &&& Some(sh.project_root@) == resolved_root(env@, baked_manifest_dir)
                &&& sh.target_dir@ == resolved_target(env@, sh.project_root@)
                &&& sh.rustc_path@ == resolved_tool(env@, "RUSTC"@, baked_rustc, "rustc"@)
                &&& sh.cargo_path@ == resolved_tool(env@, "CARGO"@, baked_cargo, "cargo"@)
            },
    {
        let manifest_dir: Option<String> = match lookup(
            &env,
            &String::from_str("CARGO_MANIFEST_DIR"),
        ) {
            Some(v) => Some(v),
            None => baked_manifest_dir,
        };
        let manifest_dir = match manifest_dir {
            Some(m) => m,
            None => {
                return None;
            },
        };
        let project_root = match parent_dir(&manifest_dir) {
            Some(p) => p,
            None => {
                return None;
            },
        };
        let target_dir = match lookup(&env, &String::from_str("CARGO_TARGET_DIR")) {
            Some(t) => t,
            None => join_path(&project_root, &String::from_str("target")),
        };
        let rustc_path = match lookup(&env, &String::from_str("RUSTC")) {
            Some(p) => p,
            None => match baked_rustc {
                Some(b) => b,
                None => String::from_str("rustc"),
            },
        };
        let cargo_path = match lookup(&env, &String::from_str("CARGO")) {
            Some(p) => p,
            None => match baked_cargo {
                Some(b) => b,
                None => String::from_str("cargo"),
            },
        };
        Some(
            Shell {
                env_snapshot: env,
                project_root,
                target_dir,
                rustc_path,
                cargo_path,
            },
        )
    }

    /// The resolved absolute project root.
    pub fn project_root(&self) -> (r: &String)
        ensures
            r@ == self.project_root@,
    {
        &self.project_root
    }

    /// The resolved output directory.
    pub fn target_dir(&self) -> (r: &String)
        ensures
            r@ == self.target_dir@,
    {
        &self.target_dir
    }

    /// A fresh builder for one invocation of `program`: no arguments yet,
    /// the child environment exactly this shell's snapshot, the working
    /// directory the project root, output inherited, and the dry-run
    /// switch set exactly when the snapshot holds the DRY_RUN sentinel.
    pub fn subprocess(&self, program: String) -> (s: Subprocess)
        ensures
            s.program == program,
            s.args@ == Seq::<String>::empty(),
            s.envs@ == self.env_snapshot@,
            s.current_dir@ == self.project_root@,
            !s.silent,
            s.dry_run == (env_lookup(self.env_snapshot@, "DRY_RUN"@) is Some),
    {
        let dry_run = lookup(&self.env_snapshot, &String::from_str("DRY_RUN")).is_some();
        Subprocess {
            program,
            args: Vec::new(),
            envs: clone_env(&self.env_snapshot),
            current_dir: self.project_root.clone(),
            silent: false,
            dry_run,
        }
    }

    /// A builder for the resolved compiler.
    pub fn rustc(&self) -> (s: Subprocess)
        ensures
            s.program@ == self.rustc_path@,
            s.args@ == Seq::<String>::empty(),
            s.envs@ == self.env_snapshot@,
            s.current_dir@ == self.project_root@,
            !s.silent,
            s.dry_run == (env_lookup(self.env_snapshot@, "DRY_RUN"@) is Some),
    {
        self.subprocess(self.rustc_path.clone())
    }

    /// A builder for the resolved package-manager driver.
    pub fn cargo(&self) -> (s: Subprocess)
        ensures
            s.program@ == self.cargo_path@,
            s.args@ == Seq::<String>::empty(),
            s.envs@ == self.env_snapshot@,
            s.current_dir@ == self.project_root@,
            !s.silent,
            s.dry_run == (env_lookup(self.env_snapshot@, "DRY_RUN"@) is Some),
    {
        self.subprocess(self.cargo_path.clone())
    }
}

} // verus!
