//! Settings of a new binding project, and the presets that fill them.
use vstd::prelude::*;

use crate::text::views;

verus! {

/// Every target a project can be built for.
pub open spec fn available_targets_spec() -> Seq<Seq<char>> {
    seq![
        "aarch64-apple-darwin"@,
        "aarch64-linux-android"@,
        "aarch64-unknown-linux-gnu"@,
        "aarch64-unknown-linux-musl"@,
        "aarch64-pc-windows-msvc"@,
        "x86_64-apple-darwin"@,
        "x86_64-pc-windows-msvc"@,
        "x86_64-unknown-linux-gnu"@,
        "x86_64-unknown-linux-musl"@,
        "x86_64-unknown-freebsd"@,
        "i686-pc-windows-msvc"@,
        "armv7-unknown-linux-gnueabihf"@,
        "armv7-linux-androideabi"@,
    ]
}

/// The targets a project is built for unless told otherwise.
pub open spec fn default_targets_spec() -> Seq<Seq<char>> {
    seq![
        "x86_64-apple-darwin"@,
        "x86_64-pc-windows-msvc"@,
        "x86_64-unknown-linux-gnu"@,
    ]
}

/// Every target a project can be built for.
pub fn available_targets() -> (r: Vec<&'static str>)
    ensures
        str_views(r@) == available_targets_spec(),
{
    let r = 
    vec![
        "aarch64-apple-darwin",
        "aarch64-linux-android",
        "aarch64-unknown-linux-gnu",
        "aarch64-unknown-linux-musl",
        "aarch64-pc-windows-msvc",
        "x86_64-apple-darwin",
        "x86_64-pc-windows-msvc",
        "x86_64-unknown-linux-gnu",
        "x86_64-unknown-linux-musl",
        "x86_64-unknown-freebsd",
        "i686-pc-windows-msvc",
        "armv7-unknown-linux-gnueabihf",
        "armv7-linux-androideabi",
    ];
    assert(str_views(r@) =~= available_targets_spec());
    r
}

/// The targets a project is built for unless told otherwise.
pub fn default_targets() -> (r: Vec<&'static str>)
    ensures
        str_views(r@) == default_targets_spec(),
{
    let r = vec!["x86_64-apple-darwin", "x86_64-pc-windows-msvc", "x86_64-unknown-linux-gnu"];
    assert(str_views(r@) =~= default_targets_spec());
    r
}

/// The views of a sequence of string slices.
pub open spec fn str_views(v: Seq<&str>) -> Seq<Seq<char>> {
    v.map_values(|s: &str| s@)
}

/// What a new project is created with.
#[derive(Debug)]
pub struct NewCommand {
    /// Directory the project is created in.
    pub path: String,
    /// Package name.
    pub name: Option<String>,
    /// Minimum node-api version.
    pub min_node_api: u8,
    pub license: String,
    pub targets: Option<Vec<String>>,
    pub enable_default_targets: bool,
    pub enable_all_targets: bool,
    pub enable_type_def: bool,
    pub enable_github_actions: bool,
    /// Use the default preset and ask nothing.
    pub yes: bool,
}

impl NewCommand {
    /// All settings but the targets.
    pub open spec fn same_but_targets(&self, other: &NewCommand) -> bool {
        &&& self.path == other.path
        &&& self.name == other.name
        &&& self.min_node_api == other.min_node_api
        &&& self.license == other.license
        &&& self.enable_default_targets == other.enable_default_targets
        &&& self.enable_all_targets == other.enable_all_targets
        &&& self.enable_type_def == other.enable_type_def
        &&& self.enable_github_actions == other.enable_github_actions
        &&& self.yes == other.yes
    }

    /// Builds the project for exactly `targets`, in that order.
    pub fn use_targets(&mut self, targets: &[&str])
        ensures
            final(self).same_but_targets(old(self)),
            final(self).targets matches Some(t) && views(t@) == str_views(targets@),
    {
        let mut out: Vec<String> = Vec::new();
        let mut i: usize = 0;
        while i < targets.len()
            invariant
                i <= targets@.len(),
                views(out@) == str_views(targets@.subrange(0, i as int)),
            decreases targets@.len() - i,
        {
            let t: &str = targets[i];
            let owned = t.to_string();
            assert(owned@ == targets@[i as int]@);
            let ghost before = out@;
            out.push(owned);
            assert(views(out@) =~= views(before).push(targets@[i as int]@));
            i += 1;
            assert(views(out@) =~= str_views(targets@.subrange(0, i as int)));
        }
        assert(targets@.subrange(0, targets@.len() as int) =~= targets@);
        self.targets = Some(out);
    }

    /// The targets the flags choose without asking: the default ones, else
    /// all of them, else none (the user is asked).
    pub fn preset_targets(&self) -> (r: Option<Vec<&'static str>>)
        ensures
            self.enable_default_targets ==> (r matches Some(t) && str_views(t@)
                == default_targets_spec()),
            !self.enable_default_targets && self.enable_all_targets ==> (r matches Some(t)
                && str_views(t@) == available_targets_spec()),
            !self.enable_default_targets && !self.enable_all_targets ==> r is None,
    {
        if self.enable_default_targets {
            Some(default_targets())
        } else if self.enable_all_targets {
            Some(available_targets())
        } else {
            None
        }
    }

    /// The preset taken without asking: the directory's name as package name,
    /// the default targets, type definitions and CI workflows.
    pub fn apply_default_preset(&mut self, default_name: String)
        ensures
            final(self).name matches Some(n) && n@ == default_name@,
            final(self).targets matches Some(t) && views(t@) == default_targets_spec(),
            final(self).enable_type_def,
            final(self).enable_github_actions,
            final(self).path == old(self).path,
            final(self).min_node_api == old(self).min_node_api,
            final(self).license == old(self).license,
    {
        self.name = Some(default_name);
        let defaults = default_targets();
        self.use_targets(defaults.as_slice());
        self.enable_type_def = true;
        self.enable_github_actions = true;
    }
}

} // verus!
