pub use vstd::hash_map::StringHashMap;
use vstd::prelude::*;

use crate::error::GsbError;
use crate::paths::{forward_slashed, normalize_separators};

verus! {

/// The sync interval, in seconds, when the configuration gives none.
pub const DEFAULT_SYNC_INTERVAL: u64 = 3600;

/// Where the version store pulls from and which branch it follows.
pub struct GitConfig {
    pub remote: Option<String>,
    pub branch: Option<String>,
}

/// One synchronised file or directory.
pub struct Item {
    /// Unique key of the item inside the repository.
    pub path_in_repo: String,
    /// Path on a device that has no entry in `sources`.
    pub default_source: Option<String>,
    /// Hardlink the item instead of copying it.
    pub is_hardlink: bool,
    /// Per-device paths, keyed by canonical device id.
    pub sources: Option<StringHashMap<String>>,
    /// Devices (ids or aliases) that do not collect this item.
    pub ignore_collect: Vec<String>,
    /// Devices (ids or aliases) that do not restore this item.
    pub ignore_restore: Vec<String>,
}

/// The whole configuration of a repository.
pub struct Config {
    pub version: String,
    pub sync_interval: u64,
    pub git: GitConfig,
    pub items: Vec<Item>,
    /// Alias to canonical device id.
    pub aliases: StringHashMap<String>,
}

/// The canonical id of a device identifier: its alias target if it is an
/// alias, itself otherwise (one hop only).
pub open spec fn resolved(id: Seq<char>, aliases: Map<Seq<char>, String>) -> Seq<char> {
    if aliases.contains_key(id) {
        aliases[id]@
    } else {
        id
    }
}

/// The view of an optional string.
pub open spec fn opt_view(o: Option<String>) -> Option<Seq<char>> {
    match o {
        Some(s) => Some(s@),
        None => None,
    }
}

impl Item {
    /// The path of this item on the device `device`, aliases resolved.
    pub open spec fn source_for(&self, device: Seq<char>, aliases: Map<Seq<char>, String>) -> Option<
        Seq<char>,
    > {
        let id = resolved(device, aliases);
        match self.sources {
            Some(m) if m@.contains_key(id) => Some(m@[id]@),
            _ => opt_view(self.default_source),
        }
    }

    /// Looks up the path of this item on a device given by id or alias,
    /// falling back to the default source.
    pub fn get_source_for_device(&self, device_identifier: &str, aliases: &StringHashMap<String>) -> (r:
        Option<String>)
        ensures
            opt_view(r) == self.source_for(device_identifier@, aliases@),
    {
        let actual_device_hash = get_actual_device_hash(device_identifier, aliases);
        if let Some(sources) = &self.sources {
            if let Some(path) = sources.get(actual_device_hash.as_str()) {
                return Some(path.clone());
            }
        }
        match &self.default_source {
            Some(p) => Some(p.clone()),
            None => None,
        }
    }
}

/// The remote a pull uses when the configuration names none.
pub const DEFAULT_REMOTE: &'static str = "origin";

/// The branch a pull follows when the configuration names none.
pub const DEFAULT_BRANCH: &'static str = "main";

impl GitConfig {
    /// The configured remote, or `origin`.
    pub fn remote_name(&self) -> (r: String)
        ensures
            r@ == (match self.remote {
                Some(s) => s@,
                None => "origin"@,
            }),
    {
        match &self.remote {
            Some(s) => s.clone(),
            None => DEFAULT_REMOTE.to_owned(),
        }
    }

    /// The configured branch, or `main`.
    pub fn branch_name(&self) -> (r: String)
        ensures
            r@ == (match self.branch {
                Some(s) => s@,
                None => "main"@,
            }),
    {
        match &self.branch {
            Some(s) => s.clone(),
            None => DEFAULT_BRANCH.to_owned(),
        }
    }
}

/// Whether some entry of `list`, resolved through `aliases`, is `device`.
pub open spec fn lists_device(list: Seq<String>, device: Seq<char>, aliases: Map<Seq<char>, String>) -> bool {
    exists|i: int| 0 <= i < list.len() && #[trigger] resolved(list[i]@, aliases) == device
}

/// Tests whether the canonical device id `device` is named in `list`,
/// directly or through an alias.
pub fn is_device_listed(list: &Vec<String>, device: &str, aliases: &StringHashMap<String>) -> (r: bool)
    ensures
        r == lists_device(list@, device@, aliases@),
{
    let device_id = device.to_owned();
    let mut i: usize = 0;
    while i < list.len()
        invariant
            i <= list.len(),
            device_id@ == device@,
            forall|j: int| 0 <= j < i ==> #[trigger] resolved(list@[j]@, aliases@) != device@,
        decreases list.len() - i,
    {
        let id = get_actual_device_hash(list[i].as_str(), aliases);
        if id == device_id {
            return true;
        }
        i = i + 1;
    }
    false
}

/// Naming a device in an ignore list by one of its aliases has the same
/// effect as naming it by its canonical id: `alias` resolves to `canonical`,
/// which is not itself an alias, and the two lists differ in that entry only.
pub proof fn lemma_alias_equivalence(
    rest: Seq<String>,
    alias: String,
    canonical: String,
    device: Seq<char>,
    aliases: Map<Seq<char>, String>,
)
    requires
        aliases.contains_key(alias@),
        aliases[alias@]@ == canonical@,
        !aliases.contains_key(canonical@),
    ensures
        lists_device(rest.push(alias), device, aliases) == lists_device(
            rest.push(canonical),
            device,
            aliases,
        ),
{
    let la = rest.push(alias);
    let lc = rest.push(canonical);
    let n = rest.len() as int;
    assert(resolved(la[n]@, aliases) == resolved(lc[n]@, aliases));
    assert forall|i: int| 0 <= i < la.len() implies resolved(la[i]@, aliases) == resolved(
        lc[i]@,
        aliases,
    ) by {
        if i < n {
            assert(la[i] == rest[i] && lc[i] == rest[i]);
        }
    }
    if lists_device(la, device, aliases) {
        let i = choose|i: int| 0 <= i < la.len() && #[trigger] resolved(la[i]@, aliases) == device;
        assert(resolved(lc[i]@, aliases) == device);
    }
    if lists_device(lc, device, aliases) {
        let i = choose|i: int| 0 <= i < lc.len() && #[trigger] resolved(lc[i]@, aliases) == device;
        assert(resolved(la[i]@, aliases) == device);
    }
}

/// A repo path names a place inside the repository: it is not empty and,
/// separators normalised, does not start at the root.
pub open spec fn relative_repo_path(p: Seq<char>) -> bool {
    forward_slashed(p).len() > 0 && forward_slashed(p)[0] != '/'
}

/// No two items share a repo path, separators normalised.
pub open spec fn unique_paths(items: Seq<Item>) -> bool {
    forall|i: int, j: int|
        0 <= i < items.len() && 0 <= j < items.len() && i != j ==> forward_slashed(
            #[trigger] items[i].path_in_repo@,
        ) != forward_slashed(#[trigger] items[j].path_in_repo@)
}

/// Every repo path is relative.
pub open spec fn relative_paths(items: Seq<Item>) -> bool {
    forall|i: int| 0 <= i < items.len() ==> relative_repo_path(#[trigger] items[i].path_in_repo@)
}

impl Config {
    /// Rejects a configuration with an empty or absolute repo path, or in
    /// which two items share a repo path (separators normalised), naming the
    /// offending path.
    pub fn validate(&self) -> (r: Result<(), GsbError>)
        ensures
            r is Ok <==> relative_paths(self.items@) && unique_paths(self.items@),
            r matches Err(GsbError::InvalidItemPath(p)) ==> exists|i: int|
                0 <= i < self.items@.len() && self.items@[i].path_in_repo@ == p@
                    && !relative_repo_path(p@),
            r matches Err(GsbError::DuplicateItem(p)) ==> exists|i: int, j: int|
                0 <= i < j < self.items@.len() && self.items@[j].path_in_repo@ == p@
                    && forward_slashed(self.items@[i].path_in_repo@) == forward_slashed(p@),
            r is Err ==> (r matches Err(GsbError::DuplicateItem(_)) || r matches Err(
                GsbError::InvalidItemPath(_),
            )),
    {
        let n = self.items.len();
        let mut norm: Vec<String> = Vec::new();
        let mut k: usize = 0;
        while k < n
            invariant
                k <= n,
                n == self.items@.len(),
                norm@.len() == k,
                forall|a: int| 0 <= a < k ==> #[trigger] norm@[a]@ == forward_slashed(
                    self.items@[a].path_in_repo@,
                ),
                forall|a: int| 0 <= a < k ==> relative_repo_path(#[trigger] self.items@[a].path_in_repo@),
            decreases n - k,
        {
            let q = normalize_separators(self.items[k].path_in_repo.clone());
            let len = q.unicode_len();
            if len == 0 || q.get_char(0) == '/' {
                return Err(GsbError::InvalidItemPath(self.items[k].path_in_repo.clone()));
            }
            norm.push(q);
            k = k + 1;
        }
        let mut j: usize = 0;
        while j < n
            invariant
                j <= n,
                n == self.items@.len(),
                norm@.len() == n,
                relative_paths(self.items@),
                forall|a: int| 0 <= a < n ==> #[trigger] norm@[a]@ == forward_slashed(
                    self.items@[a].path_in_repo@,
                ),
                forall|a: int, b: int|
                    0 <= a < j && 0 <= b < j && a != b ==> forward_slashed(
                        #[trigger] self.items@[a].path_in_repo@,
                    ) != forward_slashed(#[trigger] self.items@[b].path_in_repo@),
            decreases n - j,
        {
            let mut i: usize = 0;
            while i < j
                invariant
                    i <= j < n,
                    n == self.items@.len(),
                    norm@.len() == n,
                    relative_paths(self.items@),
                    forall|a: int| 0 <= a < n ==> #[trigger] norm@[a]@ == forward_slashed(
                        self.items@[a].path_in_repo@,
                    ),
                    forall|a: int, b: int|
                        0 <= a < j && 0 <= b < j && a != b ==> forward_slashed(
                            #[trigger] self.items@[a].path_in_repo@,
                        ) != forward_slashed(#[trigger] self.items@[b].path_in_repo@),
                    forall|a: int|
                        0 <= a < i ==> forward_slashed(#[trigger] self.items@[a].path_in_repo@)
                            != forward_slashed(self.items@[j as int].path_in_repo@),
                decreases j - i,
            {
                if norm[i] == norm[j] {
                    return Err(GsbError::DuplicateItem(self.items[j].path_in_repo.clone()));
                }
                i = i + 1;
            }
            j = j + 1;
        }
        Ok(())
    }
}

/// The sync interval used when the configuration gives none.
pub fn default_sync_interval() -> (r: u64)
    ensures
        r == 3600,
{
    DEFAULT_SYNC_INTERVAL
}

/// Resolves a device id or alias to the canonical device id.
pub fn get_actual_device_hash(device_identifier: &str, aliases: &StringHashMap<String>) -> (r: String)
    ensures
        r@ == resolved(device_identifier@, aliases@),
{
    match aliases.get(device_identifier) {
        Some(alias_hash) => alias_hash.clone(),
        None => device_identifier.to_owned(),
    }
}

} // verus!
