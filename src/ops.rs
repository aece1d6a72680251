use vstd::hash_map::StringHashMap;
use vstd::prelude::*;

use crate::config::{is_device_listed, lists_device, opt_view, relative_repo_path, Item};
use crate::error::GsbError;
use crate::paths::{
    expand_tilde_with, expanded, forward_slashed, home_directory, join_path, joined,
    normalize_separators,
};

verus! {

/// Which way items travel.
#[derive(Clone, Copy, Debug, PartialEq, Eq, Structural)]
pub enum Direction {
    /// From the device into the repository.
    Collect,
    /// From the repository onto the device.
    Restore,
}

/// The two endpoints of one item's transfer.
pub struct Transfer {
    pub from: String,
    pub to: String,
    pub is_hardlink: bool,
}

impl Item {
    pub open spec fn ignore_for(&self, direction: Direction) -> Seq<String> {
        match direction {
            Direction::Collect => self.ignore_collect@,
            Direction::Restore => self.ignore_restore@,
        }
    }

    /// The ignore list that applies in `direction`.
    pub fn ignore_list(&self, direction: Direction) -> (r: &Vec<String>)
        ensures
            r@ == self.ignore_for(direction),
    {
        match direction {
            Direction::Collect => &self.ignore_collect,
            Direction::Restore => &self.ignore_restore,
        }
    }
}

/// The path of an item inside the repository rooted at `root`.
pub open spec fn repo_side(item: Item, root: Seq<char>) -> Seq<char> {
    forward_slashed(joined(root, item.path_in_repo@))
}

/// The path of an item on the device, given its configured `source`.
pub open spec fn device_side(source: Seq<char>, home: Option<Seq<char>>) -> Seq<char> {
    forward_slashed(expanded(source, home))
}

/// The endpoints of an item whose device path is `source`: collecting reads
/// the device path and writes under the repository root, restoring the
/// reverse. The device path has its home marker expanded; both paths use
/// forward slashes.
pub open spec fn endpoints(
    item: Item,
    direction: Direction,
    source: Seq<char>,
    root: Seq<char>,
    home: Option<Seq<char>>,
) -> (Seq<char>, Seq<char>) {
    match direction {
        Direction::Collect => (device_side(source, home), repo_side(item, root)),
        Direction::Restore => (repo_side(item, root), device_side(source, home)),
    }
}

proof fn lemma_forward_slashed_concat(a: Seq<char>, b: Seq<char>)
    ensures
        forward_slashed(a + b) == forward_slashed(a) + forward_slashed(b),
{
    assert(forward_slashed(a + b) =~= forward_slashed(a) + forward_slashed(b));
}

/// Items with distinct relative repo paths never share a place in the
/// repository: the destinations of a collect, and the sources of a restore,
/// of two such items differ, whatever their device paths.
pub proof fn lemma_distinct_repo_sides(a: Item, b: Item, root: Seq<char>)
    requires
        relative_repo_path(a.path_in_repo@),
        relative_repo_path(b.path_in_repo@),
        forward_slashed(a.path_in_repo@) != forward_slashed(b.path_in_repo@),
    ensures
        repo_side(a, root) != repo_side(b, root),
        forall|sa: Seq<char>, sb: Seq<char>, ha: Option<Seq<char>>, hb: Option<Seq<char>>|
            (#[trigger] endpoints(a, Direction::Collect, sa, root, ha)).1 != (
            #[trigger] endpoints(b, Direction::Collect, sb, root, hb)).1,
        forall|sa: Seq<char>, sb: Seq<char>, ha: Option<Seq<char>>, hb: Option<Seq<char>>|
            (#[trigger] endpoints(a, Direction::Restore, sa, root, ha)).0 != (
            #[trigger] endpoints(b, Direction::Restore, sb, root, hb)).0,
{
    let pa = a.path_in_repo@;
    let pb = b.path_in_repo@;
    assert(pa[0] == forward_slashed(pa)[0] || pa[0] == '\\');
    assert(pb[0] == forward_slashed(pb)[0] || pb[0] == '\\');
    let prefix = if root.len() == 0 || root.last() == '/' {
        root
    } else {
        root + seq!['/']
    };
    assert(joined(root, pa) == prefix + pa);
    assert(joined(root, pb) == prefix + pb);
    lemma_forward_slashed_concat(prefix, pa);
    lemma_forward_slashed_concat(prefix, pb);
    let fp = forward_slashed(prefix);
    if repo_side(a, root) == repo_side(b, root) {
        assert((fp + forward_slashed(pa)).subrange(fp.len() as int, (fp.len() + forward_slashed(pa).len()) as int) =~= forward_slashed(pa));
        assert((fp + forward_slashed(pb)).subrange(fp.len() as int, (fp.len() + forward_slashed(pb).len()) as int) =~= forward_slashed(pb));
        assert(forward_slashed(pa) =~= forward_slashed(pb));
    }
}

/// Plans one item's transfer on the device with canonical id `device`:
/// `Ok(None)` when the item is ignored there, the missing-source error when
/// it has no path there, and its endpoints otherwise.
pub fn plan_item(
    item: &Item,
    direction: Direction,
    device: &str,
    aliases: &StringHashMap<String>,
    repo_root: &str,
    home: &Option<String>,
) -> (r: Result<Option<Transfer>, GsbError>)
    ensures
        lists_device(item.ignore_for(direction), device@, aliases@) ==> r matches Ok(None),
        !lists_device(item.ignore_for(direction), device@, aliases@) && item.source_for(
            device@,
            aliases@,
        ) is None ==> (r matches Err(GsbError::SourcePathNotFound(p, d)) && p@
            == item.path_in_repo@ && d@ == device@),
        !lists_device(item.ignore_for(direction), device@, aliases@) && item.source_for(
            device@,
            aliases@,
        ) is Some ==> (r matches Ok(Some(t)) && (t.from@, t.to@) == endpoints(
            *item,
            direction,
            item.source_for(device@, aliases@)->0,
            repo_root@,
            opt_view(*home),
        ) && t.is_hardlink == item.is_hardlink),
{
    if is_device_listed(item.ignore_list(direction), device, aliases) {
        return Ok(None);
    }
    let source = match item.get_source_for_device(device, aliases) {
        Some(s) => s,
        None => {
            return Err(GsbError::SourcePathNotFound(item.path_in_repo.clone(), device.to_owned()));
        },
    };
    let device_path = normalize_separators(expand_tilde_with(source, home.clone()));
    let repo_path = normalize_separators(join_path(repo_root, item.path_in_repo.as_str()));
    let t = match direction {
        Direction::Collect => Transfer { from: device_path, to: repo_path, is_hardlink: item.is_hardlink },
        Direction::Restore => Transfer { from: repo_path, to: device_path, is_hardlink: item.is_hardlink },
    };
    Ok(Some(t))
}

/// Plans one item's transfer as `plan_item` does, with this user's home
/// directory, read from the environment, for the home marker.
pub fn plan_item_on_device(
    item: &Item,
    direction: Direction,
    device: &str,
    aliases: &StringHashMap<String>,
    repo_root: &str,
) -> (r: Result<Option<Transfer>, GsbError>)
    ensures
        lists_device(item.ignore_for(direction), device@, aliases@) ==> r matches Ok(None),
        !lists_device(item.ignore_for(direction), device@, aliases@) && item.source_for(
            device@,
            aliases@,
        ) is None ==> (r matches Err(GsbError::SourcePathNotFound(p, d)) && p@
            == item.path_in_repo@ && d@ == device@),
        !lists_device(item.ignore_for(direction), device@, aliases@) && item.source_for(
            device@,
            aliases@,
        ) is Some ==> (r matches Ok(Some(t)) && t.is_hardlink == item.is_hardlink && exists|
            h: Option<Seq<char>>,
        |
            (t.from@, t.to@) == endpoints(
                *item,
                direction,
                item.source_for(device@, aliases@)->0,
                repo_root@,
                h,
            )),
{
    let home = home_directory();
    plan_item(item, direction, device, aliases, repo_root, &home)
}

/// The errors among `results`, in order.
pub open spec fn failures(results: Seq<Result<(), GsbError>>) -> Seq<GsbError>
    decreases results.len(),
{
    if results.len() == 0 {
        Seq::<GsbError>::empty()
    } else {
        let before = failures(results.drop_last());
        match results.last() {
            Ok(_) => before,
            Err(e) => before.push(e),
        }
    }
}

/// Gathers the outcomes of all items: success when every item succeeded,
/// otherwise every error, in item order.
pub fn collect_failures(results: Vec<Result<(), GsbError>>) -> (r: Result<(), GsbError>)
    ensures
        r is Ok <==> forall|i: int| 0 <= i < results@.len() ==> #[trigger] results@[i] is Ok,
        r is Err ==> (r matches Err(GsbError::ItemsFailed(errs)) && errs@ == failures(results@)
            && errs@.len() > 0),
{
    let ghost all = results@;
    let mut rest = results;
    let mut errs: Vec<GsbError> = Vec::new();
    proof {
        assert(all.subrange(0, all.len() as int) =~= all);
    }
    while rest.len() > 0
        invariant
            rest@ == all.subrange(0, rest@.len() as int),
            rest@.len() <= all.len(),
            failures(all) == failures(rest@) + errs@,
            errs@.len() == 0 <==> forall|i: int| rest@.len() <= i < all.len() ==> #[trigger] all[i] is Ok,
        decreases rest.len(),
    {
        let ghost before = rest@;
        let last = rest.pop().unwrap();
        proof {
            assert(rest@ =~= before.drop_last());
            assert(rest@ =~= all.subrange(0, rest@.len() as int));
        }
        match last {
            Ok(_) => {},
            Err(e) => {
                let ghost old_errs = errs@;
                errs.insert(0, e);
                proof {
                    assert(errs@ =~= seq![e] + old_errs);
                    assert(failures(before) == failures(rest@).push(e));
                    assert(failures(rest@).push(e) + old_errs =~= failures(rest@) + errs@);
                }
            },
        }
    }
    proof {
        assert(failures(rest@) =~= Seq::<GsbError>::empty());
        assert(failures(all) =~= errs@);
    }
    if errs.len() == 0 {
        Ok(())
    } else {
        Err(GsbError::ItemsFailed(errs))
    }
}

} // verus!
