//! Which entries of the working directory go once a version is installed.

use vstd::prelude::*;
use vstd::string::*;

verus! {

/// An entry is stale unless it is named `keep`. An entry whose name is not
/// Unicode (`None`) is stale.
pub open spec fn spec_is_stale(entry: Option<String>, keep: Seq<char>) -> bool {
    match entry {
        Some(name) => name@ != keep,
        None => true,
    }
}

/// The indices below `upto` of the stale entries, in rising order.
pub open spec fn spec_prune_targets_upto(
    entries: Seq<Option<String>>,
    keep: Seq<char>,
    upto: int,
) -> Seq<usize>
    decreases upto,
{
    if upto <= 0 {
        Seq::<usize>::empty()
    } else {
        let before = spec_prune_targets_upto(entries, keep, upto - 1);
        if upto <= entries.len() && spec_is_stale(entries[upto - 1], keep) {
            before.push((upto - 1) as usize)
        } else {
            before
        }
    }
}

/// The indices of the stale entries, in rising order.
pub open spec fn spec_prune_targets(entries: Seq<Option<String>>, keep: Seq<char>) -> Seq<usize> {
    spec_prune_targets_upto(entries, keep, entries.len() as int)
}

/// What `spec_prune_targets_upto` holds: indices below `upto` of stale
/// entries only, each stale entry's, in strictly rising order.
pub proof fn lemma_prune_targets_upto(entries: Seq<Option<String>>, keep: Seq<char>, upto: int)
    requires
        0 <= upto <= entries.len() <= usize::MAX,
    ensures
        ({
            let targets = spec_prune_targets_upto(entries, keep, upto);
            &&& forall|k: int|
                0 <= k < targets.len() ==> 0 <= #[trigger] targets[k] < upto && spec_is_stale(
                    entries[targets[k] as int],
                    keep,
                )
            &&& forall|k: int, l: int| 0 <= k < l < targets.len() ==> targets[k] < targets[l]
            &&& forall|i: int|
                0 <= i < upto && spec_is_stale(#[trigger] entries[i], keep) ==> targets.contains(
                    i as usize,
                )
        }),
    decreases upto,
{
    if upto > 0 {
        lemma_prune_targets_upto(entries, keep, upto - 1);
        let before = spec_prune_targets_upto(entries, keep, upto - 1);
        let targets = spec_prune_targets_upto(entries, keep, upto);
        if spec_is_stale(entries[upto - 1], keep) {
            assert(targets[before.len() as int] == (upto - 1) as usize);
            assert forall|i: int|
                0 <= i < upto && spec_is_stale(#[trigger] entries[i], keep) implies targets.contains(
                i as usize,
            ) by {
                if i < upto - 1 {
                    let k = choose|k: int| 0 <= k < before.len() && before[k] == i as usize;
                    assert(targets[k] == i as usize);
                }
            }
        }
    }
}

/// Two entries have the same Unicode name.
pub open spec fn spec_same_name(a: Option<String>, b: Option<String>) -> bool {
    a matches Some(x) && b matches Some(y) && x@ == y@
}

/// After pruning, the installed version's directory is all that is left:
/// where the listing names each entry once and names `keep` at `installed`,
/// every other entry is a target and `installed` is none.
pub proof fn lemma_prune_leaves_installed_version(
    entries: Seq<Option<String>>,
    keep: Seq<char>,
    installed: int,
)
    requires
        entries.len() <= usize::MAX,
        0 <= installed < entries.len(),
        entries[installed] matches Some(name) && name@ == keep,
        forall|a: int, b: int|
            0 <= a < b < entries.len() ==> !#[trigger] spec_same_name(entries[a], entries[b]),
    ensures
        forall|i: usize|
            i < entries.len() ==> (#[trigger] spec_prune_targets(entries, keep).contains(i) <==> i
                != installed),
{
    lemma_prune_targets_upto(entries, keep, entries.len() as int);
    let targets = spec_prune_targets(entries, keep);
    assert forall|i: usize| i < entries.len() implies (#[trigger] targets.contains(i) <==> i
        != installed) by {
        if i != installed {
            if i < installed {
                assert(!spec_same_name(entries[i as int], entries[installed]));
            } else {
                assert(!spec_same_name(entries[installed], entries[i as int]));
            }
            assert(spec_is_stale(entries[i as int], keep));
        } else {
            if targets.contains(i) {
                let k = choose|k: int| 0 <= k < targets.len() && targets[k] == i;
                assert(spec_is_stale(entries[targets[k] as int], keep));
            }
        }
    }
}

/// The entries of the working directory to remove once the directory named
/// `keep` is installed: the index of every entry that is not named `keep`,
/// in rising order.
pub fn prune_targets(entries: &Vec<Option<String>>, keep: &str) -> (targets: Vec<usize>)
    ensures
        targets@ == spec_prune_targets(entries@, keep@),
        forall|k: int|
            0 <= k < targets@.len() ==> #[trigger] targets@[k] < entries@.len() && spec_is_stale(
                entries@[targets@[k] as int],
                keep@,
            ),
        forall|k: int, l: int| 0 <= k < l < targets@.len() ==> targets@[k] < targets@[l],
        forall|i: int|
            0 <= i < entries@.len() && spec_is_stale(#[trigger] entries@[i], keep@)
                ==> targets@.contains(i as usize),
{
    let keep = String::from_str(keep);
    let mut targets: Vec<usize> = Vec::new();
    let mut i: usize = 0;
    while i < entries.len()
        invariant
            i <= entries.len(),
            targets@ == spec_prune_targets_upto(entries@, keep@, i as int),
        decreases entries.len() - i,
    {
        let stale = match &entries[i] {
            Some(name) => !(*name == keep),
            None => true,
        };
        if stale {
            targets.push(i);
        }
        i += 1;
    }
    proof {
        lemma_prune_targets_upto(entries@, keep@, entries@.len() as int);
    }
    targets
}

} // verus!
