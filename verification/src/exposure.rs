//! Which export entries expose the mutable globals of a module, and what holds
//! of them.

use vstd::prelude::*;
use crate::model::{export_views, names_unique, Export, ExportTarget, ExportView, ModuleView};
use crate::naming::{exposed_name, exposed_name_string, lemma_exposed_name_injective};

verus! {

/// The positions of the `true` flags, in ascending order.
pub open spec fn mutable_indices(flags: Seq<bool>) -> Seq<int>
    decreases flags.len(),
{
    if flags.len() == 0 {
        Seq::empty()
    } else {
        let before = mutable_indices(flags.drop_last());
        if flags.last() {
            before.push(flags.len() - 1)
        } else {
            before
        }
    }
}

/// The entries that expose the mutable globals among `flags` under `prefix`,
/// where the module imports `imported` globals: the `k`-th mutable global, at
/// position `p` among the declared ones, is exported as the global with index
/// `imported + p` under the name made of the prefix and `k`.
pub open spec fn exposed_entries(prefix: Seq<char>, flags: Seq<bool>, imported: nat) -> Seq<
    ExportView,
> {
    Seq::new(
        mutable_indices(flags).len(),
        |k: int|
            ExportView {
                name: exposed_name(prefix, k as nat),
                target: ExportTarget::Global((imported + mutable_indices(flags)[k]) as u32),
            },
    )
}

/// Whether `entry` exports the declared global at position `p` of a module
/// that imports `imported` globals.
pub open spec fn exports_declared_global(entry: ExportView, imported: nat, p: int) -> bool {
    entry.target == ExportTarget::Global((imported + p) as u32)
}

/// Whether none of `entries` carries a name that exposing `count` globals
/// under `prefix` would give.
pub open spec fn names_avoid_exposure(entries: Seq<ExportView>, prefix: Seq<char>, count: nat) -> bool {
    forall|i: int, k: nat|
        0 <= i < entries.len() && k < count ==> (#[trigger] entries[i]).name != #[trigger] exposed_name(
            prefix,
            k,
        )
}

/// The mutable positions are positions of `true` flags, ascend strictly, and
/// leave no `true` flag out.
pub proof fn lemma_mutable_indices(flags: Seq<bool>)
    ensures
        mutable_indices(flags).len() <= flags.len(),
        forall|k: int|
            0 <= k < mutable_indices(flags).len() ==> 0 <= (#[trigger] mutable_indices(flags)[k])
                < flags.len() && flags[mutable_indices(flags)[k]],
        forall|j: int, k: int|
            0 <= j < k < mutable_indices(flags).len() ==> (#[trigger] mutable_indices(flags)[j]) < (
            #[trigger] mutable_indices(flags)[k]),
        forall|p: int|
            0 <= p < flags.len() && #[trigger] flags[p] ==> exists|k: int|
                0 <= k < mutable_indices(flags).len() && #[trigger] mutable_indices(flags)[k] == p,
    decreases flags.len(),
{
    if flags.len() > 0 {
        let shorter = flags.drop_last();
        let before = mutable_indices(shorter);
        let all = mutable_indices(flags);
        lemma_mutable_indices(shorter);
        assert forall|p: int| 0 <= p < flags.len() && #[trigger] flags[p] implies exists|k: int|
            0 <= k < all.len() && #[trigger] all[k] == p by {
            if p < shorter.len() {
                assert(shorter[p]);
                let k = choose|k: int| 0 <= k < before.len() && #[trigger] before[k] == p;
                assert(all[k] == p);
            } else {
                assert(all[all.len() - 1] == p);
            }
        }
        assert forall|k: int| 0 <= k < all.len() implies 0 <= (#[trigger] all[k]) < flags.len()
            && flags[all[k]] by {
            if k < before.len() {
                assert(shorter[before[k]]);
            }
        }
    }
}

/// Whether `entry` exports one of the mutable globals among `flags`.
pub open spec fn exports_mutable_global(entry: ExportView, flags: Seq<bool>, imported: nat) -> bool {
    exists|p: int|
        0 <= p < flags.len() && flags[p] && #[trigger] exports_declared_global(entry, imported, p)
}

/// Whether one of `added` exports the declared global at position `p`.
pub open spec fn is_exported_by(added: Seq<ExportView>, imported: nat, p: int) -> bool {
    exists|k: int| 0 <= k < added.len() && #[trigger] exports_declared_global(added[k], imported, p)
}

/// Whether `added` exposes the mutable globals among `flags`, and them alone,
/// in a module that imports `imported` globals: each mutable global is
/// exported by exactly one of the entries, each entry exports a mutable
/// global, and none exports an immutable one.
pub open spec fn reaches_mutable_globals(added: Seq<ExportView>, flags: Seq<bool>, imported: nat) -> bool {
    &&& forall|p: int|
        0 <= p < flags.len() && flags[p] ==> #[trigger] is_exported_by(added, imported, p)
    &&& forall|j: int, k: int, p: int|
        0 <= j < added.len() && 0 <= k < added.len() && 0 <= p < flags.len()
            && #[trigger] exports_declared_global(added[j], imported, p)
            && #[trigger] exports_declared_global(added[k], imported, p) ==> j == k
    &&& forall|k: int|
        0 <= k < added.len() ==> exports_mutable_global(#[trigger] added[k], flags, imported)
    &&& forall|k: int, p: int|
        0 <= k < added.len() && 0 <= p < flags.len() && !flags[p]
            ==> !#[trigger] exports_declared_global(added[k], imported, p)
}

/// Exposure reaches the mutable globals and no others, whatever the prefix,
/// as long as the global indices fit in 32 bits.
pub proof fn lemma_exposure_reaches_mutable_globals(prefix: Seq<char>, flags: Seq<bool>, imported: nat)
    requires
        imported + flags.len() <= u32::MAX,
    ensures
        reaches_mutable_globals(exposed_entries(prefix, flags, imported), flags, imported),
{
    let indices = mutable_indices(flags);
    let added = exposed_entries(prefix, flags, imported);
    lemma_mutable_indices(flags);
    assert forall|p: int| 0 <= p < flags.len() && flags[p] implies #[trigger] is_exported_by(
        added,
        imported,
        p,
    ) by {
        let k = choose|k: int| 0 <= k < indices.len() && #[trigger] indices[k] == p;
        assert(exports_declared_global(added[k], imported, p));
    }
    assert forall|k: int| 0 <= k < added.len() implies exports_mutable_global(
        #[trigger] added[k],
        flags,
        imported,
    ) by {
        assert(exports_declared_global(added[k], imported, indices[k]));
    }
    assert forall|j: int, k: int, p: int|
        0 <= j < added.len() && 0 <= k < added.len() && 0 <= p < flags.len()
            && #[trigger] exports_declared_global(added[j], imported, p)
            && #[trigger] exports_declared_global(added[k], imported, p) implies j == k by {
        assert(indices[j] == p);
        assert(indices[k] == p);
    }
    assert forall|k: int, p: int|
        0 <= k < added.len() && 0 <= p < flags.len() && !flags[p] implies !#[trigger] exports_declared_global(
        added[k],
        imported,
        p,
    ) by {
        assert(flags[indices[k]]);
    }
}

/// The names that one exposure adds are pairwise distinct.
pub proof fn lemma_exposure_names_unique(prefix: Seq<char>, flags: Seq<bool>, imported: nat)
    ensures
        names_unique(exposed_entries(prefix, flags, imported)),
{
    let added = exposed_entries(prefix, flags, imported);
    assert forall|j: int, k: int| 0 <= j < k < added.len() implies (#[trigger] added[j]).name != (
    #[trigger] added[k]).name by {
        if added[j].name == added[k].name {
            lemma_exposed_name_injective(prefix, j as nat, k as nat);
        }
    }
}

/// Where a module can be exposed under a prefix, no two export entries of the
/// exposed module carry the same name.
pub proof fn lemma_exposed_names_unique(module: ModuleView, prefix: Seq<char>)
    requires
        module.can_expose(prefix),
    ensures
        names_unique(module.exposed(prefix).export_entries()),
{
    let old_entries = module.export_entries();
    let added = module.exposure(prefix);
    let all = module.exposed(prefix).export_entries();
    lemma_exposure_names_unique(prefix, module.declared_globals(), module.imported_globals());
    assert forall|i: int, j: int| 0 <= i < j < all.len() implies (#[trigger] all[i]).name != (
    #[trigger] all[j]).name by {
        if j < old_entries.len() {
            assert(all[i] == old_entries[i] && all[j] == old_entries[j]);
        } else if i < old_entries.len() {
            assert(all[i] == old_entries[i]);
            assert(all[j] == added[j - old_entries.len()]);
        } else {
            assert(all[i] == added[i - old_entries.len()]);
            assert(all[j] == added[j - old_entries.len()]);
        }
    }
}

/// Exposure leaves everything but the export section as it was, and keeps
/// the export entries that were there, in their places, before the new ones.
pub proof fn lemma_exposed_keeps_the_rest(module: ModuleView, prefix: Seq<char>)
    ensures
        module.exposed(prefix).data == module.data,
        module.exposed(prefix).globals == module.globals,
        module.exposed(prefix).imports == module.imports,
        module.exposed(prefix).other_sections == module.other_sections,
        module.exposed(prefix).export_entries().len() == module.export_entries().len()
            + module.exposure(prefix).len(),
        module.exposed(prefix).export_entries().take(module.export_entries().len() as int)
            == module.export_entries(),
        module.exposed(prefix).export_entries().skip(module.export_entries().len() as int)
            == module.exposure(prefix),
{
    let all = module.exposed(prefix).export_entries();
    let n = module.export_entries().len() as int;
    assert(all.take(n) =~= module.export_entries());
    assert(all.skip(n) =~= module.exposure(prefix));
}

/// A module that was exposed under a prefix, and has a mutable global, cannot
/// be exposed under that prefix again: the names are taken.
pub proof fn lemma_exposed_once(module: ModuleView, prefix: Seq<char>)
    requires
        module.exposure(prefix).len() > 0,
    ensures
        !module.exposed(prefix).can_expose(prefix),
{
    let after = module.exposed(prefix);
    let n = module.export_entries().len() as int;
    assert(after.exposure(prefix) == module.exposure(prefix));
    assert(after.export_entries()[n] == module.exposure(prefix)[0]);
    assert(after.export_entries()[n].name == after.exposure(prefix)[0].name);
}

/// Counts the mutable globals among `flags`.
pub fn count_mutable(flags: &Vec<bool>) -> (count: usize)
    ensures
        count == mutable_indices(flags@).len(),
{
    let mut count: usize = 0;
    let mut i: usize = 0;
    while i < flags.len()
        invariant
            i <= flags.len(),
            count <= i,
            count == mutable_indices(flags@.take(i as int)).len(),
        decreases flags.len() - i,
    {
        assert(flags@.take(i + 1).drop_last() =~= flags@.take(i as int));
        if flags[i] {
            count = count + 1;
        }
        i = i + 1;
    }
    assert(flags@.take(i as int) =~= flags@);
    count
}

/// Tells whether no two of `entries` carry the same name.
pub fn has_unique_names(entries: &Vec<Export>) -> (unique: bool)
    ensures
        unique == names_unique(export_views(entries@)),
{
    let ghost views = export_views(entries@);
    let mut j: usize = 0;
    while j < entries.len()
        invariant
            j <= entries.len(),
            views == export_views(entries@),
            forall|a: int, b: int| 0 <= a < b < j ==> (#[trigger] views[a]).name != (#[trigger] views[b]).name,
        decreases entries.len() - j,
    {
        let mut i: usize = 0;
        while i < j
            invariant
                i <= j < entries.len(),
                views == export_views(entries@),
                forall|a: int| 0 <= a < i ==> (#[trigger] views[a]).name != views[j as int].name,
            decreases j - i,
        {
            if entries[i].name == entries[j].name {
                assert(views[i as int].name == views[j as int].name);
                return false;
            }
            i = i + 1;
        }
        j = j + 1;
    }
    true
}

/// Tells whether none of `entries` carries a name that exposing `count`
/// globals under `prefix` would give.
pub fn avoids_exposure_names(entries: &Vec<Export>, prefix: &str, count: usize) -> (free: bool)
    ensures
        free == names_avoid_exposure(export_views(entries@), prefix@, count as nat),
{
    let ghost views = export_views(entries@);
    let mut k: usize = 0;
    while k < count
        invariant
            k <= count,
            views == export_views(entries@),
            names_avoid_exposure(views, prefix@, k as nat),
        decreases count - k,
    {
        let name = exposed_name_string(prefix, k);
        let mut i: usize = 0;
        while i < entries.len()
            invariant
                i <= entries.len(),
                k < count,
                views == export_views(entries@),
                name@ == exposed_name(prefix@, k as nat),
                forall|a: int| 0 <= a < i ==> (#[trigger] views[a]).name != name@,
            decreases entries.len() - i,
        {
            if entries[i].name == name {
                assert(views[i as int].name == exposed_name(prefix@, k as nat));
                return false;
            }
            i = i + 1;
        }
        k = k + 1;
    }
    true
}

} // verus!
