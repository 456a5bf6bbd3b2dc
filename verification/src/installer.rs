//! Planning the blacklist-aware merge of staged entries into the live
//! installation tree.
//!
//! The caller expands the downloaded archive into the staging tree,
//! lists its immediate entries, and hands them here; the plan decides,
//! entry by entry, what may be copied.  Protected files that already
//! exist in the installation tree are never the subject of any planned
//! action.

use vstd::prelude::*;

verus! {

use crate::error::BedrockUpdaterError;

/// One immediate entry of the staging tree, as the caller lists it.
pub struct StagedEntry {
    /// The entry's file name, when it is representable as text.
    pub name: Option<String>,
    /// Whether the entry is a plain file (a directory otherwise).
    pub is_file: bool,
    /// Whether a file of that name already exists at the corresponding
    /// path in the installation tree.
    pub in_target: bool,
}

/// The model of a staged entry.
pub struct StagedEntryModel {
    pub name: Option<Seq<char>>,
    pub is_file: bool,
    pub in_target: bool,
}

impl View for StagedEntry {
    type V = StagedEntryModel;

    open spec fn view(&self) -> StagedEntryModel {
        StagedEntryModel {
            name: match self.name {
                Some(n) => Some(n@),
                None => None,
            },
            is_file: self.is_file,
            in_target: self.in_target,
        }
    }
}

/// One copy step of a merge: a plain file copied to the matching
/// relative path, overwriting what stands there, or a directory merged
/// recursively into the installation tree without first deleting the
/// destination.
pub enum MergeAction {
    CopyFile { name: String },
    MergeDir { name: String },
}

/// The model of a merge action.
pub enum MergeActionModel {
    CopyFile { name: Seq<char> },
    MergeDir { name: Seq<char> },
}

impl View for MergeAction {
    type V = MergeActionModel;

    open spec fn view(&self) -> MergeActionModel {
        match self {
            MergeAction::CopyFile { name } => MergeActionModel::CopyFile { name: name@ },
            MergeAction::MergeDir { name } => MergeActionModel::MergeDir { name: name@ },
        }
    }
}

/// The file name an action is about.
pub open spec fn action_name(a: MergeActionModel) -> Seq<char> {
    match a {
        MergeActionModel::CopyFile { name } => name,
        MergeActionModel::MergeDir { name } => name,
    }
}

/// The views of a list of protected names.
pub open spec fn blacklist_view(blacklist: Vec<String>) -> Seq<Seq<char>> {
    blacklist@.map_values(|s: String| s@)
}

/// The models of a list of staged entries.
pub open spec fn entries_view(entries: Vec<StagedEntry>) -> Seq<StagedEntryModel> {
    entries@.map_values(|e: StagedEntry| e@)
}

/// The models of a list of merge actions.
pub open spec fn actions_view(actions: Vec<MergeAction>) -> Seq<MergeActionModel> {
    actions@.map_values(|a: MergeAction| a@)
}

/// Whether `name` is one of the protected file names.
pub open spec fn in_blacklist(blacklist: Seq<Seq<char>>, name: Seq<char>) -> bool {
    exists|i: int| 0 <= i < blacklist.len() && blacklist[i] == name
}

/// Whether a staged entry is skipped: its name is protected and a file
/// of that name already exists in the installation tree.  A protected
/// name that does not yet exist in the installation tree is still
/// copied.
pub open spec fn entry_skipped(blacklist: Seq<Seq<char>>, e: StagedEntryModel) -> bool {
    e.name matches Some(n) && in_blacklist(blacklist, n) && e.in_target
}

/// The action for one staged entry that is not skipped.
pub open spec fn entry_action(e: StagedEntryModel) -> MergeActionModel {
    if e.is_file {
        MergeActionModel::CopyFile { name: e.name->0 }
    } else {
        MergeActionModel::MergeDir { name: e.name->0 }
    }
}

/// The planned actions for a sequence of staged entries, in order:
/// nothing for a skipped entry, its action otherwise.
pub open spec fn spec_plan(blacklist: Seq<Seq<char>>, entries: Seq<StagedEntryModel>) -> Seq<
    MergeActionModel,
>
    decreases entries.len(),
{
    if entries.len() == 0 {
        Seq::empty()
    } else {
        spec_plan(blacklist, entries.drop_last()) + (if entry_skipped(blacklist, entries.last()) {
            Seq::empty()
        } else {
            seq![entry_action(entries.last())]
        })
    }
}

/// Whether `name` stands in the blacklist.
fn blacklist_contains(blacklist: &Vec<String>, name: &String) -> (r: bool)
    ensures
        r == in_blacklist(blacklist_view(*blacklist), name@),
{
    let mut j: usize = 0;
    while j < blacklist.len()
        invariant
            j <= blacklist.len(),
            forall|k: int| 0 <= k < j ==> blacklist@[k]@ != name@,
        decreases blacklist.len() - j,
    {
        if blacklist[j].eq(name) {
            assert(blacklist_view(*blacklist)[j as int] == name@);
            return true;
        }
        j = j + 1;
    }
    false
}

/// Plans the merge: for each staged entry in order, nothing when it is
/// protected and already present in the installation tree, a file copy
/// or a directory merge otherwise.  Fails, planning nothing, when an
/// entry has no representable name.
pub fn plan_merge(blacklist: &Vec<String>, entries: &Vec<StagedEntry>) -> (r: Result<
    Vec<MergeAction>,
    BedrockUpdaterError,
>)
    ensures
        r matches Ok(actions) ==> actions_view(actions) == spec_plan(
            blacklist_view(*blacklist),
            entries_view(*entries),
        ),
        r is Err <==> exists|k: int| 0 <= k < entries@.len() && entries@[k].name is None,
        r matches Err(e) ==> e == BedrockUpdaterError::NoFileName,
{
    let ghost bl = blacklist_view(*blacklist);
    let ghost evs = entries_view(*entries);
    let mut actions: Vec<MergeAction> = Vec::new();
    let mut i: usize = 0;
    assert(evs.subrange(0, 0) =~= Seq::<StagedEntryModel>::empty());
    while i < entries.len()
        invariant
            i <= entries.len(),
            bl == blacklist_view(*blacklist),
            evs == entries_view(*entries),
            evs.len() == entries@.len(),
            actions_view(actions) == spec_plan(bl, evs.subrange(0, i as int)),
            forall|k: int| 0 <= k < i ==> entries@[k].name is Some,
        decreases entries.len() - i,
    {
        let ghost prefix = evs.subrange(0, i as int);
        let entry = &entries[i];
        match &entry.name {
            None => {
                return Err(BedrockUpdaterError::NoFileName);
            },
            Some(name) => {
                let protected = blacklist_contains(blacklist, name);
                if !(protected && entry.in_target) {
                    let action = if entry.is_file {
                        MergeAction::CopyFile { name: name.clone() }
                    } else {
                        MergeAction::MergeDir { name: name.clone() }
                    };
                    assert(action@ == entry_action(evs[i as int]));
                    actions.push(action);
                }
                proof {
                    assert(evs.subrange(0, i + 1).drop_last() =~= prefix);
                    assert(evs.subrange(0, i + 1).last() == evs[i as int]);
                    assert(actions_view(actions) =~= spec_plan(bl, evs.subrange(0, i + 1)));
                }
                i = i + 1;
            },
        }
    }
    assert(evs.subrange(0, entries@.len() as int) =~= evs);
    Ok(actions)
}

/// A protected file name that already exists in the installation tree
/// is never the subject of any planned action: the operator's file is
/// preserved verbatim, whatever the staged archive holds under that
/// name.
pub proof fn lemma_plan_preserves_protected(
    blacklist: Seq<Seq<char>>,
    entries: Seq<StagedEntryModel>,
    name: Seq<char>,
)
    requires
        in_blacklist(blacklist, name),
        forall|i: int| 0 <= i < entries.len() ==> (#[trigger] entries[i].name) is Some,
        forall|i: int| 0 <= i < entries.len() && entries[i].name == Some(name)
            ==> entries[i].in_target,
    ensures
        forall|k: int| 0 <= k < spec_plan(blacklist, entries).len() ==> action_name(
            #[trigger] spec_plan(blacklist, entries)[k],
        ) != name,
    decreases entries.len(),
{
    if entries.len() > 0 {
        let prefix = entries.drop_last();
        let last = entries.last();
        assert(forall|i: int| 0 <= i < prefix.len() ==> (#[trigger] prefix[i]) == entries[i]);
        lemma_plan_preserves_protected(blacklist, prefix, name);
        let plan = spec_plan(blacklist, entries);
        let planned_prefix = spec_plan(blacklist, prefix);
        assert(last == entries[entries.len() - 1]);
        assert forall|k: int| 0 <= k < plan.len() implies action_name(#[trigger] plan[k])
            != name by {
            if k < planned_prefix.len() {
                assert(plan[k] == planned_prefix[k]);
            } else {
                assert(!entry_skipped(blacklist, last));
                assert(plan[k] == entry_action(last));
                assert(last.name->0 != name);
            }
        }
    }
}

/// A staged plain file whose name is not protected-and-present is
/// planned to be copied to the matching relative path, overwriting any
/// existing file there.
pub proof fn lemma_plan_copies_file(
    blacklist: Seq<Seq<char>>,
    entries: Seq<StagedEntryModel>,
    i: int,
)
    requires
        0 <= i < entries.len(),
        entries[i].name is Some,
        entries[i].is_file,
        !entry_skipped(blacklist, entries[i]),
    ensures
        spec_plan(blacklist, entries).contains(
            MergeActionModel::CopyFile { name: entries[i].name->0 },
        ),
    decreases entries.len(),
{
    lemma_plan_contains_action(blacklist, entries, i);
}

/// A staged directory whose name is not protected-and-present is
/// planned to be merged into the corresponding live subdirectory, so
/// files already there that the staged tree does not touch survive.
pub proof fn lemma_plan_merges_dir(
    blacklist: Seq<Seq<char>>,
    entries: Seq<StagedEntryModel>,
    i: int,
)
    requires
        0 <= i < entries.len(),
        entries[i].name is Some,
        !entries[i].is_file,
        !entry_skipped(blacklist, entries[i]),
    ensures
        spec_plan(blacklist, entries).contains(
            MergeActionModel::MergeDir { name: entries[i].name->0 },
        ),
    decreases entries.len(),
{
    lemma_plan_contains_action(blacklist, entries, i);
}

/// Every staged entry that is not skipped contributes its action to the
/// plan.
pub proof fn lemma_plan_contains_action(
    blacklist: Seq<Seq<char>>,
    entries: Seq<StagedEntryModel>,
    i: int,
)
    requires
        0 <= i < entries.len(),
        !entry_skipped(blacklist, entries[i]),
    ensures
        spec_plan(blacklist, entries).contains(entry_action(entries[i])),
    decreases entries.len(),
{
    let plan = spec_plan(blacklist, entries);
    let prefix = spec_plan(blacklist, entries.drop_last());
    if i == entries.len() - 1 {
        assert(plan[prefix.len() as int] == entry_action(entries[i]));
    } else {
        lemma_plan_contains_action(blacklist, entries.drop_last(), i);
        let j = choose|j: int| 0 <= j < prefix.len() && prefix[j] == entry_action(
            entries.drop_last()[i],
        );
        assert(plan[j] == entry_action(entries[i]));
    }
}

} // verus!
