//! From resolved outputs to the unified target directory: which files the
//! modules produced, and which of them are linked in. An entry that is
//! already there is never replaced.

use vstd::prelude::*;
use vstd::string::*;
use crate::finder::{
    resolved_all, result_models, Context, Finder, FinderResult, FinderResultModel, Listing,
    Platform,
};
use crate::output::{lemma_texts_push, models, texts, Output, OutputModel};
use crate::path::{
    file_name, file_name_of, join, joined, lemma_file_name_is_plain, lemma_file_name_of_joined,
};
use crate::text::same_text;

verus! {

/// The one path, or none.
pub open spec fn optional(path: Option<Seq<char>>) -> Seq<Seq<char>> {
    match path {
        Some(p) => seq![p],
        None => seq![],
    }
}

/// The files of one result: the artifact, its debug information and its
/// import library, as far as they were found.
pub open spec fn paths_of(r: FinderResultModel) -> Seq<Seq<char>> {
    optional(r.path) + optional(r.debug_info) + optional(r.exports)
}

/// The files of all of `results`, one result after the other.
pub open spec fn all_paths(results: Seq<FinderResultModel>) -> Seq<Seq<char>>
    decreases results.len(),
{
    if results.len() == 0 {
        Seq::empty()
    } else {
        all_paths(results.drop_last()) + paths_of(results.last())
    }
}

/// The files that `outputs` resolve to in `dir`, one output after the
/// other, each in every variant that exists.
pub open spec fn artifacts_of(
    platform: Platform,
    outputs: Seq<OutputModel>,
    dir: Seq<char>,
    present: Set<Seq<char>>,
) -> Seq<Seq<char>>
    decreases outputs.len(),
{
    if outputs.len() == 0 {
        Seq::empty()
    } else {
        artifacts_of(platform, outputs.drop_last(), dir, present) + all_paths(
            resolved_all(platform, outputs.last(), dir, present),
        )
    }
}

fn push_present(paths: &mut Vec<String>, path: &Option<String>)
    ensures
        texts(final(paths)@) == texts(old(paths)@) + optional(
            match *path {
                Some(p) => Some(p@),
                None => None,
            },
        ),
{
    match path {
        Some(p) => {
            let c = p.clone();
            proof {
                lemma_texts_push(paths@, c);
                assert(texts(paths@).push(c@) =~= texts(paths@) + seq![p@]);
            }
            paths.push(c);
        },
        None => {
            assert(texts(paths@) =~= texts(paths@) + Seq::<Seq<char>>::empty());
        },
    }
}

/// The files of `results`, in order.
pub fn artifact_paths(results: &Vec<FinderResult>) -> (r: Vec<String>)
    ensures
        texts(r@) == all_paths(result_models(results@)),
{
    let mut r: Vec<String> = Vec::new();
    let mut i: usize = 0;
    let ghost all = result_models(results@);
    assert(all.take(0) =~= Seq::<FinderResultModel>::empty());
    assert(texts(r@) =~= all_paths(all.take(0)));
    while i < results.len()
        invariant
            i <= results.len(),
            all == result_models(results@),
            texts(r@) == all_paths(all.take(i as int)),
        decreases results.len() - i,
    {
        let ghost before = texts(r@);
        assert(all.take(i + 1).drop_last() =~= all.take(i as int));
        assert(all.take(i + 1).last() == results@[i as int]@);
        push_present(&mut r, &results[i].path);
        push_present(&mut r, &results[i].debug_info);
        push_present(&mut r, &results[i].exports);
        assert(texts(r@) =~= before + paths_of(results@[i as int]@));
        i += 1;
    }
    assert(all.take(i as int) =~= all);
    r
}

/// The files that `outputs` resolve to, as `finder` finds them.
pub fn collect_artifacts<C: Context>(finder: &Finder<'_, C>, outputs: &Vec<Output>) -> (r: Vec<
    String,
>)
    ensures
        texts(r@) == artifacts_of(
            finder.platform(),
            models(outputs@),
            finder.directory(),
            finder.present(),
        ),
{
    let mut r: Vec<String> = Vec::new();
    let mut i: usize = 0;
    let ghost all = models(outputs@);
    assert(all.take(0) =~= Seq::<OutputModel>::empty());
    assert(texts(r@) =~= artifacts_of(
        finder.platform(),
        all.take(0),
        finder.directory(),
        finder.present(),
    ));
    while i < outputs.len()
        invariant
            i <= outputs.len(),
            all == models(outputs@),
            texts(r@) == artifacts_of(
                finder.platform(),
                all.take(i as int),
                finder.directory(),
                finder.present(),
            ),
        decreases outputs.len() - i,
    {
        assert(all.take(i + 1).drop_last() =~= all.take(i as int));
        assert(all.take(i + 1).last() == outputs@[i as int]@);
        let results = finder.resolve_output_all(&outputs[i]);
        let mut found = artifact_paths(&results);
        proof {
            assert(texts(r@ + found@) =~= texts(r@) + texts(found@));
        }
        r.append(&mut found);
        i += 1;
    }
    assert(all.take(i as int) =~= all);
    r
}

/// One file to link into the unified directory.
#[derive(Debug, PartialEq, Eq)]
pub struct MergeAction {
    /// The file that was built.
    pub source: String,
    /// The name of the entry to make.
    pub name: String,
    /// The entry to make: `name` in the unified directory.
    pub destination: String,
}

/// What a `MergeAction` stands for in contracts.
pub struct MergeActionModel {
    pub source: Seq<char>,
    pub name: Seq<char>,
    pub destination: Seq<char>,
}

impl View for MergeAction {
    type V = MergeActionModel;

    open spec fn view(&self) -> MergeActionModel {
        MergeActionModel { source: self.source@, name: self.name@, destination: self.destination@ }
    }
}

/// What a merge has to do.
#[derive(Debug, PartialEq, Eq)]
pub struct MergePlan {
    /// Whether the unified directory is to be made first.
    pub create_directory: bool,
    /// The entries to make, in order.
    pub actions: Vec<MergeAction>,
}

/// The models of a sequence of actions, in the same order.
pub open spec fn action_models(actions: Seq<MergeAction>) -> Seq<MergeActionModel> {
    actions.map_values(|a: MergeAction| a@)
}

/// Whether `plan` makes an entry called `name`.
pub open spec fn plans_name(plan: Seq<MergeActionModel>, name: Seq<char>) -> bool {
    exists|k: int| 0 <= k < plan.len() && (#[trigger] plan[k]).name == name
}

/// The entries to make in `dir` for `artifacts` when `existing` is there
/// already. An artifact is linked in under its file name, unless an entry of
/// that name exists or an earlier artifact has taken the name. An artifact
/// without a file name is passed over.
pub open spec fn planned(dir: Seq<char>, existing: Set<Seq<char>>, artifacts: Seq<Seq<char>>)
    -> Seq<MergeActionModel>
    decreases artifacts.len(),
{
    if artifacts.len() == 0 {
        Seq::empty()
    } else {
        let before = planned(dir, existing, artifacts.drop_last());
        let source = artifacts.last();
        match file_name_of(source) {
            Some(name) => if existing.contains(name) || plans_name(before, name) {
                before
            } else {
                before.push(MergeActionModel { source, name, destination: joined(dir, name) })
            },
            None => before,
        }
    }
}

/// The unified directory as a map from entry names to what each entry
/// holds, after `plan` is carried out on `tree`.
pub open spec fn merged(tree: Map<Seq<char>, Seq<char>>, plan: Seq<MergeActionModel>) -> Map<
    Seq<char>,
    Seq<char>,
>
    decreases plan.len(),
{
    if plan.len() == 0 {
        tree
    } else {
        merged(tree, plan.drop_last()).insert(plan.last().name, plan.last().source)
    }
}

fn plans(actions: &Vec<MergeAction>, name: &str) -> (r: bool)
    ensures
        r == plans_name(action_models(actions@), name@),
{
    let mut i: usize = 0;
    while i < actions.len()
        invariant
            i <= actions.len(),
            forall|k: int| 0 <= k < i ==> (#[trigger] action_models(actions@)[k]).name != name@,
        decreases actions.len() - i,
    {
        if same_text(actions[i].name.as_str(), name) {
            assert(action_models(actions@)[i as int].name == name@);
            return true;
        }
        i += 1;
    }
    false
}

/// Plans the merge of `artifacts` into `directory`, where `existing` tells
/// which entries the directory holds already.
pub fn plan_merge(
    directory_exists: bool,
    existing: &Listing,
    directory: &str,
    artifacts: &Vec<String>,
) -> (r: MergePlan)
    ensures
        r.create_directory == !directory_exists,
        action_models(r.actions@) == planned(directory@, existing@, texts(artifacts@)),
{
    let mut actions: Vec<MergeAction> = Vec::new();
    let mut i: usize = 0;
    let ghost all = texts(artifacts@);
    assert(all.take(0) =~= Seq::<Seq<char>>::empty());
    assert(action_models(actions@) =~= planned(directory@, existing@, all.take(0)));
    while i < artifacts.len()
        invariant
            i <= artifacts.len(),
            all == texts(artifacts@),
            action_models(actions@) == planned(directory@, existing@, all.take(i as int)),
        decreases artifacts.len() - i,
    {
        assert(all.take(i + 1).drop_last() =~= all.take(i as int));
        assert(all.take(i + 1).last() == artifacts@[i as int]@);
        match file_name(artifacts[i].as_str()) {
            Some(name) => {
                if !existing.contains(name.as_str()) && !plans(&actions, name.as_str()) {
                    let destination = join(directory, name.as_str());
                    let a = MergeAction { source: artifacts[i].clone(), name, destination };
                    assert(action_models(actions@.push(a)) =~= action_models(actions@).push(a@));
                    actions.push(a);
                }
            },
            None => {},
        }
        i += 1;
    }
    assert(all.take(i as int) =~= all);
    MergePlan { create_directory: !directory_exists, actions }
}

/// What a plan is made of: no entry it makes exists already, no two of its
/// entries have the same name, and every artifact that has a file name finds
/// that name in the directory or in the plan.
pub proof fn lemma_planned(dir: Seq<char>, existing: Set<Seq<char>>, artifacts: Seq<Seq<char>>)
    ensures
        forall|k: int|
            0 <= k < planned(dir, existing, artifacts).len() ==> !existing.contains(
                (#[trigger] planned(dir, existing, artifacts)[k]).name,
            ),
        forall|j: int, k: int|
            0 <= j < k < planned(dir, existing, artifacts).len() ==> (#[trigger] planned(
                dir,
                existing,
                artifacts,
            )[j]).name != (#[trigger] planned(dir, existing, artifacts)[k]).name,
        forall|i: int|
            0 <= i < artifacts.len() ==> (file_name_of(#[trigger] artifacts[i]) matches Some(name)
                ==> existing.contains(name) || plans_name(planned(dir, existing, artifacts), name)),
    decreases artifacts.len(),
{
    if artifacts.len() > 0 {
        let rest = artifacts.drop_last();
        lemma_planned(dir, existing, rest);
        let before = planned(dir, existing, rest);
        let plan = planned(dir, existing, artifacts);
        assert forall|n: Seq<char>| plans_name(before, n) implies plans_name(plan, n) by {
            let k = choose|k: int| 0 <= k < before.len() && (#[trigger] before[k]).name == n;
            assert(plan[k].name == n);
        }
        assert forall|i: int| 0 <= i < artifacts.len() implies (file_name_of(
            #[trigger] artifacts[i],
        ) matches Some(name) ==> existing.contains(name) || plans_name(plan, name)) by {
            if i < rest.len() {
                assert(rest[i] == artifacts[i]);
            } else {
                match file_name_of(artifacts[i]) {
                    Some(name) => {
                        if !existing.contains(name) && !plans_name(before, name) {
                            assert(plan[before.len() as int].name == name);
                        }
                    },
                    None => {},
                }
            }
        }
        assert forall|j: int, k: int| 0 <= j < k < plan.len() implies (#[trigger] plan[j]).name
            != (#[trigger] plan[k]).name by {
            if k == before.len() {
                assert(before[j] == plan[j]);
            }
        }
    }
}

/// Where every artifact's file name exists already, nothing is planned.
pub proof fn lemma_nothing_to_plan(
    dir: Seq<char>,
    existing: Set<Seq<char>>,
    artifacts: Seq<Seq<char>>,
)
    requires
        forall|i: int|
            0 <= i < artifacts.len() ==> (file_name_of(#[trigger] artifacts[i]) matches Some(name)
                ==> existing.contains(name)),
    ensures
        planned(dir, existing, artifacts) == Seq::<MergeActionModel>::empty(),
    decreases artifacts.len(),
{
    if artifacts.len() > 0 {
        let rest = artifacts.drop_last();
        assert forall|i: int| 0 <= i < rest.len() implies (file_name_of(
            #[trigger] rest[i],
        ) matches Some(name) ==> existing.contains(name)) by {
            assert(rest[i] == artifacts[i]);
        }
        lemma_nothing_to_plan(dir, existing, rest);
        assert(artifacts.last() == artifacts[artifacts.len() - 1]);
    }
}

/// Carrying a plan out adds its entries to the directory and changes
/// nothing else: a name is there afterwards exactly if it was there before
/// or the plan makes it, and a name that the plan does not make holds what
/// it held.
pub proof fn lemma_merged(
    tree: Map<Seq<char>, Seq<char>>,
    plan: Seq<MergeActionModel>,
    n: Seq<char>,
)
    ensures
        merged(tree, plan).dom().contains(n) <==> tree.dom().contains(n) || plans_name(plan, n),
        !plans_name(plan, n) ==> merged(tree, plan)[n] == tree[n],
    decreases plan.len(),
{
    if plan.len() > 0 {
        let rest = plan.drop_last();
        lemma_merged(tree, rest, n);
        if plans_name(plan, n) {
            let k = choose|k: int| 0 <= k < plan.len() && (#[trigger] plan[k]).name == n;
            if k < rest.len() {
                assert(rest[k].name == n);
            }
        }
        if plans_name(rest, n) {
            let k = choose|k: int| 0 <= k < rest.len() && (#[trigger] rest[k]).name == n;
            assert(plan[k].name == n);
        }
        if n == plan.last().name {
            assert(plan[plan.len() - 1].name == n);
        }
    }
}

/// A merge never overwrites: whatever the directory held before the merge
/// it holds afterwards, under the same name and with the same content, also
/// where an artifact of that name was produced.
pub proof fn lemma_merge_never_overwrites(
    tree: Map<Seq<char>, Seq<char>>,
    dir: Seq<char>,
    artifacts: Seq<Seq<char>>,
    name: Seq<char>,
)
    requires
        tree.dom().contains(name),
    ensures
        merged(tree, planned(dir, tree.dom(), artifacts)).dom().contains(name),
        merged(tree, planned(dir, tree.dom(), artifacts))[name] == tree[name],
{
    let plan = planned(dir, tree.dom(), artifacts);
    lemma_planned(dir, tree.dom(), artifacts);
    lemma_merged(tree, plan, name);
    if plans_name(plan, name) {
        let k = choose|k: int| 0 <= k < plan.len() && (#[trigger] plan[k]).name == name;
        assert(!tree.dom().contains(plan[k].name));
    }
}

/// A merge is idempotent: merging the same artifacts again into the
/// directory that a merge has left plans no entry, so nothing is written
/// and the directory stays as it is.
pub proof fn lemma_merge_is_idempotent(
    tree: Map<Seq<char>, Seq<char>>,
    dir: Seq<char>,
    artifacts: Seq<Seq<char>>,
)
    ensures
        planned(
            dir,
            merged(tree, planned(dir, tree.dom(), artifacts)).dom(),
            artifacts,
        ) == Seq::<MergeActionModel>::empty(),
        merged(
            merged(tree, planned(dir, tree.dom(), artifacts)),
            planned(dir, merged(tree, planned(dir, tree.dom(), artifacts)).dom(), artifacts),
        ) == merged(tree, planned(dir, tree.dom(), artifacts)),
{
    let plan = planned(dir, tree.dom(), artifacts);
    let after = merged(tree, plan);
    lemma_planned(dir, tree.dom(), artifacts);
    assert forall|i: int| 0 <= i < artifacts.len() implies (file_name_of(
        #[trigger] artifacts[i],
    ) matches Some(name) ==> after.dom().contains(name)) by {
        match file_name_of(artifacts[i]) {
            Some(name) => {
                assert(tree.dom().contains(name) || plans_name(plan, name));
                lemma_merged(tree, plan, name);
            },
            None => {},
        }
    }
    lemma_nothing_to_plan(dir, after.dom(), artifacts);
}

/// Every entry of a plan is named after its artifact: the entry's name is
/// the artifact's file name, the entry lies in the directory, and its own
/// file name is that name.
pub proof fn lemma_entries_are_named_after_artifacts(
    dir: Seq<char>,
    existing: Set<Seq<char>>,
    artifacts: Seq<Seq<char>>,
    k: int,
)
    requires
        0 <= k < planned(dir, existing, artifacts).len(),
    ensures
        artifacts.contains(planned(dir, existing, artifacts)[k].source),
        file_name_of(planned(dir, existing, artifacts)[k].source) == Some(
            planned(dir, existing, artifacts)[k].name,
        ),
        planned(dir, existing, artifacts)[k].destination == joined(
            dir,
            planned(dir, existing, artifacts)[k].name,
        ),
        file_name_of(planned(dir, existing, artifacts)[k].destination) == Some(
            planned(dir, existing, artifacts)[k].name,
        ),
    decreases artifacts.len(),
{
    let rest = artifacts.drop_last();
    let before = planned(dir, existing, rest);
    if k < before.len() {
        lemma_entries_are_named_after_artifacts(dir, existing, rest, k);
        let i = choose|i: int| 0 <= i < rest.len() && rest[i] == before[k].source;
        assert(artifacts[i] == before[k].source);
    } else {
        let source = artifacts.last();
        assert(artifacts[artifacts.len() - 1] == source);
        lemma_file_name_is_plain(source);
        lemma_file_name_of_joined(dir, file_name_of(source)->0);
    }
}

} // verus!
