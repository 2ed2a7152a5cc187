//! The orchestrator's decisions: the order of the steps a module goes
//! through, what a failure does to the run, which files the modules
//! produced, and how they are merged into the unified target directory.

use vstd::prelude::*;
use vstd::string::*;
use crate::text::affixed;

verus! {

/// The three calls made to a module's backend, in the order they are made.
#[derive(Clone, Copy, Debug, PartialEq, Eq, Structural)]
pub enum BuildStep {
    Configure,
    Compile,
    ListOutputs,
}

/// How far a module has come.
#[derive(Clone, Copy, Debug, PartialEq, Eq, Structural)]
pub enum ModuleState {
    Unconfigured,
    Configured,
    Compiled,
    OutputsListed,
    /// The step failed; the module goes no further.
    Failed(BuildStep),
}

/// What to do with a module next.
#[derive(Clone, Copy, Debug, PartialEq, Eq, Structural)]
pub enum Action {
    /// Make this call to the backend.
    Run(BuildStep),
    /// The module is done.
    Finish,
    /// Give the run up: this step failed.
    Abort(BuildStep),
}

/// The step that a state waits for; none once the module is done or failed.
pub open spec fn pending(state: ModuleState) -> Option<BuildStep> {
    match state {
        ModuleState::Unconfigured => Some(BuildStep::Configure),
        ModuleState::Configured => Some(BuildStep::Compile),
        ModuleState::Compiled => Some(BuildStep::ListOutputs),
        ModuleState::OutputsListed => None,
        ModuleState::Failed(_) => None,
    }
}

/// The state that follows when the step `state` waits for has succeeded.
pub open spec fn successor(state: ModuleState) -> ModuleState {
    match state {
        ModuleState::Unconfigured => ModuleState::Configured,
        ModuleState::Configured => ModuleState::Compiled,
        ModuleState::Compiled => ModuleState::OutputsListed,
        ModuleState::OutputsListed => ModuleState::OutputsListed,
        ModuleState::Failed(step) => ModuleState::Failed(step),
    }
}

/// The state after the pending step has ended: the next state where it
/// succeeded, the failure of that step where it did not. A module that is
/// done or has failed stays as it is.
pub open spec fn advanced(state: ModuleState, succeeded: bool) -> ModuleState {
    match pending(state) {
        Some(step) => if succeeded {
            successor(state)
        } else {
            ModuleState::Failed(step)
        },
        None => state,
    }
}

/// What to do in a state.
pub open spec fn action_of(state: ModuleState) -> Action {
    match state {
        ModuleState::Failed(step) => Action::Abort(step),
        ModuleState::OutputsListed => Action::Finish,
        _ => Action::Run(pending(state)->0),
    }
}

/// The state after a series of steps has ended with `outcomes`, in order.
pub open spec fn after_all(state: ModuleState, outcomes: Seq<bool>) -> ModuleState
    decreases outcomes.len(),
{
    if outcomes.len() == 0 {
        state
    } else {
        advanced(after_all(state, outcomes.drop_last()), outcomes.last())
    }
}

/// What the user is told when a step fails.
pub open spec fn failure_message_of(step: BuildStep) -> Seq<char> {
    match step {
        BuildStep::Configure => "Failed to configure module"@,
        BuildStep::Compile => "Failed to compile module"@,
        BuildStep::ListOutputs => "Failed to get module outputs"@,
    }
}

impl BuildStep {
    /// What the user is told when this step fails.
    pub fn failure_message(&self) -> (r: &'static str)
        ensures
            r@ == failure_message_of(*self),
    {
        match self {
            BuildStep::Configure => "Failed to configure module",
            BuildStep::Compile => "Failed to compile module",
            BuildStep::ListOutputs => "Failed to get module outputs",
        }
    }
}

impl ModuleState {
    /// What to do next.
    pub fn action(&self) -> (r: Action)
        ensures
            r == action_of(*self),
    {
        match self {
            ModuleState::Unconfigured => Action::Run(BuildStep::Configure),
            ModuleState::Configured => Action::Run(BuildStep::Compile),
            ModuleState::Compiled => Action::Run(BuildStep::ListOutputs),
            ModuleState::OutputsListed => Action::Finish,
            ModuleState::Failed(step) => Action::Abort(*step),
        }
    }

    /// The state after the pending step has ended.
    pub fn advance(self, succeeded: bool) -> (r: ModuleState)
        ensures
            r == advanced(self, succeeded),
    {
        match self {
            ModuleState::Unconfigured => if succeeded {
                ModuleState::Configured
            } else {
                ModuleState::Failed(BuildStep::Configure)
            },
            ModuleState::Configured => if succeeded {
                ModuleState::Compiled
            } else {
                ModuleState::Failed(BuildStep::Compile)
            },
            ModuleState::Compiled => if succeeded {
                ModuleState::OutputsListed
            } else {
                ModuleState::Failed(BuildStep::ListOutputs)
            },
            ModuleState::OutputsListed => ModuleState::OutputsListed,
            ModuleState::Failed(step) => ModuleState::Failed(step),
        }
    }
}

/// A failure is final: whatever is reported afterwards, the module stays
/// failed at the same step, and the only thing to do is to give up.
pub proof fn lemma_failure_is_final(step: BuildStep, outcomes: Seq<bool>)
    ensures
        after_all(ModuleState::Failed(step), outcomes) == ModuleState::Failed(step),
        action_of(after_all(ModuleState::Failed(step), outcomes)) == Action::Abort(step),
    decreases outcomes.len(),
{
    if outcomes.len() > 0 {
        lemma_failure_is_final(step, outcomes.drop_last());
    }
}

/// The outputs of a module are asked for only after it was configured and
/// compiled with success: the state in which they are asked for is reached
/// by exactly two successes and by nothing else.
pub proof fn lemma_outputs_asked_only_after_compile(outcomes: Seq<bool>)
    ensures
        action_of(after_all(ModuleState::Unconfigured, outcomes)) == Action::Run(
            BuildStep::ListOutputs,
        ) <==> outcomes == seq![true, true],
    decreases outcomes.len(),
{
    lemma_reached(outcomes);
    if outcomes == seq![true, true] {
        assert(outcomes.drop_last() == seq![true]);
        assert(outcomes.drop_last().drop_last() == Seq::<bool>::empty());
    }
}

/// No step is skipped: three successes take a module through every state in
/// order, and each state asks for its own step.
pub proof fn lemma_no_step_is_skipped()
    ensures
        action_of(ModuleState::Unconfigured) == Action::Run(BuildStep::Configure),
        advanced(ModuleState::Unconfigured, true) == ModuleState::Configured,
        action_of(ModuleState::Configured) == Action::Run(BuildStep::Compile),
        advanced(ModuleState::Configured, true) == ModuleState::Compiled,
        action_of(ModuleState::Compiled) == Action::Run(BuildStep::ListOutputs),
        advanced(ModuleState::Compiled, true) == ModuleState::OutputsListed,
        action_of(ModuleState::OutputsListed) == Action::Finish,
{
}

/// Which state a fresh module reaches is told by the outcomes alone: each
/// state but a failure is reached by one series of successes only.
proof fn lemma_reached(outcomes: Seq<bool>)
    ensures
        after_all(ModuleState::Unconfigured, outcomes) == ModuleState::Unconfigured <==> outcomes
            == Seq::<bool>::empty(),
        after_all(ModuleState::Unconfigured, outcomes) == ModuleState::Configured <==> outcomes
            == seq![true],
        after_all(ModuleState::Unconfigured, outcomes) == ModuleState::Compiled <==> outcomes
            == seq![true, true],
    decreases outcomes.len(),
{
    if outcomes.len() > 0 {
        let before = outcomes.drop_last();
        lemma_reached(before);
        assert(outcomes =~= before.push(outcomes.last()));
        if before == Seq::<bool>::empty() {
            assert(outcomes =~= seq![outcomes.last()]);
        }
        if before == seq![true] {
            assert(outcomes =~= seq![true, outcomes.last()]);
        }
        if outcomes == seq![true] {
            assert(before =~= Seq::<bool>::empty());
        }
        if outcomes == seq![true, true] {
            assert(before =~= seq![true]);
        }
    } else {
        assert(outcomes =~= Seq::<bool>::empty());
        assert(seq![true].len() == 1);
        assert(seq![true, true].len() == 2);
    }
}

/// What to do next in a run over all the modules.
#[derive(Clone, Copy, Debug, PartialEq, Eq, Structural)]
pub enum RunAction {
    /// Make this call to the backend of the module with this index.
    Step(usize, BuildStep),
    /// Every module is built: merge what was produced.
    Merge,
    /// Give the run up: this step of this module failed.
    Abort(usize, BuildStep),
}

/// What to do when `index` modules out of `total` are done and the next one
/// is in `state`.
pub open spec fn run_action_of(total: nat, index: nat, state: ModuleState) -> RunAction {
    if index >= total {
        RunAction::Merge
    } else {
        match state {
            ModuleState::Failed(step) => RunAction::Abort(index as usize, step),
            ModuleState::Unconfigured => RunAction::Step(index as usize, BuildStep::Configure),
            ModuleState::Configured => RunAction::Step(index as usize, BuildStep::Compile),
            _ => RunAction::Step(index as usize, BuildStep::ListOutputs),
        }
    }
}

/// The number of modules done once the pending step has ended: one more
/// when the step that succeeded was the module's last.
pub open spec fn index_after(total: nat, index: nat, state: ModuleState, succeeded: bool) -> nat {
    if index < total && state == ModuleState::Compiled && succeeded {
        index + 1
    } else {
        index
    }
}

/// The state of the module in turn once the pending step has ended. After a
/// module's last step the next module is in turn, not yet configured.
pub open spec fn state_after(total: nat, index: nat, state: ModuleState, succeeded: bool)
    -> ModuleState {
    if index >= total {
        state
    } else if state == ModuleState::Compiled && succeeded {
        ModuleState::Unconfigured
    } else {
        advanced(state, succeeded)
    }
}

/// A run over the modules of a workspace, one module after the other in
/// declaration order.
pub struct Orchestrator {
    total: usize,
    index: usize,
    state: ModuleState,
}

impl Orchestrator {
    /// The number of modules.
    pub closed spec fn total(&self) -> nat {
        self.total as nat
    }

    /// The number of modules done; the index of the module in turn.
    pub closed spec fn index(&self) -> nat {
        self.index as nat
    }

    /// How far the module in turn has come.
    pub closed spec fn state(&self) -> ModuleState {
        self.state
    }

    /// No more modules are done than there are, and a module whose outputs
    /// are listed is no longer in turn.
    #[verifier::type_invariant]
    spec fn wf(&self) -> bool {
        self.index <= self.total && self.state != ModuleState::OutputsListed
    }

    /// A run over `total` modules, none of them started.
    pub fn new(total: usize) -> (r: Self)
        ensures
            r.total() == total,
            r.index() == 0,
            r.state() == ModuleState::Unconfigured,
    {
        Orchestrator { total, index: 0, state: ModuleState::Unconfigured }
    }

    /// What to do next.
    pub fn action(&self) -> (r: RunAction)
        ensures
            r == run_action_of(self.total(), self.index(), self.state()),
    {
        if self.index >= self.total {
            RunAction::Merge
        } else {
            match self.state {
                ModuleState::Failed(step) => RunAction::Abort(self.index, step),
                ModuleState::Unconfigured => RunAction::Step(self.index, BuildStep::Configure),
                ModuleState::Configured => RunAction::Step(self.index, BuildStep::Compile),
                _ => RunAction::Step(self.index, BuildStep::ListOutputs),
            }
        }
    }

    /// Records how the step that `action` asked for has ended. Nothing
    /// changes once the run has failed or every module is done.
    pub fn record(&mut self, succeeded: bool)
        ensures
            final(self).total() == old(self).total(),
            final(self).index() == index_after(
                old(self).total(),
                old(self).index(),
                old(self).state(),
                succeeded,
            ),
            final(self).state() == state_after(
                old(self).total(),
                old(self).index(),
                old(self).state(),
                succeeded,
            ),
    {
        proof {
            use_type_invariant(&*self);
        }
        if self.index < self.total {
            let next = self.state.advance(succeeded);
            match next {
                ModuleState::OutputsListed => {
                    self.index = self.index + 1;
                    self.state = ModuleState::Unconfigured;
                },
                _ => {
                    self.state = next;
                },
            }
        }
    }
}

/// The run as far as it has come: how many modules are done, and the state
/// of the one in turn.
pub struct RunModel {
    pub index: nat,
    pub state: ModuleState,
}

/// The run after a series of steps has ended with `outcomes`, in order.
pub open spec fn run_after(total: nat, outcomes: Seq<bool>) -> RunModel
    decreases outcomes.len(),
{
    if outcomes.len() == 0 {
        RunModel { index: 0, state: ModuleState::Unconfigured }
    } else {
        let before = run_after(total, outcomes.drop_last());
        RunModel {
            index: index_after(total, before.index, before.state, outcomes.last()),
            state: state_after(total, before.index, before.state, outcomes.last()),
        }
    }
}

/// Once a step has failed the run stays failed: whatever is reported
/// afterwards, no further step is asked for and nothing is merged.
pub proof fn lemma_failed_run_never_merges(total: nat, outcomes: Seq<bool>, later: Seq<bool>)
    requires
        run_after(total, outcomes).index < total,
        run_after(total, outcomes).state matches ModuleState::Failed(_),
    ensures
        run_after(total, outcomes + later) == run_after(total, outcomes),
        run_action_of(
            total,
            run_after(total, outcomes + later).index,
            run_after(total, outcomes + later).state,
        ) == RunAction::Abort(
            run_after(total, outcomes).index as usize,
            run_after(total, outcomes).state->Failed_0,
        ),
    decreases later.len(),
{
    if later.len() == 0 {
        assert(outcomes + later =~= outcomes);
    } else {
        lemma_failed_run_never_merges(total, outcomes, later.drop_last());
        assert((outcomes + later).drop_last() =~= outcomes + later.drop_last());
        assert((outcomes + later).last() == later.last());
    }
}

/// The merge is asked for only when every module is done, and a module is
/// done only by three successes: the number of modules done is never more
/// than a third of the steps that succeeded.
pub proof fn lemma_merge_needs_every_module(total: nat, outcomes: Seq<bool>)
    ensures
        run_after(total, outcomes).index <= total,
        run_after(total, outcomes).state != ModuleState::OutputsListed,
        3 * run_after(total, outcomes).index + steps_into(run_after(total, outcomes).state)
            <= successes(outcomes),
        run_action_of(total, run_after(total, outcomes).index, run_after(total, outcomes).state)
            == RunAction::Merge ==> 3 * total <= successes(outcomes),
    decreases outcomes.len(),
{
    if outcomes.len() > 0 {
        lemma_merge_needs_every_module(total, outcomes.drop_last());
    }
}

/// How many of `outcomes` are successes.
pub open spec fn successes(outcomes: Seq<bool>) -> nat
    decreases outcomes.len(),
{
    if outcomes.len() == 0 {
        0
    } else {
        successes(outcomes.drop_last()) + if outcomes.last() {
            1nat
        } else {
            0nat
        }
    }
}

/// How many steps of a module have succeeded when it is in `state`.
pub open spec fn steps_into(state: ModuleState) -> nat {
    match state {
        ModuleState::Unconfigured => 0,
        ModuleState::Configured => 1,
        ModuleState::Compiled => 2,
        ModuleState::OutputsListed => 3,
        ModuleState::Failed(BuildStep::Configure) => 0,
        ModuleState::Failed(BuildStep::Compile) => 1,
        ModuleState::Failed(BuildStep::ListOutputs) => 2,
    }
}

/// What the user is told of a failure: what was being done, a colon, and
/// the cause.
pub open spec fn report_of(context: Seq<char>, cause: Seq<char>) -> Seq<char> {
    context + ": "@ + cause
}

/// What the user is told of a failure.
pub fn report(context: &str, cause: &str) -> (r: String)
    ensures
        r@ == report_of(context@, cause@),
{
    affixed(context, ": ", cause)
}

} // verus!
