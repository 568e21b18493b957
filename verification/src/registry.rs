//! A model of the registry's keys, and of what the registry steps of a plan
//! do to them when each takes effect.

use crate::plan::{every_step, every_step_unfold, ActionView, Hive, StepView};
use vstd::prelude::*;

verus! {

/// A registry key: a hive and the path below it, its parts separated by
/// backslashes. The model takes every key to be written in one spelling:
/// paths are the same key where they are the same text.
pub struct KeyId {
    pub hive: Hive,
    pub path: Seq<char>,
}

/// `path` names a key strictly below the key `root`.
pub open spec fn below(path: Seq<char>, root: Seq<char>) -> bool {
    path.len() > root.len() && path.subrange(0, root.len() as int) == root
        && path[root.len() as int] == '\\'
}

/// `path` names the key `root` or a key below it.
pub open spec fn within(path: Seq<char>, root: Seq<char>) -> bool {
    path == root || below(path, root)
}

/// The keys present once `action` has taken effect on `keys`. Creating a
/// key creates the keys above it too; deleting a key removes it only where
/// nothing lies below it; deleting a tree removes the key and all below it;
/// no other action touches a key.
pub open spec fn keys_after_action(keys: Set<KeyId>, action: ActionView) -> Set<KeyId> {
    match action {
        ActionView::CreateKey { hive, path } => Set::new(
            |k: KeyId| keys.contains(k) || (k.hive == hive && within(path, k.path)),
        ),
        ActionView::DeleteKey { hive, path } => if exists|k: KeyId|
            keys.contains(k) && k.hive == hive && below(k.path, path) {
            keys
        } else {
            keys.remove(KeyId { hive, path })
        },
        ActionView::DeleteTree { hive, path } => Set::new(
            |k: KeyId| keys.contains(k) && !(k.hive == hive && within(k.path, path)),
        ),
        _ => keys,
    }
}

/// The keys present once every step of `plan` has taken effect on `keys`,
/// in order.
pub open spec fn keys_after(keys: Set<KeyId>, plan: Seq<StepView>) -> Set<KeyId>
    decreases plan.len(),
{
    if plan.len() == 0 {
        keys
    } else {
        keys_after_action(keys_after(keys, plan.drop_last()), plan.last().action)
    }
}

/// `step` creates no key.
pub open spec fn creates_none(step: StepView) -> bool {
    !(step.action is CreateKey)
}

/// `step` deletes neither a key nor a tree.
pub open spec fn deletes_none(step: StepView) -> bool {
    !(step.action is DeleteKey) && !(step.action is DeleteTree)
}

/// No step of `plan` creates a key.
pub open spec fn creates_nothing(plan: Seq<StepView>) -> bool {
    every_step(plan, |step: StepView| creates_none(step))
}

/// No step of `plan` deletes a key or a tree.
pub open spec fn deletes_nothing(plan: Seq<StepView>) -> bool {
    every_step(plan, |step: StepView| deletes_none(step))
}

/// `step` creates no key, or one whose path has at most `limit`
/// characters.
pub open spec fn creates_short(step: StepView, limit: nat) -> bool {
    step.action matches ActionView::CreateKey { path, .. } ==> path.len() <= limit
}

/// Every key that a step of `plan` creates has a path of at most `limit`
/// characters.
pub open spec fn creates_within(plan: Seq<StepView>, limit: nat) -> bool {
    every_step(plan, |step: StepView| creates_short(step, limit))
}

/// No key of `keys` lies strictly below `root`, in either hive.
pub open spec fn nothing_below(keys: Set<KeyId>, root: Seq<char>) -> bool {
    forall|k: KeyId| keys.contains(k) ==> !below(#[trigger] k.path, root)
}

/// Running a plan and one more step is running the plan, then the step.
pub proof fn keys_after_push(keys: Set<KeyId>, plan: Seq<StepView>, step: StepView)
    ensures
        keys_after(keys, plan.push(step)) == keys_after_action(
            keys_after(keys, plan),
            step.action,
        ),
{
    assert(plan.push(step).drop_last() =~= plan);
}

/// Running `first` and then `second` is running the two as one plan.
pub proof fn keys_after_concat(keys: Set<KeyId>, first: Seq<StepView>, second: Seq<StepView>)
    ensures
        keys_after(keys, first + second) == keys_after(keys_after(keys, first), second),
    decreases second.len(),
{
    if second.len() == 0 {
    } else {
        keys_after_concat(keys, first, second.drop_last());
        assert((first + second).drop_last() =~= first + second.drop_last());
    }
}

/// A plan that creates no key adds none.
pub proof fn keys_only_shrink(keys: Set<KeyId>, plan: Seq<StepView>)
    requires
        creates_nothing(plan),
    ensures
        keys_after(keys, plan).subset_of(keys),
    decreases plan.len(),
{
    if plan.len() > 0 {
        every_step_unfold(plan, |step: StepView| creates_none(step));
        keys_only_shrink(keys, plan.drop_last());
    }
}

/// A plan that deletes nothing removes no key.
pub proof fn keys_only_grow(keys: Set<KeyId>, plan: Seq<StepView>)
    requires
        deletes_nothing(plan),
    ensures
        keys.subset_of(keys_after(keys, plan)),
    decreases plan.len(),
{
    if plan.len() > 0 {
        every_step_unfold(plan, |step: StepView| deletes_none(step));
        keys_only_grow(keys, plan.drop_last());
    }
}

/// A plan that begins by creating a key and deletes nothing afterwards
/// leaves that key in place.
pub proof fn created_first_and_kept(
    keys: Set<KeyId>,
    plan: Seq<StepView>,
    hive: Hive,
    path: Seq<char>,
)
    requires
        plan.len() > 0,
        plan[0].action == (ActionView::CreateKey { hive, path }),
        deletes_nothing(plan),
    ensures
        keys_after(keys, plan).contains(KeyId { hive, path }),
    decreases plan.len(),
{
    let init = plan.drop_last();
    every_step_unfold(plan, |step: StepView| deletes_none(step));
    if init.len() == 0 {
    } else {
        created_first_and_kept(keys, init, hive, path);
    }
}

/// A plan whose created keys have paths no longer than `root` puts no key
/// strictly below `root`.
pub proof fn short_creates_put_nothing_below(keys: Set<KeyId>, plan: Seq<StepView>, root: Seq<char>)
    requires
        nothing_below(keys, root),
        creates_within(plan, root.len()),
    ensures
        nothing_below(keys_after(keys, plan), root),
    decreases plan.len(),
{
    if plan.len() > 0 {
        every_step_unfold(plan, |step: StepView| creates_short(step, root.len()));
        short_creates_put_nothing_below(keys, plan.drop_last(), root);
        let mid = keys_after(keys, plan.drop_last());
        let end = keys_after_action(mid, plan.last().action);
        assert forall|k: KeyId| end.contains(k) implies !below(#[trigger] k.path, root) by {
            if !mid.contains(k) {
            }
        }
    }
}

} // verus!
