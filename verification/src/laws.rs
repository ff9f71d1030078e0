//! Laws of the task dependency engine.
//!
//! These lemmas state, over the functional model
//! [`DependencyTree::spec_run`], what the engine guarantees about progress
//! reporting, break short-circuiting, error aborts and the treatment of
//! post-dependency results. Since `execute` returns exactly what the model
//! describes, they hold of every execution.

use vstd::prelude::*;

use crate::installer::InstallerFrameworkView;
use crate::progress::lemma_rescale_in_range;
use crate::progress::lemma_rescale_monotone;
use crate::progress::spec_rescale;
use crate::progress::SCALE;
use crate::tasks::rescale_msgs;
use crate::tasks::spec_msg_rescaled;
use crate::tasks::DependencyTree;
use crate::tasks::ParamView;
use crate::tasks::RunOutcome;
use crate::tasks::StepOutcome;
use crate::tasks::Task;
use crate::tasks::TaskMessageView;
use crate::tasks::TaskOrdering;

verus! {

/// The progress fraction of a display message, in fixed-point units.
pub open spec fn frac_of(m: TaskMessageView) -> int {
    match m {
        TaskMessageView::Display { progress, .. } => progress.val(),
        TaskMessageView::PackageInstalled => 0,
    }
}

/// The display fractions in `s` never decrease.
pub open spec fn msgs_monotone(s: Seq<TaskMessageView>) -> bool {
    forall|i: int, j: int|
        0 <= i <= j < s.len() && s[i] is Display && s[j] is Display ==> frac_of(s[i]) <= frac_of(
            s[j],
        )
}

/// Every display fraction in `s` lies between zero and one.
pub open spec fn msgs_wf(s: Seq<TaskMessageView>) -> bool {
    forall|i: int| 0 <= i < s.len() && s[i] is Display ==> 0 <= frac_of(s[i]) <= SCALE
}

/// Every display fraction in `s` is at most `v`.
pub open spec fn msgs_le(s: Seq<TaskMessageView>, v: int) -> bool {
    forall|i: int| 0 <= i < s.len() && s[i] is Display ==> frac_of(s[i]) <= v
}

/// Every display fraction in `s` is at least `v`.
pub open spec fn msgs_ge(s: Seq<TaskMessageView>, v: int) -> bool {
    forall|i: int| 0 <= i < s.len() && s[i] is Display ==> frac_of(s[i]) >= v
}

/// A task whose reported fractions are always non-decreasing and within
/// bounds, whatever its inputs and context.
pub open spec fn task_well_behaved<T: Task>(t: T) -> bool {
    forall|input: Seq<ParamView>, c: InstallerFrameworkView|
        msgs_monotone((#[trigger] t.step(input, c)).messages) && msgs_wf(t.step(input, c).messages)
}

/// A tree all of whose tasks are well behaved.
pub open spec fn tree_well_behaved<T: Task>(tree: DependencyTree<T>) -> bool
    decreases tree,
{
    task_well_behaved(tree.task) && children_well_behaved(tree.dependencies@)
}

/// All trees in this child list are well behaved.
pub open spec fn children_well_behaved<T: Task>(
    children: Seq<(TaskOrdering, DependencyTree<T>)>,
) -> bool
    decreases children,
{
    if children.len() == 0 {
        true
    } else {
        proof {
            assert(decreases_to!(children => children[0]));
            assert(decreases_to!(children[0] => children[0].1));
        }
        tree_well_behaved(children[0].1) && children_well_behaved(children.drop_first())
    }
}

/// Each member of a well-behaved child list is well behaved.
pub proof fn lemma_children_wb_index<T: Task>(
    children: Seq<(TaskOrdering, DependencyTree<T>)>,
    i: int,
)
    requires
        children_well_behaved(children),
        0 <= i < children.len(),
    ensures
        tree_well_behaved(children[i].1),
    decreases i,
{
    if i > 0 {
        lemma_children_wb_index(children.drop_first(), i - 1);
        assert(children.drop_first()[i - 1] == children[i]);
    }
}

/// Concatenating a monotone run below `v` with a monotone run above `v`
/// stays monotone.
pub proof fn lemma_monotone_append(a: Seq<TaskMessageView>, b: Seq<TaskMessageView>, v: int)
    requires
        msgs_monotone(a),
        msgs_monotone(b),
        msgs_le(a, v),
        msgs_ge(b, v),
    ensures
        msgs_monotone(a + b),
{
    let s = a + b;
    assert forall|i: int, j: int|
        0 <= i <= j < s.len() && s[i] is Display && s[j] is Display implies frac_of(s[i])
        <= frac_of(s[j]) by {
        if j < a.len() {
            assert(s[i] == a[i] && s[j] == a[j]);
        } else if i >= a.len() {
            assert(s[i] == b[i - a.len()] && s[j] == b[j - a.len()]);
        } else {
            assert(s[i] == a[i] && s[j] == b[j - a.len()]);
        }
    }
}

/// Bounds on the display fractions survive concatenation.
pub proof fn lemma_bounds_append(a: Seq<TaskMessageView>, b: Seq<TaskMessageView>)
    ensures
        forall|v: int| msgs_le(a, v) && msgs_le(b, v) ==> msgs_le(a + b, v),
        forall|v: int| msgs_ge(a, v) && msgs_ge(b, v) ==> msgs_ge(a + b, v),
        msgs_wf(a) && msgs_wf(b) ==> msgs_wf(a + b),
{
    assert forall|v: int| msgs_le(a, v) && msgs_le(b, v) implies msgs_le(a + b, v) by {
        assert forall|i: int|
            0 <= i < (a + b).len() && (a + b)[i] is Display implies frac_of((a + b)[i]) <= v by {
            if i < a.len() {
                assert((a + b)[i] == a[i]);
            } else {
                assert((a + b)[i] == b[i - a.len()]);
            }
        }
    }
    assert forall|v: int| msgs_ge(a, v) && msgs_ge(b, v) implies msgs_ge(a + b, v) by {
        assert forall|i: int|
            0 <= i < (a + b).len() && (a + b)[i] is Display implies frac_of((a + b)[i]) >= v by {
            if i < a.len() {
                assert((a + b)[i] == a[i]);
            } else {
                assert((a + b)[i] == b[i - a.len()]);
            }
        }
    }
    if msgs_wf(a) && msgs_wf(b) {
        assert forall|i: int|
            0 <= i < (a + b).len() && (a + b)[i] is Display implies 0 <= frac_of((a + b)[i])
            <= SCALE by {
            if i < a.len() {
                assert((a + b)[i] == a[i]);
            } else {
                assert((a + b)[i] == b[i - a.len()]);
            }
        }
    }
}

/// A monotone, bounded run of messages rescaled into slot `c` of `total`
/// stays monotone and bounded, and lands between the slot's endpoints.
pub proof fn lemma_rescaled_block(s: Seq<TaskMessageView>, c: int, total: int)
    requires
        msgs_monotone(s),
        msgs_wf(s),
        0 <= c < total,
    ensures
        msgs_monotone(rescale_msgs(s, c, total)),
        msgs_wf(rescale_msgs(s, c, total)),
        msgs_ge(rescale_msgs(s, c, total), spec_rescale(0, c, total)),
        msgs_le(rescale_msgs(s, c, total), spec_rescale(SCALE as int, c, total)),
{
    let r = rescale_msgs(s, c, total);
    assert(r.len() == s.len());
    assert forall|i: int| 0 <= i < r.len() implies r[i] == spec_msg_rescaled(s[i], c, total) by {}
    assert forall|i: int|
        0 <= i < r.len() && r[i] is Display implies 0 <= frac_of(r[i]) <= SCALE && frac_of(r[i])
        >= spec_rescale(0, c, total) && frac_of(r[i]) <= spec_rescale(SCALE as int, c, total) by {
        assert(s[i] is Display);
        let u = frac_of(s[i]);
        crate::progress::Progress::lemma_wf_iff_val(s[i]->progress);
        crate::progress::Progress::lemma_rescaled_val(s[i]->progress, c, total);
        lemma_rescale_in_range(u, c, total);
        lemma_rescale_monotone(0, c, u, c, total);
        lemma_rescale_monotone(u, c, SCALE as int, c, total);
    }
    assert forall|i: int, j: int|
        0 <= i <= j < r.len() && r[i] is Display && r[j] is Display implies frac_of(r[i])
        <= frac_of(r[j]) by {
        assert(s[i] is Display && s[j] is Display);
        crate::progress::Progress::lemma_wf_iff_val(s[i]->progress);
        crate::progress::Progress::lemma_wf_iff_val(s[j]->progress);
        crate::progress::Progress::lemma_rescaled_val(s[i]->progress, c, total);
        crate::progress::Progress::lemma_rescaled_val(s[j]->progress, c, total);
        lemma_rescale_monotone(frac_of(s[i]), c, frac_of(s[j]), c, total);
    }
}

/// The left endpoint of a later slot never sits below that of an earlier
/// one, and a slot's right endpoint is the next slot's left endpoint.
pub proof fn lemma_slot_bounds(c: int, total: int)
    requires
        0 <= c < total,
    ensures
        spec_rescale(SCALE as int, c, total) == spec_rescale(0, c + 1, total),
        spec_rescale(0, c, total) <= spec_rescale(0, c + 1, total),
{
    assert(SCALE + c * SCALE == 0 + (c + 1) * SCALE) by (nonlinear_arith);
    lemma_rescale_monotone(0, c, 0, c + 1, total);
}

/// The pre-dependency phase of a well-behaved tree reports monotone,
/// bounded fractions, and while it has not failed they stay below the left
/// endpoint of the next slot.
pub proof fn lemma_pre_phase_monotone<T: Task>(
    children: Seq<(TaskOrdering, DependencyTree<T>)>,
    ctx: InstallerFrameworkView,
    total: int,
    i: int,
)
    requires
        children_well_behaved(children),
        total == children.len() + 1,
        0 <= i <= children.len(),
    ensures
        ({
            let st = DependencyTree::<T>::run_pre_upto(children, ctx, total, i);
            &&& msgs_monotone(st.messages)
            &&& msgs_wf(st.messages)
            &&& st.failure is None ==> msgs_le(st.messages, spec_rescale(0, st.count, total))
        }),
    decreases children, i,
{
    DependencyTree::<T>::lemma_pre_count_bound(children, ctx, total, i);
    DependencyTree::<T>::lemma_num_split(children, i);
    if i > 0 {
        lemma_pre_phase_monotone(children, ctx, total, i - 1);
        DependencyTree::<T>::lemma_pre_count_bound(children, ctx, total, i - 1);
        DependencyTree::<T>::lemma_num_split(children, i - 1);
        let prev = DependencyTree::<T>::run_pre_upto(children, ctx, total, i - 1);
        let st = DependencyTree::<T>::run_pre_upto(children, ctx, total, i);
        if !(prev.failure is Some || prev.broke || children[i - 1].0 is Post) {
            assert(decreases_to!(children => children[i - 1]));
            assert(decreases_to!(children[i - 1] => children[i - 1].1));
            lemma_children_wb_index(children, i - 1);
            lemma_run_monotone(children[i - 1].1, prev.context);
            let sub = children[i - 1].1.spec_run(prev.context);
            let c = prev.count;
            assert(0 <= c < total);
            lemma_rescaled_block(sub.messages, c, total);
            lemma_slot_bounds(c, total);
            lemma_monotone_append(
                prev.messages,
                rescale_msgs(sub.messages, c, total),
                spec_rescale(0, c, total),
            );
            lemma_bounds_append(prev.messages, rescale_msgs(sub.messages, c, total));
            if st.failure is None {
                assert(msgs_le(prev.messages, spec_rescale(0, c + 1, total)));
                assert(msgs_le(
                    rescale_msgs(sub.messages, c, total),
                    spec_rescale(0, c + 1, total),
                ));
            }
        }
    }
}

/// The post-dependency phase of a well-behaved tree reports monotone,
/// bounded fractions that start at or above slot `count0`.
pub proof fn lemma_post_phase_monotone<T: Task>(
    children: Seq<(TaskOrdering, DependencyTree<T>)>,
    ctx: InstallerFrameworkView,
    total: int,
    count0: int,
    i: int,
)
    requires
        children_well_behaved(children),
        total == children.len() + 1,
        0 <= i <= children.len(),
        0 <= count0,
        count0 + DependencyTree::<T>::num_with(children, TaskOrdering::Post, children.len() as int)
            <= total,
    ensures
        ({
            let st = DependencyTree::<T>::run_post_upto(children, ctx, total, count0, i);
            &&& msgs_monotone(st.messages)
            &&& msgs_wf(st.messages)
            &&& msgs_ge(st.messages, spec_rescale(0, count0, total))
            &&& st.failure is None ==> msgs_le(st.messages, spec_rescale(0, st.count, total))
        }),
    decreases children, i,
{
    DependencyTree::<T>::lemma_post_count_bound(children, ctx, total, count0, i);
    DependencyTree::<T>::lemma_num_split(children, i);
    if i > 0 {
        lemma_post_phase_monotone(children, ctx, total, count0, i - 1);
        DependencyTree::<T>::lemma_post_count_bound(children, ctx, total, count0, i - 1);
        DependencyTree::<T>::lemma_num_split(children, i - 1);
        DependencyTree::<T>::lemma_num_monotone(
            children,
            TaskOrdering::Post,
            i,
            children.len() as int,
        );
        let prev = DependencyTree::<T>::run_post_upto(children, ctx, total, count0, i - 1);
        let st = DependencyTree::<T>::run_post_upto(children, ctx, total, count0, i);
        if !(prev.failure is Some || prev.broke || children[i - 1].0 is Pre) {
            assert(decreases_to!(children => children[i - 1]));
            assert(decreases_to!(children[i - 1] => children[i - 1].1));
            lemma_children_wb_index(children, i - 1);
            lemma_run_monotone(children[i - 1].1, prev.context);
            let sub = children[i - 1].1.spec_run(prev.context);
            let c = prev.count;
            assert(0 <= c < total);
            lemma_rescaled_block(sub.messages, c, total);
            lemma_slot_bounds(c, total);
            lemma_rescale_monotone(0, count0, 0, c, total);
            lemma_monotone_append(
                prev.messages,
                rescale_msgs(sub.messages, c, total),
                spec_rescale(0, c, total),
            );
            lemma_bounds_append(prev.messages, rescale_msgs(sub.messages, c, total));
            assert(msgs_ge(rescale_msgs(sub.messages, c, total), spec_rescale(0, count0, total)));
            if st.failure is None {
                assert(msgs_le(prev.messages, spec_rescale(0, c + 1, total)));
            }
        }
    }
}

/// Progress monotonicity: when every task in the tree reports locally
/// non-decreasing fractions within zero and one, the whole run's sequence
/// of reported fractions is non-decreasing and stays within zero and one.
pub proof fn lemma_run_monotone<T: Task>(tree: DependencyTree<T>, ctx: InstallerFrameworkView)
    requires
        tree_well_behaved(tree),
    ensures
        msgs_monotone(tree.spec_run(ctx).messages),
        msgs_wf(tree.spec_run(ctx).messages),
    decreases tree, 1int,
{
    let children = tree.dependencies@;
    let n = children.len() as int;
    let total = n + 1;
    assert(decreases_to!(tree => tree.dependencies));
    assert(decreases_to!(tree.dependencies => children));
    lemma_pre_phase_monotone_outer(tree, ctx);
    let pre = DependencyTree::<T>::run_pre_upto(children, ctx, total, n);
    DependencyTree::<T>::lemma_pre_count_bound(children, ctx, total, n);
    DependencyTree::<T>::lemma_num_split(children, n);
    if pre.failure is None {
        let s = tree.task.step(pre.inputs, pre.context);
        let c = pre.count;
        assert(msgs_monotone(s.messages) && msgs_wf(s.messages));
        assert(0 <= c < total);
        lemma_rescaled_block(s.messages, c, total);
        lemma_slot_bounds(c, total);
        lemma_monotone_append(
            pre.messages,
            rescale_msgs(s.messages, c, total),
            spec_rescale(0, c, total),
        );
        lemma_bounds_append(pre.messages, rescale_msgs(s.messages, c, total));
        let msgs1 = pre.messages + rescale_msgs(s.messages, c, total);
        assert(msgs_le(msgs1, spec_rescale(0, c + 1, total)));
        match s.result {
            Result::Err(_) => {},
            Result::Ok(p) => {
                if !(p is Break) {
                    lemma_post_phase_monotone_outer(tree, s.context, c + 1);
                    let post = DependencyTree::<T>::run_post_upto(
                        children,
                        s.context,
                        total,
                        c + 1,
                        n,
                    );
                    lemma_monotone_append(msgs1, post.messages, spec_rescale(0, c + 1, total));
                    lemma_bounds_append(msgs1, post.messages);
                }
            },
        }
    }
}

/// Helper tying the pre-phase lemma to a tree, for the mutual recursion.
proof fn lemma_pre_phase_monotone_outer<T: Task>(
    tree: DependencyTree<T>,
    ctx: InstallerFrameworkView,
)
    requires
        tree_well_behaved(tree),
    ensures
        ({
            let children = tree.dependencies@;
            let total = children.len() as int + 1;
            let st = DependencyTree::<T>::run_pre_upto(
                children,
                ctx,
                total,
                children.len() as int,
            );
            &&& msgs_monotone(st.messages)
            &&& msgs_wf(st.messages)
            &&& st.failure is None ==> msgs_le(st.messages, spec_rescale(0, st.count, total))
        }),
    decreases tree, 0int,
{
    assert(decreases_to!(tree => tree.dependencies));
    assert(decreases_to!(tree.dependencies => tree.dependencies@));
    lemma_pre_phase_monotone(
        tree.dependencies@,
        ctx,
        tree.dependencies@.len() as int + 1,
        tree.dependencies@.len() as int,
    );
}

/// Helper tying the post-phase lemma to a tree, for the mutual recursion.
proof fn lemma_post_phase_monotone_outer<T: Task>(
    tree: DependencyTree<T>,
    ctx: InstallerFrameworkView,
    count0: int,
)
    requires
        tree_well_behaved(tree),
        0 <= count0,
        count0 + DependencyTree::<T>::num_with(
            tree.dependencies@,
            TaskOrdering::Post,
            tree.dependencies@.len() as int,
        ) <= tree.dependencies@.len() as int + 1,
    ensures
        ({
            let children = tree.dependencies@;
            let total = children.len() as int + 1;
            let st = DependencyTree::<T>::run_post_upto(
                children,
                ctx,
                total,
                count0,
                children.len() as int,
            );
            &&& msgs_monotone(st.messages)
            &&& msgs_wf(st.messages)
            &&& msgs_ge(st.messages, spec_rescale(0, count0, total))
            &&& st.failure is None ==> msgs_le(st.messages, spec_rescale(0, st.count, total))
        }),
    decreases tree, 0int,
{
    assert(decreases_to!(tree => tree.dependencies));
    assert(decreases_to!(tree.dependencies => tree.dependencies@));
    lemma_post_phase_monotone(
        tree.dependencies@,
        ctx,
        tree.dependencies@.len() as int + 1,
        count0,
        tree.dependencies@.len() as int,
    );
}


/// A run that reports exactly one message, a completion at local fraction
/// one, and succeeds with a value other than `Break`.
pub open spec fn single_completion_run(out: RunOutcome) -> bool {
    &&& out.messages.len() == 1
    &&& out.messages[0] is Display
    &&& frac_of(out.messages[0]) == SCALE
    &&& match out.result {
        Ok(p) => !(p is Break),
        Err(_) => false,
    }
}

/// A step that reports exactly one message, a completion at local fraction
/// one, and succeeds with a value other than `Break`.
pub open spec fn single_completion_step(s: StepOutcome) -> bool {
    &&& s.messages.len() == 1
    &&& s.messages[0] is Display
    &&& frac_of(s.messages[0]) == SCALE
    &&& match s.result {
        Ok(p) => !(p is Break),
        Err(_) => false,
    }
}

/// The pre-dependency phase over children that each complete with a single
/// full-progress report: the phase never stops, counts one slot per pre
/// child, and reports the exact ladder of slot completions.
pub proof fn lemma_pre_phase_ladder<T: Task>(
    children: Seq<(TaskOrdering, DependencyTree<T>)>,
    ctx: InstallerFrameworkView,
    total: int,
    i: int,
)
    requires
        forall|k: int, c: InstallerFrameworkView|
            0 <= k < children.len() ==> single_completion_run(
                (#[trigger] children[k].1.spec_run(c)),
            ),
        total == children.len() + 1,
        0 <= i <= children.len(),
    ensures
        ({
            let st = DependencyTree::<T>::run_pre_upto(children, ctx, total, i);
            &&& st.failure is None
            &&& !st.broke
            &&& st.count == DependencyTree::<T>::num_with(children, TaskOrdering::Pre, i)
            &&& st.inputs.len() == st.count
            &&& st.messages.len() == st.count
            &&& forall|k: int|
                #![trigger st.messages[k]]
                0 <= k < st.messages.len() ==> st.messages[k] is Display && frac_of(
                    st.messages[k],
                ) == spec_rescale(SCALE as int, k, total)
        }),
    decreases i,
{
    DependencyTree::<T>::lemma_num_split(children, i);
    if i > 0 {
        lemma_pre_phase_ladder(children, ctx, total, i - 1);
        DependencyTree::<T>::lemma_num_split(children, i - 1);
        let prev = DependencyTree::<T>::run_pre_upto(children, ctx, total, i - 1);
        let st = DependencyTree::<T>::run_pre_upto(children, ctx, total, i);
        if children[i - 1].0 is Pre {
            let sub = children[i - 1].1.spec_run(prev.context);
            let c = prev.count;
            assert(single_completion_run(sub));
            let block = rescale_msgs(sub.messages, c, total);
            assert(block.len() == 1);
            assert(block[0] == spec_msg_rescaled(sub.messages[0], c, total));
            crate::progress::Progress::lemma_wf_iff_val(sub.messages[0]->progress);
            crate::progress::Progress::lemma_rescaled_val(sub.messages[0]->progress, c, total);
            assert(st.messages =~= prev.messages + block);
            assert forall|k: int|
                0 <= k < st.messages.len() implies st.messages[k] is Display && frac_of(
                    st.messages[k],
                ) == spec_rescale(SCALE as int, k, total) by {
                if k < prev.messages.len() {
                    assert(st.messages[k] == prev.messages[k]);
                    assert(prev.messages[k] is Display);
                    assert(frac_of(prev.messages[k]) == spec_rescale(SCALE as int, k, total));
                } else {
                    assert(k == c);
                    assert(st.messages[k] == block[0]);
                    assert(block[0] is Display);
                    assert(frac_of(block[0]) == spec_rescale(SCALE as int, c, total));
                }
            }
        }
    }
}

/// The post-dependency phase over children that each complete with a single
/// full-progress report: the phase never stops, counts one slot per post
/// child, and continues the exact ladder of slot completions.
pub proof fn lemma_post_phase_ladder<T: Task>(
    children: Seq<(TaskOrdering, DependencyTree<T>)>,
    ctx: InstallerFrameworkView,
    total: int,
    count0: int,
    i: int,
)
    requires
        forall|k: int, c: InstallerFrameworkView|
            0 <= k < children.len() ==> single_completion_run(
                (#[trigger] children[k].1.spec_run(c)),
            ),
        total == children.len() + 1,
        0 <= i <= children.len(),
        0 <= count0,
        count0 + DependencyTree::<T>::num_with(children, TaskOrdering::Post, children.len() as int)
            <= total,
    ensures
        ({
            let st = DependencyTree::<T>::run_post_upto(children, ctx, total, count0, i);
            &&& st.failure is None
            &&& !st.broke
            &&& st.count == count0 + DependencyTree::<T>::num_with(
                children,
                TaskOrdering::Post,
                i,
            )
            &&& st.messages.len() == DependencyTree::<T>::num_with(children, TaskOrdering::Post, i)
            &&& forall|k: int|
                #![trigger st.messages[k]]
                0 <= k < st.messages.len() ==> st.messages[k] is Display && frac_of(
                    st.messages[k],
                ) == spec_rescale(SCALE as int, count0 + k, total)
        }),
    decreases i,
{
    DependencyTree::<T>::lemma_num_split(children, i);
    if i > 0 {
        lemma_post_phase_ladder(children, ctx, total, count0, i - 1);
        DependencyTree::<T>::lemma_num_split(children, i - 1);
        DependencyTree::<T>::lemma_num_monotone(children, TaskOrdering::Post, i, children.len() as int);
        let prev = DependencyTree::<T>::run_post_upto(children, ctx, total, count0, i - 1);
        let st = DependencyTree::<T>::run_post_upto(children, ctx, total, count0, i);
        if children[i - 1].0 is Post {
            let sub = children[i - 1].1.spec_run(prev.context);
            let c = prev.count;
            assert(single_completion_run(sub));
            let block = rescale_msgs(sub.messages, c, total);
            assert(block.len() == 1);
            assert(block[0] == spec_msg_rescaled(sub.messages[0], c, total));
            crate::progress::Progress::lemma_wf_iff_val(sub.messages[0]->progress);
            crate::progress::Progress::lemma_rescaled_val(sub.messages[0]->progress, c, total);
            assert(st.messages =~= prev.messages + block);
            assert forall|k: int|
                0 <= k < st.messages.len() implies st.messages[k] is Display && frac_of(
                    st.messages[k],
                ) == spec_rescale(SCALE as int, count0 + k, total) by {
                if k < prev.messages.len() {
                    assert(st.messages[k] == prev.messages[k]);
                } else {
                    assert(count0 + k == c);
                    assert(st.messages[k] == block[0]);
                }
            }
        }
    }
}

/// The equal-weighting law: when each of the `N` dependencies and the
/// owning task itself reports exactly one completion message at local
/// fraction one, the root receives exactly `N + 1` messages whose fractions
/// are the ladder `1/(N+1), 2/(N+1), ..., (N+1)/(N+1)`, the last being
/// exactly one: every dependency counts as one equal unit of the whole, and
/// the task's own work as the remaining unit.
pub proof fn lemma_equal_weighting<T: Task>(tree: DependencyTree<T>, ctx: InstallerFrameworkView)
    requires
        forall|k: int, c: InstallerFrameworkView|
            0 <= k < tree.dependencies@.len() ==> single_completion_run(
                (#[trigger] tree.dependencies@[k].1.spec_run(c)),
            ),
        forall|input: Seq<ParamView>, c: InstallerFrameworkView|
            single_completion_step(#[trigger] tree.task.step(input, c)),
    ensures
        ({
            let out = tree.spec_run(ctx);
            let n = tree.dependencies@.len() as int;
            &&& out.result is Ok
            &&& out.messages.len() == n + 1
            &&& forall|k: int|
                #![trigger out.messages[k]]
                0 <= k <= n ==> out.messages[k] is Display && frac_of(out.messages[k]) == ((k + 1)
                    * (SCALE as int)) / (n + 1)
        }),
{
    let children = tree.dependencies@;
    let n = children.len() as int;
    let total = n + 1;
    lemma_pre_phase_ladder(children, ctx, total, n);
    DependencyTree::<T>::lemma_num_split(children, n);
    let pre = DependencyTree::<T>::run_pre_upto(children, ctx, total, n);
    let np = pre.count;
    let s = tree.task.step(pre.inputs, pre.context);
    assert(single_completion_step(s));
    let block = rescale_msgs(s.messages, np, total);
    assert(block.len() == 1);
    assert(block[0] == spec_msg_rescaled(s.messages[0], np, total));
    crate::progress::Progress::lemma_wf_iff_val(s.messages[0]->progress);
    crate::progress::Progress::lemma_rescaled_val(s.messages[0]->progress, np, total);
    let msgs1 = pre.messages + block;
    lemma_post_phase_ladder(children, s.context, total, np + 1, n);
    let post = DependencyTree::<T>::run_post_upto(children, s.context, total, np + 1, n);
    let out = tree.spec_run(ctx);
    assert(out.messages =~= msgs1 + post.messages);
    assert(out.messages.len() == np + 1 + DependencyTree::<T>::num_with(
        children,
        TaskOrdering::Post,
        n,
    ) == n + 1);
    assert forall|k: int|
        0 <= k <= n implies out.messages[k] is Display && frac_of(out.messages[k]) == ((k + 1)
            * (SCALE as int)) / (n + 1) by {
        if k < np {
            assert(out.messages[k] == pre.messages[k]);
            assert(frac_of(out.messages[k]) == spec_rescale(SCALE as int, k, total));
        } else if k == np {
            assert(out.messages[k] == block[0]);
            assert(frac_of(out.messages[k]) == spec_rescale(SCALE as int, k, total));
        } else {
            assert(out.messages[k] == post.messages[k - np - 1]);
            assert(frac_of(out.messages[k]) == spec_rescale(
                SCALE as int,
                np + 1 + (k - np - 1),
                total,
            ));
            assert(frac_of(out.messages[k]) == spec_rescale(SCALE as int, k, total));
        }
        assert(SCALE + k * SCALE == (k + 1) * SCALE) by (nonlinear_arith);
        assert(spec_rescale(SCALE as int, k, total) == ((k + 1) * (SCALE as int)) / (n + 1));
    }
}

/// The pre-dependency phase runs every child up to position `j` when they
/// are all pre-dependencies that succeed without breaking: one input and
/// one slot per child, and no stop.
pub proof fn lemma_pre_runs_all<T: Task>(
    children: Seq<(TaskOrdering, DependencyTree<T>)>,
    ctx: InstallerFrameworkView,
    total: int,
    j: int,
)
    requires
        0 <= j <= children.len(),
        forall|i: int| 0 <= i < j ==> (#[trigger] children[i]).0 is Pre,
        forall|i: int, c: InstallerFrameworkView|
            0 <= i < j ==> ((#[trigger] children[i].1.spec_run(c)).result matches Ok(p) && !(p
                is Break)),
    ensures
        ({
            let st = DependencyTree::<T>::run_pre_upto(children, ctx, total, j);
            &&& st.failure is None
            &&& !st.broke
            &&& st.count == j
            &&& st.inputs.len() == j
        }),
    decreases j,
{
    if j > 0 {
        lemma_pre_runs_all(children, ctx, total, j - 1);
        let prev = DependencyTree::<T>::run_pre_upto(children, ctx, total, j - 1);
        assert(children[j - 1].0 is Pre);
        let sub = children[j - 1].1.spec_run(prev.context);
        assert(sub.result matches Ok(p) && !(p is Break));
    }
}

/// The break short-circuit law: when the pre-dependencies up to position
/// `k` all run and the one at `k` returns `Break`, the phase stops there:
/// dependencies after position `k` are never considered, the owning task's
/// input list has exactly `k + 1` entries, the last of which is the `Break`
/// sentinel, and the owning task is still invoked on those inputs.
pub proof fn lemma_break_short_circuit<T: Task>(
    tree: DependencyTree<T>,
    ctx: InstallerFrameworkView,
    k: int,
)
    requires
        0 <= k < tree.dependencies@.len(),
        forall|j: int| 0 <= j <= k ==> (#[trigger] tree.dependencies@[j]).0 is Pre,
        forall|c: InstallerFrameworkView|
            (#[trigger] tree.dependencies@[k].1.spec_run(c)).result == Ok::<
                ParamView,
                Seq<char>,
            >(ParamView::Break),
        forall|j: int, c: InstallerFrameworkView|
            0 <= j < k ==> ((#[trigger] tree.dependencies@[j].1.spec_run(c)).result matches Ok(p)
                && !(p is Break)),
    ensures
        ({
            let children = tree.dependencies@;
            let n = children.len() as int;
            let total = n + 1;
            let pre = DependencyTree::<T>::run_pre_upto(children, ctx, total, n);
            &&& pre == DependencyTree::<T>::run_pre_upto(children, ctx, total, k + 1)
            &&& pre.failure is None
            &&& pre.broke
            &&& pre.count == k + 1
            &&& pre.inputs.len() == k + 1
            &&& pre.inputs[k] == ParamView::Break
            &&& tree.spec_run(ctx).messages.len() >= pre.messages.len() + tree.task.step(
                pre.inputs,
                pre.context,
            ).messages.len()
        }),
{
    let children = tree.dependencies@;
    let n = children.len() as int;
    let total = n + 1;
    lemma_pre_runs_all(children, ctx, total, k);
    let prek = DependencyTree::<T>::run_pre_upto(children, ctx, total, k);
    assert(children[k].0 is Pre);
    let subk = children[k].1.spec_run(prek.context);
    assert(subk.result == Ok::<ParamView, Seq<char>>(ParamView::Break));
    let st = DependencyTree::<T>::run_pre_upto(children, ctx, total, k + 1);
    assert(st.broke);
    DependencyTree::<T>::lemma_pre_absorbs(children, ctx, total, k + 1, n);
    let pre = DependencyTree::<T>::run_pre_upto(children, ctx, total, n);
    let s = tree.task.step(pre.inputs, pre.context);
    let out = tree.spec_run(ctx);
    match s.result {
        Result::Err(_) => {},
        Result::Ok(p) => {
            if p is Break {
            } else {
                let post = DependencyTree::<T>::run_post_upto(
                    children,
                    s.context,
                    total,
                    pre.count + 1,
                    n,
                );
                assert(out.messages == (pre.messages + rescale_msgs(s.messages, pre.count, total))
                    + post.messages);
            }
        },
    }
}

/// The error-abort law: when the pre-dependencies before position `k` all
/// run cleanly and the one at `k` fails, the whole run fails right there
/// with that error: dependencies after `k`, the owning task and every
/// post-dependency never execute, and the run's outcome is exactly the
/// state after the failing child.
pub proof fn lemma_error_abort<T: Task>(
    tree: DependencyTree<T>,
    ctx: InstallerFrameworkView,
    k: int,
)
    requires
        0 <= k < tree.dependencies@.len(),
        forall|j: int| 0 <= j <= k ==> (#[trigger] tree.dependencies@[j]).0 is Pre,
        forall|c: InstallerFrameworkView|
            (#[trigger] tree.dependencies@[k].1.spec_run(c)).result is Err,
        forall|j: int, c: InstallerFrameworkView|
            0 <= j < k ==> ((#[trigger] tree.dependencies@[j].1.spec_run(c)).result matches Ok(p)
                && !(p is Break)),
    ensures
        ({
            let children = tree.dependencies@;
            let n = children.len() as int;
            let total = n + 1;
            let prek = DependencyTree::<T>::run_pre_upto(children, ctx, total, k);
            let sub = children[k].1.spec_run(prek.context);
            &&& tree.spec_run(ctx) == (RunOutcome {
                context: sub.context,
                result: sub.result,
                messages: prek.messages + rescale_msgs(sub.messages, k, total),
            })
        }),
{
    let children = tree.dependencies@;
    let n = children.len() as int;
    let total = n + 1;
    lemma_pre_runs_all(children, ctx, total, k);
    let prek = DependencyTree::<T>::run_pre_upto(children, ctx, total, k);
    assert(children[k].0 is Pre);
    let subk = children[k].1.spec_run(prek.context);
    assert(subk.result is Err);
    let st = DependencyTree::<T>::run_pre_upto(children, ctx, total, k + 1);
    assert(st.failure is Some);
    DependencyTree::<T>::lemma_pre_absorbs(children, ctx, total, k + 1, n);
    assert(tree.spec_run(ctx) =~~= (RunOutcome {
        context: st.context,
        result: children[k].1.spec_run(prek.context).result,
        messages: st.messages,
    }));
}

/// The pre-dependency phase never looks at post-dependency subtrees: two
/// child lists with the same orderings and the same pre-dependency subtrees
/// run the pre phase identically, whatever the post subtrees hold. In
/// particular no post-dependency's returned value can reach an input list.
pub proof fn lemma_pre_phase_ignores_post<T: Task>(
    children1: Seq<(TaskOrdering, DependencyTree<T>)>,
    children2: Seq<(TaskOrdering, DependencyTree<T>)>,
    ctx: InstallerFrameworkView,
    total: int,
    i: int,
)
    requires
        children1.len() == children2.len(),
        forall|j: int| 0 <= j < children1.len() ==> (#[trigger] children1[j]).0 == children2[j].0,
        forall|j: int|
            0 <= j < children1.len() && (#[trigger] children1[j]).0 is Pre ==> children1[j].1
                == children2[j].1,
        0 <= i,
    ensures
        DependencyTree::<T>::run_pre_upto(children1, ctx, total, i) == DependencyTree::<
            T,
        >::run_pre_upto(children2, ctx, total, i),
    decreases i,
{
    if i > 0 {
        lemma_pre_phase_ignores_post(children1, children2, ctx, total, i - 1);
    }
}

/// The post-dependency discard law: whenever a run succeeds, its value is
/// exactly what the owning task's own step returned on the inputs collected
/// from the pre phase; post-dependency results are discarded and never
/// become anyone's result or input.
pub proof fn lemma_post_results_discarded<T: Task>(
    tree: DependencyTree<T>,
    ctx: InstallerFrameworkView,
)
    ensures
        ({
            let children = tree.dependencies@;
            let n = children.len() as int;
            let total = n + 1;
            let pre = DependencyTree::<T>::run_pre_upto(children, ctx, total, n);
            let s = tree.task.step(pre.inputs, pre.context);
            tree.spec_run(ctx).result is Ok ==> tree.spec_run(ctx).result == s.result
        }),
{
}

} // verus!
