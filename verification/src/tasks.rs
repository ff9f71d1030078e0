//! The task dependency engine.
//!
//! A [`Task`] is a named unit of work that declares pre- and
//! post-dependencies. A [`DependencyTree`] is built from a root task by
//! recursively expanding those declarations, and executed depth first:
//! pre-dependencies run first and feed their results to the owning task,
//! then the task itself, then the post-dependencies, whose results are
//! discarded. Progress reports are rescaled at every level so the root
//! observer sees one fraction of the whole operation, every dependency
//! weighted as one equal unit of work.
//!
//! The whole execution is pinned down by the functional model
//! [`DependencyTree::spec_run`]: `execute` returns exactly the result,
//! context and message sequence the model describes.

use vstd::prelude::*;

use crate::installer::InstallerFramework;
use crate::installer::InstallerFrameworkView;
use crate::progress::Progress;
use crate::sources::File;
use crate::sources::FileView;
use crate::sources::Version;
use crate::strutil::views_of;

verus! {

/// Specifies the relative ordering of a dependency with its parent.
#[derive(Debug, PartialEq, Eq, Structural, Clone, Copy)]
pub enum TaskOrdering {
    /// This dependency runs before the owning task, feeding it its result.
    Pre,
    /// This dependency runs after the owning task; its result is discarded.
    Post,
}

/// The mathematical content of a value passed between tasks.
#[verifier::ext_equal]
pub enum ParamView {
    Empty,
    File(Version, FileView),
    Authentication(Version, FileView, Option<Seq<char>>),
    FileContents(Version, FileView, Seq<u8>),
    GeneratedShortcuts(Seq<Seq<char>>),
    Break,
}

/// An abstraction over the various parameters that can be passed around.
#[derive(Debug)]
pub enum TaskParamType {
    /// No payload.
    Empty,
    /// Metadata about a resolved remote file.
    File(Version, File),
    /// Resolved file metadata plus an optional bearer credential.
    Authentication(Version, File, Option<String>),
    /// Fully downloaded contents of a file.
    FileContents(Version, File, Vec<u8>),
    /// List of shortcuts that have been generated.
    GeneratedShortcuts(Vec<String>),
    /// Tells the runtime to stop evaluating the remaining sibling
    /// dependencies.
    Break,
}

impl View for TaskParamType {
    type V = ParamView;

    open spec fn view(&self) -> ParamView {
        match self {
            TaskParamType::Empty => ParamView::Empty,
            TaskParamType::File(v, f) => ParamView::File(*v, f@),
            TaskParamType::Authentication(v, f, t) => ParamView::Authentication(
                *v,
                f@,
                match t {
                    Some(s) => Some(s@),
                    None => None,
                },
            ),
            TaskParamType::FileContents(v, f, d) => ParamView::FileContents(*v, f@, d@),
            TaskParamType::GeneratedShortcuts(s) => ParamView::GeneratedShortcuts(views_of(s@)),
            TaskParamType::Break => ParamView::Break,
        }
    }
}

impl TaskParamType {
    /// Whether this value is the break sentinel.
    pub fn is_break(&self) -> (r: bool)
        ensures
            r == (self@ is Break),
    {
        match self {
            TaskParamType::Break => true,
            _ => false,
        }
    }

    /// A copy of this value with the same content.
    pub fn duplicate(&self) -> (r: Self)
        ensures
            r@ == self@,
    {
        let r = match self {
            TaskParamType::Empty => TaskParamType::Empty,
            TaskParamType::File(v, f) => TaskParamType::File(*v, f.duplicate()),
            TaskParamType::Authentication(v, f, t) => TaskParamType::Authentication(
                *v,
                f.duplicate(),
                match t {
                    Some(s) => Some(s.clone()),
                    None => None,
                },
            ),
            TaskParamType::FileContents(v, f, d) => TaskParamType::FileContents(
                *v,
                f.duplicate(),
                crate::strutil::clone_bytes(d),
            ),
            TaskParamType::GeneratedShortcuts(s) => TaskParamType::GeneratedShortcuts(
                crate::strutil::clone_strings(s),
            ),
            TaskParamType::Break => TaskParamType::Break,
        };
        proof {
            assert(r@ =~~= self@);
        }
        r
    }
}

/// Whether an execution result, updated context and log delta are exactly
/// what a step outcome describes.
pub open spec fn step_matches(
    s: StepOutcome,
    r: Result<TaskParamType, String>,
    context: InstallerFrameworkView,
    log_old: Seq<TaskMessageView>,
    log_new: Seq<TaskMessageView>,
) -> bool {
    &&& result_view(r) == s.result
    &&& context == s.context
    &&& log_new == log_old + s.messages
}

/// The view of an execution result.
pub open spec fn result_view(r: Result<TaskParamType, String>) -> Result<ParamView, Seq<char>> {
    match r {
        Ok(p) => Ok(p@),
        Err(e) => Err(e@),
    }
}

/// The mathematical content of a message from a task.
#[verifier::ext_equal]
pub enum TaskMessageView {
    Display { text: Seq<char>, progress: Progress },
    PackageInstalled,
}

/// A message from a task.
#[derive(Debug)]
pub enum TaskMessage {
    /// Human-readable status and the fraction of the work done so far.
    DisplayMessage(String, Progress),
    /// A package finished installing.
    PackageInstalled,
}

impl View for TaskMessage {
    type V = TaskMessageView;

    open spec fn view(&self) -> TaskMessageView {
        match self {
            TaskMessage::DisplayMessage(text, progress) => TaskMessageView::Display {
                text: text@,
                progress: *progress,
            },
            TaskMessage::PackageInstalled => TaskMessageView::PackageInstalled,
        }
    }
}

impl TaskMessage {
    /// A copy of this message with the same content.
    pub fn duplicate(&self) -> (r: Self)
        ensures
            r@ == self@,
    {
        match self {
            TaskMessage::DisplayMessage(text, progress) => TaskMessage::DisplayMessage(
                text.clone(),
                *progress,
            ),
            TaskMessage::PackageInstalled => TaskMessage::PackageInstalled,
        }
    }
}

/// A display message rescaled into slot `count` of `total` slots; other
/// messages pass through unscaled.
pub open spec fn spec_msg_rescaled(m: TaskMessageView, count: int, total: int) -> TaskMessageView {
    match m {
        TaskMessageView::Display { text, progress } => TaskMessageView::Display {
            text,
            progress: progress.spec_rescaled(count, total),
        },
        TaskMessageView::PackageInstalled => m,
    }
}

/// A message sequence rescaled into slot `count` of `total` slots.
pub open spec fn rescale_msgs(s: Seq<TaskMessageView>, count: int, total: int) -> Seq<
    TaskMessageView,
> {
    s.map_values(|m: TaskMessageView| spec_msg_rescaled(m, count, total))
}

/// The ordered log of messages an execution has reported so far.
#[derive(Debug)]
pub struct MessageLog {
    pub entries: Vec<TaskMessage>,
}

impl View for MessageLog {
    type V = Seq<TaskMessageView>;

    open spec fn view(&self) -> Seq<TaskMessageView> {
        views_of(self.entries@)
    }
}

impl MessageLog {
    /// An empty log.
    pub fn new() -> (r: Self)
        ensures
            r@ == Seq::<TaskMessageView>::empty(),
    {
        let r = MessageLog { entries: Vec::new() };
        proof {
            assert(r@ =~= Seq::<TaskMessageView>::empty());
        }
        r
    }

    /// How many messages have been reported.
    pub fn len(&self) -> (r: usize)
        ensures
            r == self@.len(),
    {
        self.entries.len()
    }

    /// The `i`-th message reported.
    pub fn get(&self, i: usize) -> (r: &TaskMessage)
        requires
            i < self@.len(),
        ensures
            r@ == self@[i as int],
    {
        &self.entries[i]
    }

    /// Reports a human-readable status line with a progress fraction.
    pub fn display(&mut self, text: String, progress: Progress)
        ensures
            final(self)@ == old(self)@.push(
                TaskMessageView::Display { text: text@, progress },
            ),
    {
        self.push(TaskMessage::DisplayMessage(text, progress));
    }

    /// Reports one more message.
    pub fn push(&mut self, m: TaskMessage)
        ensures
            final(self)@ == old(self)@.push(m@),
    {
        self.entries.push(m);
        proof {
            assert(self@ =~= old(self)@.push(self.entries@.last()@));
        }
    }

    /// Rescales every message from position `mark` on into slot `count` of
    /// `len + 1` slots, leaving the prefix untouched.
    pub fn rescale_tail(&mut self, mark: usize, count: u128, len: usize)
        requires
            mark <= old(self)@.len(),
            count <= len as int,
        ensures
            final(self)@ == old(self)@.take(mark as int) + rescale_msgs(
                old(self)@.skip(mark as int),
                count as int,
                len as int + 1,
            ),
    {
        let mut i: usize = mark;
        while i < self.entries.len()
            invariant
                mark <= i <= self.entries@.len(),
                count <= len as int,
                self.entries@.len() == old(self)@.len(),
                self@.take(mark as int) == old(self)@.take(mark as int),
                self@.subrange(mark as int, i as int) == rescale_msgs(
                    old(self)@.subrange(mark as int, i as int),
                    count as int,
                    len as int + 1,
                ),
                self@.skip(i as int) == old(self)@.skip(i as int),
            decreases self.entries@.len() - i,
        {
            let ghost before = self@;
            proof {
                assert(before[i as int] == old(self)@[i as int]) by {
                    assert(before.skip(i as int)[0] == old(self)@.skip(i as int)[0]);
                }
            }
            let m = self.entries.remove(i);
            let m2 = match m {
                TaskMessage::DisplayMessage(text, progress) => TaskMessage::DisplayMessage(
                    text,
                    progress.rescale(count, len),
                ),
                TaskMessage::PackageInstalled => TaskMessage::PackageInstalled,
            };
            proof {
                assert(m2@ == spec_msg_rescaled(before[i as int], count as int, len as int + 1));
            }
            self.entries.insert(i, m2);
            proof {
                assert(self@ =~= before.update(i as int, m2@));
                assert(self@.take(mark as int) =~= before.take(mark as int));
                assert(self@.subrange(mark as int, i as int + 1) =~= before.subrange(
                    mark as int,
                    i as int,
                ).push(m2@));
                assert(old(self)@.subrange(mark as int, i as int + 1) =~= old(self)@.subrange(
                    mark as int,
                    i as int,
                ).push(old(self)@[i as int]));
                assert(rescale_msgs(
                    old(self)@.subrange(mark as int, i as int + 1),
                    count as int,
                    len as int + 1,
                ) =~= rescale_msgs(
                    old(self)@.subrange(mark as int, i as int),
                    count as int,
                    len as int + 1,
                ).push(spec_msg_rescaled(old(self)@[i as int], count as int, len as int + 1)));
                assert(self@.skip(i as int + 1) =~= before.skip(i as int + 1));
                assert(before.skip(i as int + 1) =~= before.skip(i as int).skip(1));
                assert(old(self)@.skip(i as int + 1) =~= old(self)@.skip(i as int).skip(1));
            }
            i = i + 1;
        }
        proof {
            assert(self@ =~= self@.take(mark as int) + self@.subrange(
                mark as int,
                self@.len() as int,
            ));
            assert(old(self)@.subrange(mark as int, old(self)@.len() as int) =~= old(
                self,
            )@.skip(mark as int));
        }
    }
}

/// A dependency of a task: the dependent task and when it runs relative to
/// its parent.
#[derive(Debug)]
pub struct TaskDependency<T> {
    pub ordering: TaskOrdering,
    pub task: T,
}

impl<T: Task> TaskDependency<T> {
    /// Builds a new dependency from the specified task.
    pub fn build(ordering: TaskOrdering, task: T) -> (r: TaskDependency<T>)
        ensures
            r.ordering == ordering,
            r.task == task,
    {
        TaskDependency { ordering, task }
    }
}

/// What one task step yields: the new shared state, the task's result, and
/// the messages it reported, in order, with their local progress fractions.
#[verifier::ext_equal]
pub struct StepOutcome {
    pub context: InstallerFrameworkView,
    pub result: Result<ParamView, Seq<char>>,
    pub messages: Seq<TaskMessageView>,
}

/// A task is a small unit of work conforming to a fixed set of inputs and
/// outputs. Its whole behaviour is the spec function `step`: `execute` must
/// return its result, leave the shared context at its context, and append
/// exactly its messages to the log.
pub trait Task: Sized {
    /// A bound on the depth of the declared dependencies; every
    /// declared dependency has a strictly smaller rank, so dependency
    /// expansion cannot recurse forever.
    spec fn rank(&self) -> nat;

    /// The displayed name.
    spec fn spec_name(&self) -> Seq<char>;

    /// What one execution changes and reports, as a function of the inputs
    /// and the shared context.
    spec fn step(&self, input: Seq<ParamView>, context: InstallerFrameworkView) -> StepOutcome;

    /// The dependencies the owner declares, in order: what `dependencies`
    /// hands back.
    spec fn spec_dependencies(&self) -> Seq<TaskDependency<Self>>;

    /// Returns a short name used for formatting the dependency tree.
    fn name(&self) -> (r: String)
        ensures
            r@ == self.spec_name(),
    ;

    /// Returns all dependencies that need to be executed around the owner.
    fn dependencies(&self) -> (r: Vec<TaskDependency<Self>>)
        ensures
            r@ == self.spec_dependencies(),
            forall|i: int|
                0 <= i < r@.len() ==> (#[trigger] r@[i]).task.rank() < self.rank(),
    ;

    /// Executes this individual task. Each pre-dependency's result has an
    /// index in the inputted vector, in declaration order.
    fn execute(
        &self,
        input: Vec<TaskParamType>,
        context: &mut InstallerFramework,
        log: &mut MessageLog,
    ) -> (r: Result<TaskParamType, String>)
        ensures
            ({
                let s = self.step(views_of(input@), old(context)@);
                &&& result_view(r) == s.result
                &&& final(context)@ == s.context
                &&& final(log)@ == old(log)@ + s.messages
            }),
    ;
}


/// The shape of a dependency tree: the task names and dependency orderings,
/// with all other task content forgotten.
#[verifier::ext_equal]
pub struct TreeShape {
    pub name: Seq<char>,
    pub children: Seq<(TaskOrdering, TreeShape)>,
}

/// What rendering the children of a node yields, given the indentation
/// prefix of that node.
pub open spec fn spec_render_children(children: Seq<(TaskOrdering, TreeShape)>, prefix: Seq<char>)
    -> Seq<char>
    decreases children,
{
    if children.len() == 0 {
        Seq::empty()
    } else {
        proof {
            assert(decreases_to!(children => children[0]));
            assert(decreases_to!(children[0] => children[0].1));
        }
        let last = children.len() == 1;
        let connector = if last {
            "`-- "@
        } else {
            "|-- "@
        };
        let extension = if last {
            "    "@
        } else {
            "|   "@
        };
        let ordering = if children[0].0 is Pre {
            "Pre "@
        } else {
            "Post "@
        };
        prefix + connector + ordering + spec_render(children[0].1, prefix + extension)
            + spec_render_children(children.drop_first(), prefix)
    }
}

/// What rendering a tree shape yields: the node's name on one line, then
/// each child indented under it, joined by box-drawing connectors. The
/// rendering is a function of the shape alone, so two trees with the same
/// task names and dependency orderings render identically.
pub open spec fn spec_render(shape: TreeShape, prefix: Seq<char>) -> Seq<char>
    decreases shape,
{
    shape.name + "\n"@ + spec_render_children(shape.children, prefix)
}

/// Tree rendering determinism: rendering depends on nothing but the tree's
/// shape, so the same shape always renders to the same string.
pub proof fn lemma_render_deterministic(s1: TreeShape, s2: TreeShape, prefix: Seq<char>)
    requires
        s1 == s2,
    ensures
        spec_render(s1, prefix) == spec_render(s2, prefix),
{
}

/// The dependency tree allows for ordered execution of a task and the tasks
/// it depends on.
#[derive(Debug)]
pub struct DependencyTree<T> {
    pub task: T,
    pub dependencies: Vec<(TaskOrdering, DependencyTree<T>)>,
}

/// What a whole tree execution yields.
#[verifier::ext_equal]
pub struct RunOutcome {
    pub context: InstallerFrameworkView,
    pub result: Result<ParamView, Seq<char>>,
    pub messages: Seq<TaskMessageView>,
}

/// The state of the pre-dependency phase after some prefix of the children
/// has been considered.
#[verifier::ext_equal]
pub struct PreState {
    pub context: InstallerFrameworkView,
    pub inputs: Seq<ParamView>,
    pub messages: Seq<TaskMessageView>,
    pub count: int,
    pub failure: Option<Seq<char>>,
    pub broke: bool,
}

/// The state of the post-dependency phase after some prefix of the children
/// has been considered.
#[verifier::ext_equal]
pub struct PostState {
    pub context: InstallerFrameworkView,
    pub messages: Seq<TaskMessageView>,
    pub count: int,
    pub failure: Option<Seq<char>>,
    pub broke: bool,
}

impl<T: Task> DependencyTree<T> {
    /// The pre-dependency phase over the first `i` children: each `Pre`
    /// child runs in order against the context left by its predecessors, its
    /// messages are rescaled into the running slot counter, and its result
    /// is collected as an input for the owning task. An error stops the
    /// phase and is recorded; a `Break` result is collected and stops the
    /// phase with the remaining children untouched.
    pub open spec fn run_pre_upto(
        children: Seq<(TaskOrdering, DependencyTree<T>)>,
        context0: InstallerFrameworkView,
        total: int,
        i: int,
    ) -> PreState
        decreases children, i,
    {
        if i <= 0 {
            PreState {
                context: context0,
                inputs: Seq::empty(),
                messages: Seq::empty(),
                count: 0,
                failure: None,
                broke: false,
            }
        } else {
            let prev = Self::run_pre_upto(children, context0, total, i - 1);
            if i > children.len() || prev.failure is Some || prev.broke || children[i - 1].0
                is Post {
                prev
            } else {
                proof {
                    assert(decreases_to!(children => children[i - 1]));
                    assert(decreases_to!(children[i - 1] => children[i - 1].1));
                }
                let sub = children[i - 1].1.spec_run(prev.context);
                let messages = prev.messages + rescale_msgs(sub.messages, prev.count, total);
                match sub.result {
                    Result::Err(e) => PreState {
                        context: sub.context,
                        inputs: prev.inputs,
                        messages,
                        count: prev.count,
                        failure: Some(e),
                        broke: false,
                    },
                    Result::Ok(p) => PreState {
                        context: sub.context,
                        inputs: prev.inputs.push(p),
                        messages,
                        count: prev.count + 1,
                        failure: None,
                        broke: p is Break,
                    },
                }
            }
        }
    }

    /// The post-dependency phase over the first `i` children: each `Post`
    /// child runs in order, continuing the same slot counter; results are
    /// discarded, an error stops the phase and is recorded, and a `Break`
    /// stops the phase silently.
    pub open spec fn run_post_upto(
        children: Seq<(TaskOrdering, DependencyTree<T>)>,
        context0: InstallerFrameworkView,
        total: int,
        count0: int,
        i: int,
    ) -> PostState
        decreases children, i,
    {
        if i <= 0 {
            PostState {
                context: context0,
                messages: Seq::empty(),
                count: count0,
                failure: None,
                broke: false,
            }
        } else {
            let prev = Self::run_post_upto(children, context0, total, count0, i - 1);
            if i > children.len() || prev.failure is Some || prev.broke || children[i - 1].0
                is Pre {
                prev
            } else {
                proof {
                    assert(decreases_to!(children => children[i - 1]));
                    assert(decreases_to!(children[i - 1] => children[i - 1].1));
                }
                let sub = children[i - 1].1.spec_run(prev.context);
                let messages = prev.messages + rescale_msgs(sub.messages, prev.count, total);
                match sub.result {
                    Result::Err(e) => PostState {
                        context: sub.context,
                        messages,
                        count: prev.count,
                        failure: Some(e),
                        broke: false,
                    },
                    Result::Ok(p) => PostState {
                        context: sub.context,
                        messages,
                        count: prev.count + 1,
                        failure: None,
                        broke: p is Break,
                    },
                }
            }
        }
    }

    /// What executing this tree does. The denominator for progress
    /// rescaling at this level counts every dependency plus the node's own
    /// work as one unit each. Pre-dependencies run first; if one fails the
    /// whole run fails there. The owning task then runs on the collected
    /// inputs, even when a pre-dependency broke. If it breaks, the
    /// post-dependencies are skipped and the run yields `Break`; otherwise
    /// the post-dependencies run and the run yields the owning task's
    /// result, unless a post-dependency fails, which fails the run.
    pub open spec fn spec_run(self, context: InstallerFrameworkView) -> RunOutcome
        decreases self, 0int,
    {
        let total = self.dependencies@.len() as int + 1;
        let n = self.dependencies@.len() as int;
        let pre = Self::run_pre_upto(self.dependencies@, context, total, n);
        match pre.failure {
            Some(e) => RunOutcome { context: pre.context, result: Err(e), messages: pre.messages },
            None => {
                let s = self.task.step(pre.inputs, pre.context);
                let messages = pre.messages + rescale_msgs(s.messages, pre.count, total);
                match s.result {
                    Result::Err(e) => RunOutcome { context: s.context, result: Err(e), messages },
                    Result::Ok(p) => {
                        if p is Break {
                            RunOutcome { context: s.context, result: Ok(p), messages }
                        } else {
                            let post = Self::run_post_upto(
                                self.dependencies@,
                                s.context,
                                total,
                                pre.count + 1,
                                n,
                            );
                            RunOutcome {
                                context: post.context,
                                result: match post.failure {
                                    Some(e) => Err(e),
                                    None => Ok(p),
                                },
                                messages: messages + post.messages,
                            }
                        }
                    },
                }
            },
        }
    }

    /// Once the pre-dependency phase has stopped, considering further
    /// children changes nothing.
    pub proof fn lemma_pre_absorbs(
        children: Seq<(TaskOrdering, DependencyTree<T>)>,
        context0: InstallerFrameworkView,
        total: int,
        i: int,
        j: int,
    )
        requires
            0 <= i <= j,
            Self::run_pre_upto(children, context0, total, i).failure is Some
                || Self::run_pre_upto(children, context0, total, i).broke,
        ensures
            Self::run_pre_upto(children, context0, total, j) == Self::run_pre_upto(
                children,
                context0,
                total,
                i,
            ),
        decreases j - i,
    {
        if j > i {
            Self::lemma_pre_absorbs(children, context0, total, i, j - 1);
        }
    }

    /// Once the post-dependency phase has stopped, considering further
    /// children changes nothing.
    pub proof fn lemma_post_absorbs(
        children: Seq<(TaskOrdering, DependencyTree<T>)>,
        context0: InstallerFrameworkView,
        total: int,
        count0: int,
        i: int,
        j: int,
    )
        requires
            0 <= i <= j,
            Self::run_post_upto(children, context0, total, count0, i).failure is Some
                || Self::run_post_upto(children, context0, total, count0, i).broke,
        ensures
            Self::run_post_upto(children, context0, total, count0, j) == Self::run_post_upto(
                children,
                context0,
                total,
                count0,
                i,
            ),
        decreases j - i,
    {
        if j > i {
            Self::lemma_post_absorbs(children, context0, total, count0, i, j - 1);
        }
    }

    /// How many of the first `i` children have the given ordering.
    pub open spec fn num_with(
        children: Seq<(TaskOrdering, DependencyTree<T>)>,
        ord: TaskOrdering,
        i: int,
    ) -> int
        decreases i,
    {
        if i <= 0 {
            0
        } else {
            Self::num_with(children, ord, i - 1) + if children[i - 1].0 == ord {
                1int
            } else {
                0int
            }
        }
    }

    /// Every child is either a pre- or a post-dependency.
    pub proof fn lemma_num_split(
        children: Seq<(TaskOrdering, DependencyTree<T>)>,
        i: int,
    )
        requires
            0 <= i,
        ensures
            Self::num_with(children, TaskOrdering::Pre, i) + Self::num_with(
                children,
                TaskOrdering::Post,
                i,
            ) == i,
            0 <= Self::num_with(children, TaskOrdering::Pre, i),
            0 <= Self::num_with(children, TaskOrdering::Post, i),
        decreases i,
    {
        if i > 0 {
            Self::lemma_num_split(children, i - 1);
            assert(children[i - 1].0 is Pre || children[i - 1].0 is Post);
        }
    }

    /// Counting with the given ordering never decreases along the prefix.
    pub proof fn lemma_num_monotone(
        children: Seq<(TaskOrdering, DependencyTree<T>)>,
        ord: TaskOrdering,
        i: int,
        j: int,
    )
        requires
            0 <= i <= j,
        ensures
            Self::num_with(children, ord, i) <= Self::num_with(children, ord, j),
        decreases j - i,
    {
        if j > i {
            Self::lemma_num_monotone(children, ord, i, j - 1);
            Self::lemma_num_split(children, j - 1);
            Self::lemma_num_split(children, j);
        }
    }

    /// The pre-phase slot counter counts at most the pre-dependencies seen.
    pub proof fn lemma_pre_count_bound(
        children: Seq<(TaskOrdering, DependencyTree<T>)>,
        context0: InstallerFrameworkView,
        total: int,
        i: int,
    )
        requires
            0 <= i,
        ensures
            0 <= Self::run_pre_upto(children, context0, total, i).count <= Self::num_with(
                children,
                TaskOrdering::Pre,
                i,
            ),
        decreases i,
    {
        if i > 0 {
            Self::lemma_pre_count_bound(children, context0, total, i - 1);
            Self::lemma_num_split(children, i - 1);
            Self::lemma_num_split(children, i);
        }
    }

    /// The post-phase slot counter counts at most the post-dependencies
    /// seen, on top of where it started.
    pub proof fn lemma_post_count_bound(
        children: Seq<(TaskOrdering, DependencyTree<T>)>,
        context0: InstallerFrameworkView,
        total: int,
        count0: int,
        i: int,
    )
        requires
            0 <= i,
        ensures
            count0 <= Self::run_post_upto(children, context0, total, count0, i).count <= count0
                + Self::num_with(children, TaskOrdering::Post, i),
        decreases i,
    {
        if i > 0 {
            Self::lemma_post_count_bound(children, context0, total, count0, i - 1);
            Self::lemma_num_split(children, i - 1);
            Self::lemma_num_split(children, i);
        }
    }

    /// Whether this tree is exactly the expansion of its root task's
    /// dependency declarations: one child per declared dependency, in
    /// declared order, each child mirroring its own declarations in turn.
    pub open spec fn mirrors(self) -> bool
        decreases self,
    {
        &&& self.dependencies@.len() == self.task.spec_dependencies().len()
        &&& forall|i: int|
            0 <= i < self.dependencies@.len() ==> {
                &&& (#[trigger] self.dependencies@[i]).0
                    == self.task.spec_dependencies()[i].ordering
                &&& self.dependencies@[i].1.task == self.task.spec_dependencies()[i].task
                &&& self.dependencies@[i].1.mirrors()
            }
    }

    /// Builds a new tree from the specified task, expanding dependency
    /// declarations recursively: the result mirrors them exactly.
    pub fn build(task: T) -> (r: Self)
        ensures
            r.task == task,
            r.mirrors(),
        decreases task.rank(),
    {
        let mut deps = task.dependencies();
        let ghost n = deps@.len();
        let mut children: Vec<(TaskOrdering, DependencyTree<T>)> = Vec::new();
        while deps.len() > 0
            invariant
                task.spec_dependencies().len() == n,
                deps@.len() + children@.len() == n,
                forall|k: int|
                    0 <= k < deps@.len() ==> (#[trigger] deps@[k]) == task.spec_dependencies()[
                        children@.len() + k],
                forall|k: int|
                    0 <= k < deps@.len() ==> (#[trigger] deps@[k]).task.rank() < task.rank(),
                forall|k: int|
                    0 <= k < children@.len() ==> {
                        &&& (#[trigger] children@[k]).0 == task.spec_dependencies()[k].ordering
                        &&& children@[k].1.task == task.spec_dependencies()[k].task
                        &&& children@[k].1.mirrors()
                    },
            decreases deps@.len(),
        {
            let d = deps.remove(0);
            proof {
                assert(d == task.spec_dependencies()[children@.len() as int]);
            }
            let sub = Self::build(d.task);
            children.push((d.ordering, sub));
        }
        DependencyTree { task, dependencies: children }
    }

    /// Two mirroring trees over the same root task run identically: the
    /// expansion determines the whole outcome.
    pub proof fn lemma_mirrored_runs_agree(t1: Self, t2: Self, ctx: InstallerFrameworkView)
        requires
            t1.task == t2.task,
            t1.mirrors(),
            t2.mirrors(),
        ensures
            t1.spec_run(ctx) == t2.spec_run(ctx),
        decreases t1, 1int,
    {
        assert(decreases_to!(t1 => t1.dependencies));
        assert(decreases_to!(t1.dependencies => t1.dependencies@));
        let n = t1.dependencies@.len() as int;
        let total = n + 1;
        Self::lemma_mirrored_pre_agree(t1.dependencies@, t2.dependencies@, ctx, total, n);
        let pre = Self::run_pre_upto(t1.dependencies@, ctx, total, n);
        if pre.failure is None {
            let s = t1.task.step(pre.inputs, pre.context);
            match s.result {
                Result::Err(_) => {},
                Result::Ok(p) => {
                    if !(p is Break) {
                        Self::lemma_mirrored_post_agree(
                            t1.dependencies@,
                            t2.dependencies@,
                            s.context,
                            total,
                            pre.count + 1,
                            n,
                        );
                    }
                },
            }
        }
    }

    /// The pre-dependency phase agrees between two mirroring child lists.
    proof fn lemma_mirrored_pre_agree(
        c1: Seq<(TaskOrdering, DependencyTree<T>)>,
        c2: Seq<(TaskOrdering, DependencyTree<T>)>,
        ctx: InstallerFrameworkView,
        total: int,
        i: int,
    )
        requires
            c1.len() == c2.len(),
            forall|k: int|
                0 <= k < c1.len() ==> (#[trigger] c1[k]).0 == c2[k].0 && c1[k].1.task
                    == c2[k].1.task && c1[k].1.mirrors() && c2[k].1.mirrors(),
            0 <= i,
        ensures
            Self::run_pre_upto(c1, ctx, total, i) == Self::run_pre_upto(c2, ctx, total, i),
        decreases c1, i,
    {
        if i > 0 {
            Self::lemma_mirrored_pre_agree(c1, c2, ctx, total, i - 1);
            if i <= c1.len() {
                let prev = Self::run_pre_upto(c1, ctx, total, i - 1);
                if !(prev.failure is Some || prev.broke || c1[i - 1].0 is Post) {
                    assert(decreases_to!(c1 => c1[i - 1]));
                    assert(decreases_to!(c1[i - 1] => c1[i - 1].1));
                    Self::lemma_mirrored_runs_agree(c1[i - 1].1, c2[i - 1].1, prev.context);
                }
            }
        }
    }

    /// The post-dependency phase agrees between two mirroring child lists.
    proof fn lemma_mirrored_post_agree(
        c1: Seq<(TaskOrdering, DependencyTree<T>)>,
        c2: Seq<(TaskOrdering, DependencyTree<T>)>,
        ctx: InstallerFrameworkView,
        total: int,
        count0: int,
        i: int,
    )
        requires
            c1.len() == c2.len(),
            forall|k: int|
                0 <= k < c1.len() ==> (#[trigger] c1[k]).0 == c2[k].0 && c1[k].1.task
                    == c2[k].1.task && c1[k].1.mirrors() && c2[k].1.mirrors(),
            0 <= i,
        ensures
            Self::run_post_upto(c1, ctx, total, count0, i) == Self::run_post_upto(
                c2,
                ctx,
                total,
                count0,
                i,
            ),
        decreases c1, i,
    {
        if i > 0 {
            Self::lemma_mirrored_post_agree(c1, c2, ctx, total, count0, i - 1);
            if i <= c1.len() {
                let prev = Self::run_post_upto(c1, ctx, total, count0, i - 1);
                if !(prev.failure is Some || prev.broke || c1[i - 1].0 is Pre) {
                    assert(decreases_to!(c1 => c1[i - 1]));
                    assert(decreases_to!(c1[i - 1] => c1[i - 1].1));
                    Self::lemma_mirrored_runs_agree(c1[i - 1].1, c2[i - 1].1, prev.context);
                }
            }
        }
    }


    /// The shapes of these children, in order.
    pub open spec fn shapes_of(children: Seq<(TaskOrdering, DependencyTree<T>)>) -> Seq<
        (TaskOrdering, TreeShape),
    >
        decreases children,
    {
        if children.len() == 0 {
            Seq::empty()
        } else {
            proof {
                assert(decreases_to!(children => children[0]));
                assert(decreases_to!(children[0] => children[0].1));
            }
            seq![(children[0].0, children[0].1.shape())] + Self::shapes_of(children.drop_first())
        }
    }

    /// The shape of this tree: its task names and dependency orderings.
    pub open spec fn shape(self) -> TreeShape
        decreases self,
    {
        TreeShape { name: self.task.spec_name(), children: Self::shapes_of(self.dependencies@) }
    }

    /// Renders the dependency tree into a user-presentable string.
    pub fn render(&self) -> (r: String)
        ensures
            r@ == spec_render(self.shape(), Seq::<char>::empty()),
    {
        let mut out = String::new();
        let empty = String::new();
        self.render_into(&empty, &mut out);
        out
    }

    /// Appends the rendering of this tree, indented by `prefix`, to `out`.
    #[verifier::loop_isolation(false)]
    #[verifier::rlimit(60)]
    fn render_into(&self, prefix: &String, out: &mut String)
        ensures
            final(out)@ == old(out)@ + spec_render(self.shape(), prefix@),
        decreases *self,
    {
        let name = self.task.name();
        out.append(name.as_str());
        out.append("\n");
        let ghost deps = self.dependencies@;
        let n = self.dependencies.len();
        let ghost target = old(out)@ + spec_render(self.shape(), prefix@);
        let mut i: usize = 0;
        proof {
            assert(deps.skip(0) =~= deps);
            assert(out@ =~= old(out)@ + (self.task.spec_name() + "\n"@));
            assert(self.shape().name == self.task.spec_name());
            assert(self.shape().children == Self::shapes_of(deps));
            assert(spec_render(self.shape(), prefix@) == self.shape().name + "\n"@
                + spec_render_children(self.shape().children, prefix@));
            assert(out@ + spec_render_children(Self::shapes_of(deps.skip(0)), prefix@) =~= target);
        }
        while i < n
            invariant
                i <= n,
                out@ + spec_render_children(Self::shapes_of(deps.skip(i as int)), prefix@)
                    == target,
            decreases n - i,
        {
            let ghost rest = Self::shapes_of(deps.skip(i as int));
            proof {
                assert(deps.skip(i as int)[0] == deps[i as int]);
                assert(deps.skip(i as int).drop_first() =~= deps.skip(i as int + 1));
                assert(rest.len() == deps.skip(i as int).len()) by {
                    Self::lemma_shapes_len(deps.skip(i as int));
                }
                assert(rest == seq![(deps[i as int].0, deps[i as int].1.shape())]
                    + Self::shapes_of(deps.skip(i as int + 1)));
                assert(rest.drop_first() =~= Self::shapes_of(deps.skip(i as int + 1)));
            }
            let last = i + 1 == n;
            out.append(prefix.as_str());
            if last {
                out.append("`-- ");
            } else {
                out.append("|-- ");
            }
            let pair = &self.dependencies[i];
            match pair.0 {
                TaskOrdering::Pre => out.append("Pre "),
                TaskOrdering::Post => out.append("Post "),
            }
            let mut extended = prefix.clone();
            if last {
                extended.append("    ");
            } else {
                extended.append("|   ");
            }
            proof {
                assert(decreases_to!(deps => deps[i as int]));
                assert(decreases_to!(deps[i as int] => deps[i as int].1));
            }
            pair.1.render_into(&extended, out);
            i = i + 1;
        }
        proof {
            assert(deps.skip(n as int).len() == 0);
            assert(Self::shapes_of(deps.skip(n as int)) =~= Seq::<(TaskOrdering, TreeShape)>::empty());
            assert(out@ + Seq::<char>::empty() =~= out@);
        }
    }

    /// The shapes of a child sequence line up with the children.
    pub proof fn lemma_shapes_len(children: Seq<(TaskOrdering, DependencyTree<T>)>)
        ensures
            Self::shapes_of(children).len() == children.len(),
        decreases children,
    {
        if children.len() > 0 {
            Self::lemma_shapes_len(children.drop_first());
        }
    }

    /// Executes this tree: pre-dependencies in declaration order, then the
    /// owning task on their collected results, then post-dependencies. The
    /// outcome is exactly what the functional model `spec_run` describes.
    #[verifier::loop_isolation(false)]
    #[verifier::rlimit(60)]
    pub fn execute(&self, context: &mut InstallerFramework, log: &mut MessageLog) -> (r: Result<
        TaskParamType,
        String,
    >)
        ensures
            ({
                let out = self.spec_run(old(context)@);
                &&& final(context)@ == out.context
                &&& final(log)@ == old(log)@ + out.messages
                &&& result_view(r) == out.result
            }),
        decreases *self,
    {
        let ghost ctx0 = context@;
        let ghost log0 = log@;
        let ghost deps = self.dependencies@;
        let n = self.dependencies.len();
        let ghost total = n as int + 1;
        let mut inputs: Vec<TaskParamType> = Vec::new();
        let mut count: u128 = 0;
        let mut i: usize = 0;
        let mut broke: bool = false;
        proof {
            assert(views_of(inputs@) =~= Seq::<ParamView>::empty());
            assert(log@ =~= log0 + Seq::<TaskMessageView>::empty());
        }
        while i < n && !broke
            invariant
                i <= n,
                n == deps.len(),
                deps == self.dependencies@,
                count <= i as int,
                ({
                    let st = Self::run_pre_upto(deps, ctx0, total, i as int);
                    &&& st.failure is None
                    &&& st.broke == broke
                    &&& context@ == st.context
                    &&& views_of(inputs@) == st.inputs
                    &&& count as int == st.count
                    &&& log@ == log0 + st.messages
                }),
            decreases n - i,
        {
            let ghost st = Self::run_pre_upto(deps, ctx0, total, i as int);
            let pair = &self.dependencies[i];
            match pair.0 {
                TaskOrdering::Post => {
                    proof {
                        assert(deps[i as int].0 is Post);
                    }
                },
                TaskOrdering::Pre => {
                    proof {
                        assert(deps[i as int].0 is Pre);
                    }
                    let mark = log.len();
                    proof {
                        assert(decreases_to!(deps => deps[i as int]));
                        assert(decreases_to!(deps[i as int] => deps[i as int].1));
                    }
                    let res = pair.1.execute(context, log);
                    let ghost sub = pair.1.spec_run(st.context);
                    proof {
                        assert(context@ == sub.context);
                        assert(log@ == (log0 + st.messages) + sub.messages);
                    }
                    log.rescale_tail(mark, count, n);
                    proof {
                        let lmid = log0 + st.messages;
                        let lall = lmid + sub.messages;
                        assert(lall.take(lmid.len() as int) =~= lmid);
                        assert(lall.skip(lmid.len() as int) =~= sub.messages);
                        assert(log@ =~= log0 + (st.messages + rescale_msgs(
                            sub.messages,
                            st.count,
                            total,
                        )));
                    }
                    match res {
                        Result::Err(e) => {
                            proof {
                                let st1 = Self::run_pre_upto(deps, ctx0, total, i as int + 1);
                                assert(st1.failure == Some(e@));
                                assert(st1.messages == st.messages + rescale_msgs(
                                    sub.messages,
                                    st.count,
                                    total,
                                ));
                                Self::lemma_pre_absorbs(deps, ctx0, total, i as int + 1, n as int);
                            }
                            return Err(e);
                        },
                        Result::Ok(p) => {
                            let ghost pv = p@;
                            let b = p.is_break();
                            inputs.push(p);
                            count = count + 1;
                            if b {
                                broke = true;
                            }
                            proof {
                                assert(views_of(inputs@) =~= st.inputs.push(pv));
                            }
                        },
                    }
                },
            }
            i = i + 1;
        }
        let ghost pre = Self::run_pre_upto(deps, ctx0, total, n as int);
        proof {
            if broke {
                Self::lemma_pre_absorbs(deps, ctx0, total, i as int, n as int);
            }
            Self::lemma_pre_count_bound(deps, ctx0, total, n as int);
            Self::lemma_num_split(deps, n as int);
        }
        let ghost inp = views_of(inputs@);
        let mark = log.len();
        let res = self.task.execute(inputs, context, log);
        let ghost s = self.task.step(inp, pre.context);
        log.rescale_tail(mark, count, n);
        let ghost msgs1 = pre.messages + rescale_msgs(s.messages, pre.count, total);
        proof {
            assert(log@ =~= log0 + msgs1);
        }
        match res {
            Result::Err(e) => Err(e),
            Result::Ok(p) => {
                if p.is_break() {
                    return Ok(p);
                }
                count = count + 1;
                let ghost count0 = pre.count + 1;
                let ghost sctx = s.context;
                let ghost logmid = log@;
                let mut j: usize = 0;
                let mut pbroke: bool = false;
                while j < n && !pbroke
                    invariant
                        j <= n,
                        n == deps.len(),
                        deps == self.dependencies@,
                        count0 == pre.count + 1,
                        pre == Self::run_pre_upto(deps, ctx0, total, n as int),
                        pre.count <= Self::num_with(deps, TaskOrdering::Pre, n as int),
                        ({
                            let st = Self::run_post_upto(deps, sctx, total, count0, j as int);
                            &&& st.failure is None
                            &&& st.broke == pbroke
                            &&& context@ == st.context
                            &&& count as int == st.count
                            &&& log@ == logmid + st.messages
                        }),
                    decreases n - j,
                {
                    let ghost st = Self::run_post_upto(deps, sctx, total, count0, j as int);
                    let pair = &self.dependencies[j];
                    match pair.0 {
                        TaskOrdering::Pre => {
                            proof {
                                assert(deps[j as int].0 is Pre);
                            }
                        },
                        TaskOrdering::Post => {
                            proof {
                                assert(deps[j as int].0 is Post);
                                Self::lemma_post_count_bound(deps, sctx, total, count0, j as int);
                                Self::lemma_num_monotone(
                                    deps,
                                    TaskOrdering::Post,
                                    j as int + 1,
                                    n as int,
                                );
                                Self::lemma_num_split(deps, j as int);
                                Self::lemma_num_split(deps, j as int + 1);
                                Self::lemma_num_split(deps, n as int);
                                assert(count as int <= n as int);
                            }
                            let mark2 = log.len();
                            proof {
                                assert(decreases_to!(deps => deps[j as int]));
                                assert(decreases_to!(deps[j as int] => deps[j as int].1));
                            }
                            let res2 = pair.1.execute(context, log);
                            let ghost sub = pair.1.spec_run(st.context);
                            log.rescale_tail(mark2, count, n);
                            proof {
                                let lmid = logmid + st.messages;
                                let lall = lmid + sub.messages;
                                assert(lall.take(lmid.len() as int) =~= lmid);
                                assert(lall.skip(lmid.len() as int) =~= sub.messages);
                                assert(log@ =~= logmid + (st.messages + rescale_msgs(
                                    sub.messages,
                                    st.count,
                                    total,
                                )));
                            }
                            match res2 {
                                Result::Err(e) => {
                                    proof {
                                        let st1 = Self::run_post_upto(
                                            deps,
                                            sctx,
                                            total,
                                            count0,
                                            j as int + 1,
                                        );
                                        assert(st1.failure == Some(e@));
                                        Self::lemma_post_absorbs(
                                            deps,
                                            sctx,
                                            total,
                                            count0,
                                            j as int + 1,
                                            n as int,
                                        );
                                        assert(log@ =~= (log0 + msgs1) + Self::run_post_upto(
                                            deps,
                                            sctx,
                                            total,
                                            count0,
                                            n as int,
                                        ).messages);
                                        assert(log@ =~= log0 + (msgs1 + Self::run_post_upto(
                                            deps,
                                            sctx,
                                            total,
                                            count0,
                                            n as int,
                                        ).messages));
                                    }
                                    return Err(e);
                                },
                                Result::Ok(p2) => {
                                    let b2 = p2.is_break();
                                    count = count + 1;
                                    if b2 {
                                        pbroke = true;
                                    }
                                },
                            }
                        },
                    }
                    j = j + 1;
                }
                proof {
                    if pbroke {
                        Self::lemma_post_absorbs(deps, sctx, total, count0, j as int, n as int);
                    }
                    let post = Self::run_post_upto(deps, sctx, total, count0, n as int);
                    assert(log@ =~= log0 + (msgs1 + post.messages));
                }
                Ok(p)
            },
        }
    }
}

} // verus!
