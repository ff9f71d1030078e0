//! Exercises the dependency engine on scripted trees: progress weighting,
//! break and error short-circuits, post-dependency discard and rendering.

use liftinstall::config::BaseAttributes;
use liftinstall::installer::Effect;
use liftinstall::installer::InstallerFramework;
use liftinstall::kinds::ScriptedTask;
use liftinstall::kinds::TaskKind;
use liftinstall::progress::Progress;
use liftinstall::progress::SCALE;
use liftinstall::tasks::DependencyTree;
use liftinstall::tasks::MessageLog;
use liftinstall::tasks::TaskMessage;
use liftinstall::tasks::TaskOrdering;
use liftinstall::tasks::TaskParamType;

fn fresh_framework() -> InstallerFramework {
    InstallerFramework::new(BaseAttributes {
        name: String::from("Demo"),
        target_url: String::from("https://example.invalid/config"),
    })
}

fn scripted(
    name: &str,
    outcome: Result<TaskParamType, String>,
    messages: Vec<TaskMessage>,
) -> TaskKind {
    TaskKind::Scripted(ScriptedTask { name: String::from(name), outcome, messages })
}

/// A tree node over a scripted task, with explicit children.
fn node(
    task: TaskKind,
    children: Vec<(TaskOrdering, DependencyTree<TaskKind>)>,
) -> DependencyTree<TaskKind> {
    DependencyTree { task, dependencies: children }
}

/// A childless tree that reports a single completion message at local
/// fraction one.
fn completion(name: &str) -> DependencyTree<TaskKind> {
    node(
        scripted(
            name,
            Ok(TaskParamType::Empty),
            vec![TaskMessage::DisplayMessage(String::from("done"), Progress::one())],
        ),
        vec![],
    )
}

fn pre(tree: DependencyTree<TaskKind>) -> (TaskOrdering, DependencyTree<TaskKind>) {
    (TaskOrdering::Pre, tree)
}

fn post(tree: DependencyTree<TaskKind>) -> (TaskOrdering, DependencyTree<TaskKind>) {
    (TaskOrdering::Post, tree)
}

/// A childless tree with the given outcome and no messages.
fn leaf(name: &str, outcome: Result<TaskParamType, String>) -> DependencyTree<TaskKind> {
    node(scripted(name, outcome, vec![]), vec![])
}

fn display_units(log: &MessageLog) -> Vec<u64> {
    let mut out = Vec::new();
    for entry in &log.entries {
        if let TaskMessage::DisplayMessage(_, p) = entry {
            out.push(p.units());
        }
    }
    out
}

fn markers(framework: &InstallerFramework) -> Vec<String> {
    let mut out = Vec::new();
    for effect in &framework.effects {
        if let Effect::Marker(name) = effect {
            out.push(name.clone());
        }
    }
    out
}

#[test]
fn equal_weighting_ladder() {
    // Two pre-dependencies, one post-dependency, each a single completion
    // report, as is the root's own work: four equal units.
    let tree = node(
        scripted(
            "root",
            Ok(TaskParamType::Empty),
            vec![TaskMessage::DisplayMessage(String::from("done"), Progress::one())],
        ),
        vec![pre(completion("c1")), pre(completion("c2")), post(completion("c3"))],
    );
    let mut fw = fresh_framework();
    let mut log = MessageLog::new();
    let r = tree.execute(&mut fw, &mut log);
    assert!(r.is_ok());
    let units = display_units(&log);
    assert_eq!(units, vec![SCALE / 4, 2 * (SCALE / 4), 3 * (SCALE / 4), SCALE]);
}

#[test]
fn progress_monotone_through_nesting() {
    let inner = node(
        scripted(
            "inner",
            Ok(TaskParamType::Empty),
            vec![
                TaskMessage::DisplayMessage(String::from("a"), Progress::zero()),
                TaskMessage::DisplayMessage(String::from("b"), Progress::ratio(1, 2)),
                TaskMessage::DisplayMessage(String::from("c"), Progress::one()),
            ],
        ),
        vec![pre(completion("nested"))],
    );
    let tree = node(
        scripted(
            "root",
            Ok(TaskParamType::Empty),
            vec![TaskMessage::DisplayMessage(String::from("done"), Progress::one())],
        ),
        vec![pre(inner), post(completion("tail"))],
    );
    let mut fw = fresh_framework();
    let mut log = MessageLog::new();
    let r = tree.execute(&mut fw, &mut log);
    assert!(r.is_ok());
    let units = display_units(&log);
    assert!(!units.is_empty());
    for w in units.windows(2) {
        assert!(w[0] <= w[1]);
    }
    for u in &units {
        assert!(*u <= SCALE);
    }
    assert_eq!(*units.last().unwrap(), SCALE);
}

#[test]
fn break_short_circuits_later_pre_dependencies() {
    let tree = node(
        scripted("root", Ok(TaskParamType::Empty), vec![]),
        vec![
            pre(leaf("a", Ok(TaskParamType::Empty))),
            pre(leaf("b", Ok(TaskParamType::Break))),
            pre(leaf("c", Ok(TaskParamType::Empty))),
        ],
    );
    let mut fw = fresh_framework();
    let mut log = MessageLog::new();
    let r = tree.execute(&mut fw, &mut log);
    assert!(r.is_ok());
    // The dependency after the break never ran; the root task still did.
    assert_eq!(markers(&fw), vec![String::from("a"), String::from("b"), String::from("root")]);
}

#[test]
fn error_aborts_everything_after_it() {
    let tree = node(
        scripted("root", Ok(TaskParamType::Empty), vec![]),
        vec![
            pre(leaf("a", Ok(TaskParamType::Empty))),
            pre(leaf("b", Err(String::from("boom")))),
            pre(leaf("c", Ok(TaskParamType::Empty))),
            post(leaf("d", Ok(TaskParamType::Empty))),
        ],
    );
    let mut fw = fresh_framework();
    let mut log = MessageLog::new();
    let r = tree.execute(&mut fw, &mut log);
    assert!(matches!(r, Err(ref e) if e == "boom"));
    // Nothing after the failing dependency ran: not the later pre
    // dependency, not the root task, not the post dependency.
    assert_eq!(markers(&fw), vec![String::from("a"), String::from("b")]);
}

#[test]
fn post_dependency_results_are_discarded() {
    let tree = node(
        scripted(
            "root",
            Ok(TaskParamType::GeneratedShortcuts(vec![String::from("root-value")])),
            vec![],
        ),
        vec![post(leaf(
            "p",
            Ok(TaskParamType::GeneratedShortcuts(vec![String::from("post-value")])),
        ))],
    );
    let mut fw = fresh_framework();
    let mut log = MessageLog::new();
    let r = tree.execute(&mut fw, &mut log);
    // The post dependency ran, but the overall result is the root's own.
    assert_eq!(markers(&fw), vec![String::from("root"), String::from("p")]);
    match r {
        Ok(TaskParamType::GeneratedShortcuts(files)) => {
            assert_eq!(files, vec![String::from("root-value")]);
        }
        other => panic!("unexpected result: {:?}", other),
    }
}

#[test]
fn post_break_stops_remaining_posts_only() {
    let tree = node(
        scripted("root", Ok(TaskParamType::Empty), vec![]),
        vec![
            post(leaf("p1", Ok(TaskParamType::Break))),
            post(leaf("p2", Ok(TaskParamType::Empty))),
        ],
    );
    let mut fw = fresh_framework();
    let mut log = MessageLog::new();
    let r = tree.execute(&mut fw, &mut log);
    assert!(matches!(r, Ok(TaskParamType::Empty)));
    assert_eq!(markers(&fw), vec![String::from("root"), String::from("p1")]);
}

#[test]
fn main_break_skips_post_dependencies() {
    let tree = node(
        scripted("root", Ok(TaskParamType::Break), vec![]),
        vec![post(leaf("p", Ok(TaskParamType::Empty)))],
    );
    let mut fw = fresh_framework();
    let mut log = MessageLog::new();
    let r = tree.execute(&mut fw, &mut log);
    assert!(matches!(r, Ok(TaskParamType::Break)));
    assert_eq!(markers(&fw), vec![String::from("root")]);
}

#[test]
fn rendering_is_deterministic_for_a_shape() {
    let build_tree = |payload: &str| {
        node(
            scripted("root", Ok(TaskParamType::Empty), vec![]),
            vec![
                pre(leaf("first", Ok(TaskParamType::Empty))),
                post(node(
                    scripted("second", Err(String::from(payload)), vec![]),
                    vec![pre(leaf("tip", Ok(TaskParamType::Empty)))],
                )),
            ],
        )
    };
    // Same names and orderings, different outcomes: identical rendering.
    let a = build_tree("one").render();
    let b = build_tree("two").render();
    assert_eq!(a, b);
    assert_eq!(a, build_tree("one").render());
    assert!(a.contains("root"));
    assert!(a.contains("|-- Pre first"));
    assert!(a.contains("`-- Post second"));
    assert!(a.contains("    `-- Pre tip"));
}
