//! Whole publish runs, driven against an in-memory file tree that plays the
//! caller's part: it performs each requested action on the tree and reports
//! the matching event back to the machine.

use std::collections::HashMap;

use smaug_publish::machine::Action;
use smaug_publish::machine::Error;
use smaug_publish::machine::Event;
use smaug_publish::machine::Publish;
use smaug_publish::machine::PublishResult;
use smaug_publish::machine::Step;
use smaug_publish::path::AbsPath;

type Tree = HashMap<Vec<String>, Vec<u8>>;

fn path(segs: &[&str]) -> AbsPath {
    let mut v: Vec<String> = Vec::new();
    for s in segs {
        v.push(s.to_string());
    }
    AbsPath::new(v)
}

fn segs(p: &[&str]) -> Vec<String> {
    p.iter().map(|s| s.to_string()).collect()
}

fn starts_with(p: &[String], d: &[String]) -> bool {
    p.len() >= d.len() && p[..d.len()] == d[..]
}

fn mirror(tree: &mut Tree, src: &[String], dst: &[String]) {
    let copies: Vec<(Vec<String>, Vec<u8>)> = tree
        .iter()
        .filter(|(p, _)| p.len() > src.len() && starts_with(p, src))
        .map(|(p, data)| {
            let mut q: Vec<String> = dst.to_vec();
            q.extend(p[src.len()..].iter().cloned());
            (q, data.clone())
        })
        .collect();
    for (q, data) in copies {
        tree.insert(q, data);
    }
}

fn clear(tree: &mut Tree, d: &[String]) {
    tree.retain(|p, _| !starts_with(p, d));
}

fn dir_holds_something(tree: &Tree, d: &[String]) -> bool {
    tree.keys().any(|p| p.len() > d.len() && starts_with(p, d))
}

/// What the project declares, what is installed, and what the simulated
/// toolchain process does when invoked.
struct Toolchain {
    declared_version: String,
    installed_version: String,
    install_dir: Vec<String>,
    project_root: Vec<String>,
    exits_ok: bool,
    writes: Vec<(Vec<String>, Vec<u8>)>,
}

/// Performs `action` on the tree and reports how it went. Records every
/// action so a scenario can check what was, and was not, requested.
fn perform(tree: &mut Tree, tc: &Toolchain, action: &Action, log: &mut Vec<String>) -> Event {
    match action {
        Action::LoadConfig { path } => {
            log.push(format!("load-config {:?}", path.segs));
            if tree.contains_key(&path.segs) {
                Event::ConfigLoaded {
                    project_name: "Asteroids".to_string(),
                    toolchain_version: tc.declared_version.clone(),
                }
            } else {
                Event::ConfigFailed
            }
        },
        Action::WriteMetadata { path } => {
            log.push(format!("write-metadata {:?}", path.segs));
            tree.insert(path.segs.clone(), b"metadata".to_vec());
            Event::MetadataWritten
        },
        Action::ResolveToolchain { version } => {
            log.push(format!("resolve-toolchain {}", version));
            if *version == tc.installed_version {
                Event::ToolchainFound {
                    install_dir: AbsPath::new(tc.install_dir.clone()),
                    publish_bin: "dragonruby-publish".to_string(),
                }
            } else {
                Event::ToolchainMissing
            }
        },
        Action::MirrorDir { src, dst } => {
            log.push(format!("mirror {:?} -> {:?}", src.segs, dst.segs));
            mirror(tree, &src.segs, &dst.segs);
            Event::IoOk
        },
        Action::ClearPath { path } => {
            log.push(format!("clear {:?}", path.segs));
            clear(tree, &path.segs);
            Event::IoOk
        },
        Action::ProbeDir { path } => {
            log.push(format!("probe {:?}", path.segs));
            if dir_holds_something(tree, &path.segs) {
                Event::DirPresent
            } else {
                Event::DirAbsent
            }
        },
        Action::Invoke { workdir, staged_name, .. } => {
            log.push(format!("invoke {:?} {}", workdir.segs, staged_name));
            // Side-channel freshness: when the toolchain starts, neither
            // side's log or exception directory may hold anything.
            let stage: Vec<String> = {
                let mut s = workdir.segs.clone();
                s.push(staged_name.clone());
                s
            };
            for side in [&stage[..], &tc.project_root[..]] {
                for channel in ["logs", "exceptions"] {
                    let mut d: Vec<String> = side.to_vec();
                    d.push(channel.to_string());
                    assert!(
                        !dir_holds_something(tree, &d),
                        "stale side channel at {:?}",
                        d
                    );
                }
            }
            for (p, data) in &tc.writes {
                tree.insert(p.clone(), data.clone());
            }
            Event::Exited { success: tc.exits_ok }
        },
    }
}

/// Runs the machine to completion against the tree.
fn run(
    publish: &Publish,
    tree: &mut Tree,
    tc: &Toolchain,
    log: &mut Vec<String>,
) -> Result<PublishResult, Error> {
    let (mut st, mut action) = publish.start();
    loop {
        let ev = perform(tree, tc, &action, log);
        match publish.step(st, ev) {
            Some(Step::Do(st2, a2)) => {
                st = st2;
                action = a2;
            },
            Some(Step::Done(outcome)) => return outcome,
            None => panic!("the machine refused an event it asked for"),
        }
    }
}

fn project_tree() -> Tree {
    let mut tree: Tree = HashMap::new();
    tree.insert(segs(&["p", "Smaug.toml"]), b"name and version".to_vec());
    tree.insert(segs(&["p", "app", "main.rb"]), b"game code".to_vec());
    // Leftovers of an earlier run, on both sides.
    tree.insert(segs(&["p", "logs", "stale.txt"]), b"old log".to_vec());
    tree.insert(segs(&["p", "exceptions", "stale.txt"]), b"old report".to_vec());
    tree.insert(segs(&["tc", "p", "left.over"]), b"old staging".to_vec());
    tree
}

#[test]
fn publish_run_end_to_end() {
    let mut tree = project_tree();
    let tc = Toolchain {
        declared_version: "4.8".to_string(),
        installed_version: "4.8".to_string(),
        install_dir: segs(&["tc"]),
        project_root: segs(&["p"]),
        exits_ok: true,
        writes: vec![(segs(&["tc", "p", "builds", "game.zip"]), b"zip".to_vec())],
    };
    let publish = Publish { root: path(&["p"]), pass_through: Vec::new(), quiet: false };
    let mut log: Vec<String> = Vec::new();

    let outcome = run(&publish, &mut tree, &tc, &mut log);

    match outcome {
        Ok(result) => assert_eq!(result.project_name, "Asteroids"),
        Err(e) => panic!("expected success, got {:?}", e),
    }
    // The artifact was mirrored back into the project.
    assert_eq!(tree.get(&segs(&["p", "builds", "game.zip"])), Some(&b"zip".to_vec()));
    // The staging area is gone, leftovers included.
    assert!(!tree.keys().any(|p| starts_with(p, &segs(&["tc", "p"]))));
    // The project's own files were never touched.
    assert_eq!(tree.get(&segs(&["p", "app", "main.rb"])), Some(&b"game code".to_vec()));
    // The stale side channels are gone and nothing replaced them.
    assert!(!dir_holds_something(&tree, &segs(&["p", "logs"])));
    assert!(!dir_holds_something(&tree, &segs(&["p", "exceptions"])));
}

#[test]
fn publish_run_mirrors_toolchain_logs_back() {
    let mut tree = project_tree();
    let tc = Toolchain {
        declared_version: "4.8".to_string(),
        installed_version: "4.8".to_string(),
        install_dir: segs(&["tc"]),
        project_root: segs(&["p"]),
        exits_ok: true,
        writes: vec![
            (segs(&["tc", "p", "builds", "game.zip"]), b"zip".to_vec()),
            (segs(&["tc", "p", "logs", "run.txt"]), b"fresh log".to_vec()),
            (segs(&["tc", "p", "exceptions", "err.txt"]), b"fresh report".to_vec()),
        ],
    };
    let publish = Publish { root: path(&["p"]), pass_through: Vec::new(), quiet: false };
    let mut log: Vec<String> = Vec::new();

    let outcome = run(&publish, &mut tree, &tc, &mut log);

    assert!(outcome.is_ok());
    // This run's side-channel output was brought home; the stale one is gone.
    assert_eq!(tree.get(&segs(&["p", "logs", "run.txt"])), Some(&b"fresh log".to_vec()));
    assert_eq!(tree.get(&segs(&["p", "logs", "stale.txt"])), None);
    assert_eq!(
        tree.get(&segs(&["p", "exceptions", "err.txt"])),
        Some(&b"fresh report".to_vec())
    );
    // And the staging area is gone all the same.
    assert!(!tree.keys().any(|p| starts_with(p, &segs(&["tc", "p"]))));
}

#[test]
fn failing_toolchain_still_reconciles_and_tears_down() {
    let mut tree = project_tree();
    let tc = Toolchain {
        declared_version: "4.8".to_string(),
        installed_version: "4.8".to_string(),
        install_dir: segs(&["tc"]),
        project_root: segs(&["p"]),
        exits_ok: false,
        writes: vec![(segs(&["tc", "p", "logs", "run.txt"]), b"what failed".to_vec())],
    };
    let publish = Publish { root: path(&["p"]), pass_through: Vec::new(), quiet: false };
    let mut log: Vec<String> = Vec::new();

    let outcome = run(&publish, &mut tree, &tc, &mut log);

    match outcome {
        Err(Error::PublishError { project_name }) => assert_eq!(project_name, "Asteroids"),
        other => panic!("expected the publish error, got {:?}", other),
    }
    // The logs that explain the failure were still mirrored back.
    assert_eq!(tree.get(&segs(&["p", "logs", "run.txt"])), Some(&b"what failed".to_vec()));
    // Teardown ran regardless of the failed exit.
    assert!(!tree.keys().any(|p| starts_with(p, &segs(&["tc", "p"]))));
}

#[test]
fn missing_toolchain_aborts_before_any_staging() {
    let mut tree = project_tree();
    tree.remove(&segs(&["tc", "p", "left.over"]));
    // The configuration declares a version that is not installed.
    let tc = Toolchain {
        declared_version: "9.9".to_string(),
        installed_version: "4.8".to_string(),
        install_dir: segs(&["tc"]),
        project_root: segs(&["p"]),
        exits_ok: true,
        writes: vec![],
    };
    let publish = Publish { root: path(&["p"]), pass_through: Vec::new(), quiet: false };
    let mut log: Vec<String> = Vec::new();
    let before: Vec<Vec<String>> =
        tree.keys().filter(|p| starts_with(p, &segs(&["tc"]))).cloned().collect();

    let outcome = run(&publish, &mut tree, &tc, &mut log);

    match outcome {
        Err(Error::ConfiguredDragonRubyNotFound) => {},
        other => panic!("expected the missing-toolchain error, got {:?}", other),
    }
    // Nothing was created under the toolchain's directory.
    let after: Vec<Vec<String>> =
        tree.keys().filter(|p| starts_with(p, &segs(&["tc"]))).cloned().collect();
    assert_eq!(before, after);
    // No staging action was ever requested.
    assert!(log.iter().all(|line| !line.starts_with("mirror") && !line.starts_with("clear")));
}

#[test]
fn two_projects_stage_side_by_side_without_colliding() {
    let mut tree: Tree = HashMap::new();
    for root in ["alpha", "beta"] {
        tree.insert(segs(&[root, "Smaug.toml"]), b"name and version".to_vec());
        tree.insert(segs(&[root, "main.rb"]), root.as_bytes().to_vec());
    }
    let mut log: Vec<String> = Vec::new();
    for root in ["alpha", "beta"] {
        let tc = Toolchain {
            declared_version: "4.8".to_string(),
            installed_version: "4.8".to_string(),
            install_dir: segs(&["tc"]),
            project_root: segs(&[root]),
            exits_ok: true,
            writes: vec![(
                segs(&["tc", root, "builds", "game.zip"]),
                root.as_bytes().to_vec(),
            )],
        };
        let publish = Publish { root: path(&[root]), pass_through: Vec::new(), quiet: false };
        let outcome = run(&publish, &mut tree, &tc, &mut log);
        assert!(outcome.is_ok());
    }
    // Each project got its own artifact, from its own staging area.
    assert_eq!(tree.get(&segs(&["alpha", "builds", "game.zip"])), Some(&b"alpha".to_vec()));
    assert_eq!(tree.get(&segs(&["beta", "builds", "game.zip"])), Some(&b"beta".to_vec()));
    // Neither project's files leaked into the other.
    assert_eq!(tree.get(&segs(&["alpha", "main.rb"])), Some(&b"alpha".to_vec()));
    assert_eq!(tree.get(&segs(&["beta", "main.rb"])), Some(&b"beta".to_vec()));
    // Both staging areas are gone.
    assert!(!tree.keys().any(|p| starts_with(p, &segs(&["tc", "alpha"]))));
    assert!(!tree.keys().any(|p| starts_with(p, &segs(&["tc", "beta"]))));
}
