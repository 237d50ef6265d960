use dotconfig::reconcile::{link_step, start_link, DestNode, Failure, LinkAction, LinkEvent, Outcome};

#[derive(Clone, Debug, PartialEq)]
enum Node {
    File(String),
    Dir(Vec<String>),
    Link(String),
}

#[derive(Clone, Debug, PartialEq)]
struct Fake {
    source: Option<Node>,
    dest: Option<Node>,
    mutations: usize,
}

const SRC: &str = "/repo/nvim";

fn dest_exists(f: &Fake) -> bool {
    match &f.dest {
        None => false,
        Some(Node::Link(t)) => t == SRC && f.source.is_some(),
        Some(_) => true,
    }
}

fn run(f: &mut Fake, destination: &str) -> (Outcome, Vec<LinkAction>) {
    let src = SRC.to_string();
    let mut actions = Vec::new();
    let mut a = start_link(&destination.to_string());
    loop {
        actions.push(a);
        let ev = match a {
            LinkAction::Finish { outcome } => return (outcome, actions),
            LinkAction::Probe => LinkEvent::Probed { source_exists: f.source.is_some(), dest_exists: dest_exists(f) },
            LinkAction::MoveDestToSource => {
                f.source = f.dest.take();
                f.mutations += 1;
                LinkEvent::Moved { ok: true }
            }
            LinkAction::InspectDest => LinkEvent::Inspected {
                node: match &f.dest {
                    None => DestNode::Absent,
                    Some(Node::File(_)) => DestNode::File,
                    Some(Node::Dir(_)) => DestNode::Dir,
                    Some(Node::Link(t)) => DestNode::Symlink { target: t.clone() },
                },
            },
            LinkAction::RemoveFile | LinkAction::RemoveDir => {
                f.dest = None;
                f.mutations += 1;
                LinkEvent::Removed { ok: true }
            }
            LinkAction::CreateSymlink => {
                f.dest = Some(Node::Link(src.clone()));
                f.mutations += 1;
                LinkEvent::SymlinkMade { ok: true }
            }
        };
        a = link_step(&a, &ev, &src);
    }
}

#[test]
fn second_run_skips() {
    let mut f = Fake { source: Some(Node::Dir(vec!["init.lua".to_string()])), dest: None, mutations: 0 };
    let (o1, _) = run(&mut f, "/home/ana/.config/nvim");
    assert_eq!(o1, Outcome::Linked);
    assert_eq!(f.dest, Some(Node::Link(SRC.to_string())));
    let before = f.clone();
    let (o2, _) = run(&mut f, "/home/ana/.config/nvim");
    assert_eq!(o2, Outcome::Skipped);
    assert_eq!(f, before);
}

#[test]
fn first_run_moves_live_config_into_repo() {
    let content = vec!["init.lua".to_string(), "lua".to_string()];
    let mut f = Fake { source: None, dest: Some(Node::Dir(content.clone())), mutations: 0 };
    let (o, actions) = run(&mut f, "/home/ana/.config/nvim");
    assert_eq!(o, Outcome::Linked);
    assert_eq!(actions[1], LinkAction::MoveDestToSource);
    assert_eq!(f.source, Some(Node::Dir(content)));
    assert_eq!(f.dest, Some(Node::Link(SRC.to_string())));
}

#[test]
fn existing_link_skipped_without_mutation() {
    let mut f = Fake {
        source: Some(Node::Dir(vec![])),
        dest: Some(Node::Link(SRC.to_string())),
        mutations: 0,
    };
    let (o, _) = run(&mut f, "/home/ana/.config/nvim");
    assert_eq!(o, Outcome::Skipped);
    assert_eq!(f.mutations, 0);
}

#[test]
fn regular_file_replaced_by_link() {
    let mut f = Fake {
        source: Some(Node::File("repo zshrc".to_string())),
        dest: Some(Node::File("old zshrc".to_string())),
        mutations: 0,
    };
    let (o, actions) = run(&mut f, "/home/ana/.zshrc");
    assert_eq!(o, Outcome::Linked);
    assert!(actions.contains(&LinkAction::RemoveFile));
    assert_eq!(f.dest, Some(Node::Link(SRC.to_string())));
    assert_eq!(f.source, Some(Node::File("repo zshrc".to_string())));
}

#[test]
fn directory_removed_whole_before_linking() {
    let mut f = Fake {
        source: Some(Node::Dir(vec![])),
        dest: Some(Node::Dir(vec!["a".to_string(), "b".to_string()])),
        mutations: 0,
    };
    let (o, actions) = run(&mut f, "/home/ana/.config/nvim");
    assert_eq!(o, Outcome::Linked);
    assert!(actions.contains(&LinkAction::RemoveDir));
    assert_eq!(f.dest, Some(Node::Link(SRC.to_string())));
}

#[test]
fn link_elsewhere_replaced() {
    let mut f = Fake {
        source: Some(Node::Dir(vec![])),
        dest: Some(Node::Link("/old/nvim".to_string())),
        mutations: 0,
    };
    let (o, actions) = run(&mut f, "/home/ana/.config/nvim");
    assert_eq!(o, Outcome::Linked);
    assert!(actions.contains(&LinkAction::RemoveFile));
    assert_eq!(f.dest, Some(Node::Link(SRC.to_string())));
}

#[test]
fn nothing_on_either_side_skipped() {
    let mut f = Fake { source: None, dest: None, mutations: 0 };
    let (o, _) = run(&mut f, "/home/ana/.config/nvim");
    assert_eq!(o, Outcome::Skipped);
    assert_eq!(f.mutations, 0);
}

#[test]
fn empty_destination_does_nothing() {
    let mut f = Fake { source: Some(Node::File("x".to_string())), dest: None, mutations: 0 };
    let (o, actions) = run(&mut f, "");
    assert_eq!(o, Outcome::Skipped);
    assert_eq!(actions.len(), 1);
    assert_eq!(f.mutations, 0);
}

#[test]
fn failed_move_stops() {
    let src = SRC.to_string();
    let a = link_step(&LinkAction::Probe, &LinkEvent::Probed { source_exists: false, dest_exists: true }, &src);
    assert_eq!(a, LinkAction::MoveDestToSource);
    let b = link_step(&a, &LinkEvent::Moved { ok: false }, &src);
    assert_eq!(b, LinkAction::Finish { outcome: Outcome::Failed { reason: Failure::Move } });
}

#[test]
fn failed_removal_stops() {
    let src = SRC.to_string();
    let b = link_step(&LinkAction::RemoveDir, &LinkEvent::Removed { ok: false }, &src);
    assert_eq!(b, LinkAction::Finish { outcome: Outcome::Failed { reason: Failure::Remove } });
}

#[test]
fn failed_symlink_reported() {
    let src = SRC.to_string();
    let b = link_step(&LinkAction::CreateSymlink, &LinkEvent::SymlinkMade { ok: false }, &src);
    assert_eq!(b, LinkAction::Finish { outcome: Outcome::Failed { reason: Failure::Symlink } });
}

#[test]
fn mismatched_event_fails() {
    let src = SRC.to_string();
    let b = link_step(&LinkAction::Probe, &LinkEvent::Moved { ok: true }, &src);
    assert_eq!(b, LinkAction::Finish { outcome: Outcome::Failed { reason: Failure::UnexpectedEvent } });
    let done = LinkAction::Finish { outcome: Outcome::Linked };
    assert_eq!(link_step(&done, &LinkEvent::Moved { ok: true }, &src), done);
}

#[test]
fn link_to_same_path_written_differently_skipped() {
    let source_abs = "/repo/./nvim".to_string();
    let a = link_step(
        &LinkAction::InspectDest,
        &LinkEvent::Inspected { node: DestNode::Symlink { target: "/repo/nvim".to_string() } },
        &source_abs,
    );
    assert_eq!(a, LinkAction::Finish { outcome: Outcome::Skipped });
    let b = link_step(
        &LinkAction::InspectDest,
        &LinkEvent::Inspected { node: DestNode::Symlink { target: "/repo//nvim/".to_string() } },
        &"/repo/nvim".to_string(),
    );
    assert_eq!(b, LinkAction::Finish { outcome: Outcome::Skipped });
}

#[test]
fn link_to_other_path_replaced() {
    let a = link_step(
        &LinkAction::InspectDest,
        &LinkEvent::Inspected { node: DestNode::Symlink { target: "repo/nvim".to_string() } },
        &"/repo/nvim".to_string(),
    );
    assert_eq!(a, LinkAction::RemoveFile);
}
