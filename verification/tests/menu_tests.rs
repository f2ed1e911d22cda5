use devpack_for_rust::recipe::{InstallRecipe, InstallStep};
use devpack_for_rust::selection_tree::{make_tree, MenuNode, NodeKind};

fn only_step(node: &MenuNode) -> &InstallStep {
    assert_eq!(node.entry.data.steps.len(), 1);
    &node.entry.data.steps[0]
}

fn all_nodes<'a>(node: &'a MenuNode, out: &mut Vec<&'a MenuNode>) {
    out.push(node);
    for child in &node.children {
        all_nodes(child, out);
    }
}

#[test]
fn recipes_are_built_from_steps() {
    let recipe = InstallRecipe::new(vec![InstallStep::NoOp, InstallStep::Apt("sd".to_string())]);
    assert_eq!(recipe.steps.len(), 2);
    assert!(matches!(recipe.steps[1], InstallStep::Apt(ref p) if p == "sd"));
    let one = InstallRecipe::onestep(InstallStep::CargoInstall("bat".to_string()));
    assert_eq!(one.steps.len(), 1);
    assert!(matches!(one.steps[0], InstallStep::CargoInstall(ref p) if p == "bat"));
    let noop = InstallRecipe::noop();
    assert_eq!(noop.steps.len(), 1);
    assert!(matches!(noop.steps[0], InstallStep::NoOp));
}

#[test]
fn menu_has_its_sections_in_order() {
    let tree = make_tree();
    let root = &tree.root;
    assert_eq!(root.kind, NodeKind::Text);
    assert_eq!(root.entry.message, "Customize your devpack-for-rust.");
    let titles: Vec<&str> = root.children.iter().map(|c| c.entry.message.as_str()).collect();
    assert_eq!(
        titles,
        vec![
            "Pick a rust channel",
            "Pick an IDE?",
            "Developer tools",
            "Oxidize your command line?",
            "All done?"
        ]
    );
    assert_eq!(root.children[4].kind, NodeKind::AllDone);
}

#[test]
fn rust_channels_are_exclusive() {
    let tree = make_tree();
    let channels = &tree.root.children[0].children;
    let names: Vec<&str> = channels.iter().map(|c| c.entry.message.as_str()).collect();
    assert_eq!(names, vec!["stable", "beta", "nightly"]);
    for c in channels {
        assert_eq!(c.kind, NodeKind::PickExactlyOne);
        assert!(matches!(only_step(c), InstallStep::RustChannel(ch) if *ch == c.entry.message));
    }
}

#[test]
fn ides_are_classic_snaps_picked_up_to_one() {
    let tree = make_tree();
    let ides = &tree.root.children[1].children;
    let programs: Vec<String> = ides
        .iter()
        .map(|n| {
            assert_eq!(n.kind, NodeKind::PickUpToOne);
            match only_step(n) {
                InstallStep::Snap { package_name, classic_confinement } => {
                    assert!(*classic_confinement);
                    package_name.clone()
                }
                _ => panic!("an IDE is installed with snap"),
            }
        })
        .collect();
    assert_eq!(programs, vec!["helix", "code", "rustrover"]);
    assert_eq!(
        ides[0].entry.message,
        "Helix: A post-modern text editor (https://helix-editor.com/)"
    );
}

#[test]
fn developer_tools_and_extras() {
    let tree = make_tree();
    let dev = &tree.root.children[2].children;
    assert!(matches!(only_step(&dev[0]), InstallStep::Snap { package_name, classic_confinement: true } if package_name == "just"));
    assert!(matches!(only_step(&dev[1]), InstallStep::Apt(p) if p == "bacon"));
    assert!(matches!(only_step(&dev[2]), InstallStep::Apt(p) if p == "hyperfine"));
    assert_eq!(
        dev[0].entry.message,
        "just: handy way to save and run project-specific commands (https://github.com/casey/just)"
    );
    let extras = &tree.root.children[3].children;
    let packages: Vec<String> = extras
        .iter()
        .map(|n| match only_step(n) {
            InstallStep::Apt(p) => p.clone(),
            _ => panic!("extras come from apt"),
        })
        .collect();
    assert_eq!(packages, vec!["du-dust", "fd-find", "ripgrep", "sd", "xh"]);
    for n in extras {
        assert_eq!(n.kind, NodeKind::PickMany);
    }
}

#[test]
fn aliases_hang_under_their_programs() {
    let tree = make_tree();
    let extras = &tree.root.children[3].children;
    let fd = &extras[1];
    assert!(fd.pick_children_needs_self);
    assert_eq!(fd.children.len(), 1);
    assert_eq!(fd.children[0].kind, NodeKind::PickUpToOne);
    assert_eq!(fd.children[0].entry.message, "alias fd=fdfind?");
    assert!(matches!(only_step(&fd.children[0]), InstallStep::MakeAlias { name, command } if name == "fd" && command == "fdfind"));
    let rg = &extras[2];
    assert!(rg.pick_children_needs_self);
    assert_eq!(rg.children[0].entry.message, "alias rg=ripgrep?");
    assert!(matches!(only_step(&rg.children[0]), InstallStep::MakeAlias { name, command } if name == "rg" && command == "ripgrep"));
}

#[test]
fn headings_install_nothing_and_done_is_last() {
    let tree = make_tree();
    let mut nodes = Vec::new();
    all_nodes(&tree.root, &mut nodes);
    assert_eq!(nodes.len(), 22);
    let mut done = 0;
    for n in &nodes {
        if n.kind == NodeKind::Text || n.kind == NodeKind::AllDone {
            assert!(matches!(only_step(n), InstallStep::NoOp));
        }
        if n.kind == NodeKind::AllDone {
            done += 1;
        }
    }
    assert_eq!(done, 1);
}
