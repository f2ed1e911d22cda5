use vstd::prelude::*;
use crate::recipe::{InstallRecipe, InstallStep, StepModel};

verus! {

/// How a menu node behaves when the user picks it.
#[derive(Clone, Copy, Debug, PartialEq, Eq, Structural)]
pub enum NodeKind {
    /// Any number of these nodes in a group may be picked.
    PickMany,
    /// At most one of these nodes in a group may be picked.
    PickUpToOne,
    /// One of these nodes in a group must be picked.
    PickExactlyOne,
    /// Just displays text; not pickable.
    Text,
    /// The user picks this to say they are done.
    AllDone,
}

/// What a menu node shows, and the recipe it stands for.
#[derive(Clone, Debug)]
pub struct MenuEntry {
    pub message: String,
    pub data: InstallRecipe,
}

/// A node of the menu, with its children in display order.
#[derive(Debug)]
pub struct MenuNode {
    pub kind: NodeKind,
    pub entry: MenuEntry,
    /// If this is `true`, this node must be picked before any of its
    /// children can be picked.
    pub pick_children_needs_self: bool,
    pub children: Vec<MenuNode>,
}

/// The whole menu, under its root.
#[derive(Debug)]
pub struct MenuTree {
    pub root: MenuNode,
}

/// A menu node as plain values.
pub struct NodeModel {
    pub kind: NodeKind,
    pub message: Seq<char>,
    pub recipe: Seq<StepModel>,
    pub pick_children_needs_self: bool,
    pub children: Seq<NodeModel>,
}

/// The model of a menu node.
pub open spec fn node_model(n: MenuNode) -> NodeModel
    decreases n, 1int,
{
    NodeModel {
        kind: n.kind,
        message: n.entry.message@,
        recipe: n.entry.data@,
        pick_children_needs_self: n.pick_children_needs_self,
        children: children_model(n.children@),
    }
}

/// The models of a sequence of menu nodes.
pub open spec fn children_model(s: Seq<MenuNode>) -> Seq<NodeModel>
    decreases s, 0int,
{
    if s.len() == 0 {
        Seq::empty()
    } else {
        seq![node_model(s[0])] + children_model(s.drop_first())
    }
}

impl View for MenuNode {
    type V = NodeModel;

    open spec fn view(&self) -> NodeModel {
        node_model(*self)
    }
}


/// The model of a node with the given parts.
pub open spec fn node_spec(
    kind: NodeKind,
    message: Seq<char>,
    recipe: Seq<StepModel>,
    pick_children_needs_self: bool,
    children: Seq<NodeModel>,
) -> NodeModel {
    NodeModel { kind, message, recipe, pick_children_needs_self, children }
}

/// The recipe of a node that installs nothing.
pub open spec fn noop_recipe() -> Seq<StepModel> {
    seq![StepModel::NoOp]
}

/// A text node: a heading with no recipe of its own.
pub open spec fn text_spec(message: Seq<char>) -> NodeModel {
    node_spec(NodeKind::Text, message, noop_recipe(), false, seq![])
}

/// A rust channel, one of which must be picked.
pub open spec fn channel_spec(channel: Seq<char>) -> NodeModel {
    node_spec(NodeKind::PickExactlyOne, channel, seq![StepModel::RustChannel(channel)], false, seq![])
}

/// The recipe that installs a snap.
pub open spec fn snap_recipe(program: Seq<char>, classic_confinement: bool) -> Seq<StepModel> {
    seq![StepModel::Snap { package_name: program, classic_confinement }]
}

/// The recipe that installs a package of the distribution.
pub open spec fn apt_recipe(package_name: Seq<char>) -> Seq<StepModel> {
    seq![StepModel::Apt(package_name)]
}

/// The question shown for an alias.
pub open spec fn alias_message(shortcut: Seq<char>, cmd_name: Seq<char>) -> Seq<char> {
    "alias "@ + shortcut + "="@ + cmd_name + "?"@
}

/// The recipe that makes `shortcut` an alias of `cmd_name`.
pub open spec fn alias_recipe(shortcut: Seq<char>, cmd_name: Seq<char>) -> Seq<StepModel> {
    seq![StepModel::MakeAlias { name: shortcut, command: cmd_name }]
}

/// A childless node of the given kind for the given message and recipe.
pub open spec fn leaf_spec(kind: NodeKind, message: Seq<char>, recipe: Seq<StepModel>) -> NodeModel {
    node_spec(kind, message, recipe, false, seq![])
}

/// The menu: a rust channel, an IDE, developer tools, command-line tools
/// (two of them with an optional alias), and the final "done" entry.
pub open spec fn menu_spec() -> NodeModel {
    node_spec(
        NodeKind::Text,
        "Customize your devpack-for-rust."@,
        noop_recipe(),
        false,
        seq![
            node_spec(NodeKind::Text, "Pick a rust channel"@, noop_recipe(), false, seq![
                channel_spec("stable"@),
                channel_spec("beta"@),
                channel_spec("nightly"@),
            ]),
            node_spec(NodeKind::Text, "Pick an IDE?"@, noop_recipe(), false, seq![
                leaf_spec(
                    NodeKind::PickUpToOne,
                    "Helix: A post-modern text editor (https://helix-editor.com/)"@,
                    snap_recipe("helix"@, true),
                ),
                leaf_spec(
                    NodeKind::PickUpToOne,
                    "VSCode: Your home for multi-agent development (https://code.visualstudio.com/)"@,
                    snap_recipe("code"@, true),
                ),
                leaf_spec(
                    NodeKind::PickUpToOne,
                    "RustRover: JetBrains' powerful IDE for Rust (https://www.jetbrains.com/rust/)"@,
                    snap_recipe("rustrover"@, true),
                ),
            ]),
            node_spec(NodeKind::Text, "Developer tools"@, noop_recipe(), false, seq![
                leaf_spec(
                    NodeKind::PickMany,
                    "just: handy way to save and run project-specific commands (https://github.com/casey/just)"@,
                    snap_recipe("just"@, true),
                ),
                leaf_spec(
                    NodeKind::PickMany,
                    "bacon: background code checker (https://github.com/canop/bacon)"@,
                    apt_recipe("bacon"@),
                ),
                leaf_spec(
                    NodeKind::PickMany,
                    "hyperfine: command-line benchmarking tool (https://github.com/sharkdp/hyperfine)"@,
                    apt_recipe("hyperfine"@),
                ),
            ]),
            node_spec(NodeKind::Text, "Oxidize your command line?"@, noop_recipe(), false, seq![
                leaf_spec(
                    NodeKind::PickMany,
                    "du-dust: a more intuitive version of du (https://github.com/bootandy/dust)"@,
                    apt_recipe("du-dust"@),
                ),
                node_spec(
                    NodeKind::PickMany,
                    "fd-find: simple, fast and user-friendly alternative to 'find' (https://github.com/sharkdp/fd)"@,
                    apt_recipe("fd-find"@),
                    true,
                    seq![
                        leaf_spec(
                            NodeKind::PickUpToOne,
                            alias_message("fd"@, "fdfind"@),
                            alias_recipe("fd"@, "fdfind"@),
                        ),
                    ],
                ),
                node_spec(
                    NodeKind::PickMany,
                    "ripgrep: recursively search directories (https://github.com/BurntSushi/ripgrep)"@,
                    apt_recipe("ripgrep"@),
                    true,
                    seq![
                        leaf_spec(
                            NodeKind::PickUpToOne,
                            alias_message("rg"@, "ripgrep"@),
                            alias_recipe("rg"@, "ripgrep"@),
                        ),
                    ],
                ),
                leaf_spec(
                    NodeKind::PickMany,
                    "sd: intuitive find & replace cli (https://github.com/chmln/sd)"@,
                    apt_recipe("sd"@),
                ),
                leaf_spec(
                    NodeKind::PickMany,
                    "xh: friendly and fast tool for sending HTTP requests (https://github.com/ducaale/xh)"@,
                    apt_recipe("xh"@),
                ),
            ]),
            leaf_spec(NodeKind::AllDone, "All done?"@, noop_recipe()),
        ],
    )
}

/// Appending a node to a sequence of nodes appends its model to their models.
proof fn lemma_children_model_push(s: Seq<MenuNode>, x: MenuNode)
    ensures
        children_model(s.push(x)) == children_model(s).push(node_model(x)),
    decreases s.len(),
{
    // both sides start with the model of the first node, then the rest
    if s.len() == 0 {
        assert(s.push(x).drop_first() =~= Seq::<MenuNode>::empty());
        assert(children_model(Seq::<MenuNode>::empty()) == Seq::<NodeModel>::empty());
    } else {
        assert(s.push(x).drop_first() =~= s.drop_first().push(x));
        lemma_children_model_push(s.drop_first(), x);
    }
    assert(children_model(s.push(x)) =~= children_model(s).push(node_model(x)));
}

impl MenuNode {
    /// A node with no children.
    pub fn new(kind: NodeKind, entry: MenuEntry, pick_children_needs_self: bool) -> (node: MenuNode)
        ensures
            node@ == node_spec(kind, entry.message@, entry.data@, pick_children_needs_self, seq![]),
    {
        let node = MenuNode { kind, entry, pick_children_needs_self, children: Vec::new() };
        assert(node@.children =~= Seq::<NodeModel>::empty());
        node
    }

    /// This node with `child` appended to its children.
    pub fn with_child(self, child: MenuNode) -> (node: MenuNode)
        ensures
            node@ == (NodeModel { children: self@.children.push(child@), ..self@ }),
    {
        let mut node = self;
        proof {
            lemma_children_model_push(node.children@, child);
        }
        node.children.push(child);
        node
    }

    /// This node with `pick_children_needs_self` set as given.
    pub fn with_pick_children_needs_self(self, pick_children_needs_self: bool) -> (node: MenuNode)
        ensures
            node@ == (NodeModel { pick_children_needs_self, ..self@ }),
    {
        let mut node = self;
        node.pick_children_needs_self = pick_children_needs_self;
        node
    }
}

/// A heading, which installs nothing.
fn text(msg: &str) -> (node: MenuNode)
    ensures
        node@ == text_spec(msg@),
{
    MenuNode::new(
        NodeKind::Text,
        MenuEntry { message: String::from_str(msg), data: InstallRecipe::noop() },
        false,
    )
}

/// A rust channel to pick.
fn rust_channel(channel: &str) -> (node: MenuNode)
    ensures
        node@ == channel_spec(channel@),
{
    let data = InstallRecipe::onestep(InstallStep::RustChannel(String::from_str(channel)));
    assert(data@ =~= seq![StepModel::RustChannel(channel@)]);
    MenuNode::new(
        NodeKind::PickExactlyOne,
        MenuEntry { data, message: String::from_str(channel) },
        false,
    )
}

/// The entry for a snap.
fn snap_step(blurb: &str, program: &str, classic_confinement: bool) -> (entry: MenuEntry)
    ensures
        entry.message@ == blurb@,
        entry.data@ == snap_recipe(program@, classic_confinement),
{
    let data = InstallRecipe::onestep(
        InstallStep::Snap { package_name: String::from_str(program), classic_confinement },
    );
    assert(data@ =~= snap_recipe(program@, classic_confinement));
    MenuEntry { message: String::from_str(blurb), data }
}

/// The entry for a package of the distribution.
fn apt_step(blurb: &str, package_name: &str) -> (entry: MenuEntry)
    ensures
        entry.message@ == blurb@,
        entry.data@ == apt_recipe(package_name@),
{
    let data = InstallRecipe::onestep(InstallStep::Apt(String::from_str(package_name)));
    assert(data@ =~= apt_recipe(package_name@));
    MenuEntry { message: String::from_str(blurb), data }
}

/// The entry for an alias.
fn alias_step(shortcut: &str, cmd_name: &str) -> (entry: MenuEntry)
    ensures
        entry.message@ == alias_message(shortcut@, cmd_name@),
        entry.data@ == alias_recipe(shortcut@, cmd_name@),
{
    let mut message = String::from_str("alias ");
    message.append(shortcut);
    message.append("=");
    message.append(cmd_name);
    message.append("?");
    let data = InstallRecipe::onestep(
        InstallStep::MakeAlias { name: String::from_str(shortcut), command: String::from_str(cmd_name) },
    );
    assert(data@ =~= alias_recipe(shortcut@, cmd_name@));
    MenuEntry { message, data }
}

/// The menu the user picks from.
pub fn make_tree() -> (tree: MenuTree)
    ensures
        tree.root@ == menu_spec(),
{
    let rust_version = text("Pick a rust channel")
        .with_child(rust_channel("stable"))
        .with_child(rust_channel("beta"))
        .with_child(rust_channel("nightly"));

    let ide = text("Pick an IDE?")
        .with_child(MenuNode::new(NodeKind::PickUpToOne, snap_step(
            "Helix: A post-modern text editor (https://helix-editor.com/)",
            "helix",
            true,
        ), false))
        .with_child(MenuNode::new(NodeKind::PickUpToOne, snap_step(
            "VSCode: Your home for multi-agent development (https://code.visualstudio.com/)",
            "code",
            true,
        ), false))
        .with_child(MenuNode::new(NodeKind::PickUpToOne, snap_step(
            "RustRover: JetBrains' powerful IDE for Rust (https://www.jetbrains.com/rust/)",
            "rustrover",
            true,
        ), false));

    let dev_tools = text("Developer tools")
        // just is available on both snap and apt,
        // but is more up-to-date on snap
        .with_child(MenuNode::new(NodeKind::PickMany, snap_step(
            "just: handy way to save and run project-specific commands (https://github.com/casey/just)",
            "just",
            true,
        ), false))
        .with_child(MenuNode::new(NodeKind::PickMany, apt_step(
            "bacon: background code checker (https://github.com/canop/bacon)",
            "bacon",
        ), false))
        .with_child(MenuNode::new(NodeKind::PickMany, apt_step(
            "hyperfine: command-line benchmarking tool (https://github.com/sharkdp/hyperfine)",
            "hyperfine",
        ), false));

    let extras = text("Oxidize your command line?")
        .with_child(MenuNode::new(NodeKind::PickMany, apt_step(
            "du-dust: a more intuitive version of du (https://github.com/bootandy/dust)",
            "du-dust",
        ), false))
        .with_child(
            MenuNode::new(NodeKind::PickMany, apt_step(
                "fd-find: simple, fast and user-friendly alternative to 'find' (https://github.com/sharkdp/fd)",
                "fd-find",
            ), false)
                .with_pick_children_needs_self(true)
                .with_child(MenuNode::new(NodeKind::PickUpToOne, alias_step("fd", "fdfind"), false)),
        )
        .with_child(
            MenuNode::new(NodeKind::PickMany, apt_step(
                "ripgrep: recursively search directories (https://github.com/BurntSushi/ripgrep)",
                "ripgrep",
            ), false)
                .with_pick_children_needs_self(true)
                .with_child(MenuNode::new(NodeKind::PickUpToOne, alias_step("rg", "ripgrep"), false)),
        )
        .with_child(MenuNode::new(NodeKind::PickMany, apt_step(
            "sd: intuitive find & replace cli (https://github.com/chmln/sd)",
            "sd",
        ), false))
        .with_child(MenuNode::new(NodeKind::PickMany, apt_step(
            "xh: friendly and fast tool for sending HTTP requests (https://github.com/ducaale/xh)",
            "xh",
        ), false));

    let all_done = MenuNode::new(
        NodeKind::AllDone,
        MenuEntry { message: String::from_str("All done?"), data: InstallRecipe::noop() },
        false,
    );

    let root = text("Customize your devpack-for-rust.")
        .with_child(rust_version)
        .with_child(ide)
        .with_child(dev_tools)
        .with_child(extras)
        .with_child(all_done);
    assert(root@.children[0].children =~= menu_spec().children[0].children);
    assert(root@.children[1].children =~= menu_spec().children[1].children);
    assert(root@.children[2].children =~= menu_spec().children[2].children);
    assert(root@.children[3].children[1].children =~= menu_spec().children[3].children[1].children);
    assert(root@.children[3].children[2].children =~= menu_spec().children[3].children[2].children);
    assert(root@.children[3].children =~= menu_spec().children[3].children);
    assert(root@.children =~= menu_spec().children);
    MenuTree { root }
}

// ---------------------------------------------------------------------------
// Laws of the menu

/// Whether `p` holds of `n` and of every node below it.
pub open spec fn every_node(n: NodeModel, p: spec_fn(NodeModel) -> bool) -> bool
    decreases n,
{
    &&& p(n)
    &&& forall|i: int| 0 <= i < n.children.len() ==> every_node(#[trigger] n.children[i], p)
}

/// Whether a node only shows text, or ends the menu.
pub open spec fn is_unpickable(n: NodeModel) -> bool {
    n.kind == NodeKind::Text || n.kind == NodeKind::AllDone
}

/// Whether a node stands for an alias.
pub open spec fn is_alias_node(n: NodeModel) -> bool {
    n.recipe.len() == 1 && n.recipe[0] is MakeAlias
}

/// `p` holds of every node of a tree at most four levels deep when it holds
/// of the root and of every node of the next three levels, and the fourth
/// level has no children.
proof fn lemma_every_node_of_shallow_tree(n: NodeModel, p: spec_fn(NodeModel) -> bool)
    requires
        p(n),
        forall|i: int| 0 <= i < n.children.len() ==> p(#[trigger] n.children[i]),
        forall|i: int, j: int|
            0 <= i < n.children.len() && 0 <= j < n.children[i].children.len() ==> p(
                #[trigger] n.children[i].children[j],
            ),
        forall|i: int, j: int, k: int|
            0 <= i < n.children.len() && 0 <= j < n.children[i].children.len() && 0 <= k
                < n.children[i].children[j].children.len() ==> {
                &&& p(#[trigger] n.children[i].children[j].children[k])
                &&& n.children[i].children[j].children[k].children.len() == 0
            },
    ensures
        every_node(n, p),
{
    assert forall|i: int| 0 <= i < n.children.len() implies every_node(#[trigger] n.children[i], p) by {
        let c = n.children[i];
        assert forall|j: int| 0 <= j < c.children.len() implies every_node(#[trigger] c.children[j], p) by {
            let d = c.children[j];
            assert forall|k: int| 0 <= k < d.children.len() implies every_node(#[trigger] d.children[k], p) by {
                assert(d.children[k].children.len() == 0);
            }
        }
    }
}

/// Headings and the final "done" entry install nothing: their recipe is the
/// no-op recipe.
pub proof fn lemma_unpickable_nodes_install_nothing()
    ensures
        every_node(menu_spec(), |n: NodeModel| is_unpickable(n) ==> n.recipe == noop_recipe()),
{
    lemma_every_node_of_shallow_tree(
        menu_spec(),
        |n: NodeModel| is_unpickable(n) ==> n.recipe == noop_recipe(),
    );
}

/// The menu ends with its one "done" entry: the root's last child is the only
/// node of kind `AllDone`.
pub proof fn lemma_menu_ends_with_done()
    ensures
        menu_spec().children.last().kind == NodeKind::AllDone,
        menu_spec().kind != NodeKind::AllDone,
        forall|i: int|
            0 <= i < menu_spec().children.len() - 1 ==> every_node(
                #[trigger] menu_spec().children[i],
                |n: NodeModel| n.kind != NodeKind::AllDone,
            ),
{
    let without_done = NodeModel { children: menu_spec().children.drop_last(), ..menu_spec() };
    let p = |n: NodeModel| n.kind != NodeKind::AllDone;
    lemma_every_node_of_shallow_tree(without_done, p);
    assert forall|i: int| 0 <= i < menu_spec().children.len() - 1 implies every_node(
        #[trigger] menu_spec().children[i],
        p,
    ) by {
        assert(without_done.children[i] == menu_spec().children[i]);
    }
}

/// An alias can only be picked together with the program it names: a node
/// must be picked before its children exactly when it has an alias among
/// them; alias entries are picked up to one and have no children.
pub proof fn lemma_aliases_need_their_program()
    ensures
        every_node(
            menu_spec(),
            |n: NodeModel|
                n.pick_children_needs_self <==> (exists|i: int|
                    0 <= i < n.children.len() && is_alias_node(#[trigger] n.children[i])),
        ),
        every_node(
            menu_spec(),
            |n: NodeModel| is_alias_node(n) ==> n.kind == NodeKind::PickUpToOne && n.children.len() == 0,
        ),
        !is_alias_node(menu_spec()),
{
    // the two programs with an alias
    assert(is_alias_node(menu_spec().children[3].children[1].children[0]));
    assert(is_alias_node(menu_spec().children[3].children[2].children[0]));
    lemma_every_node_of_shallow_tree(
        menu_spec(),
        |n: NodeModel|
            n.pick_children_needs_self <==> (exists|i: int|
                0 <= i < n.children.len() && is_alias_node(#[trigger] n.children[i])),
    );
    lemma_every_node_of_shallow_tree(
        menu_spec(),
        |n: NodeModel| is_alias_node(n) ==> n.kind == NodeKind::PickUpToOne && n.children.len() == 0,
    );
}

/// How each section of the menu is picked: exactly one rust channel, each
/// setting that channel; up to one IDE, each a snap with classic
/// confinement; and any number of developer tools and command-line tools,
/// each installing one package.
pub proof fn lemma_menu_sections_pick_as_documented()
    ensures
        ({
            let m = menu_spec();
            let channels = m.children[0];
            let ides = m.children[1];
            let dev_tools = m.children[2];
            let extras = m.children[3];
            &&& m.children.len() == 5
            &&& channels.message == "Pick a rust channel"@ && channels.kind == NodeKind::Text
            &&& channels.children.len() == 3
            &&& forall|j: int| 0 <= j < channels.children.len() ==> {
                &&& (#[trigger] channels.children[j]).kind == NodeKind::PickExactlyOne
                &&& channels.children[j].recipe == seq![StepModel::RustChannel(channels.children[j].message)]
            }
            &&& ides.message == "Pick an IDE?"@ && ides.kind == NodeKind::Text
            &&& ides.children.len() == 3
            &&& forall|j: int| 0 <= j < ides.children.len() ==> {
                &&& (#[trigger] ides.children[j]).kind == NodeKind::PickUpToOne
                &&& ides.children[j].recipe.len() == 1
                &&& ides.children[j].recipe[0] matches StepModel::Snap { classic_confinement, .. }
                    && classic_confinement
            }
            &&& dev_tools.message == "Developer tools"@ && dev_tools.kind == NodeKind::Text
            &&& dev_tools.children.len() == 3
            &&& forall|j: int| 0 <= j < dev_tools.children.len() ==> {
                &&& (#[trigger] dev_tools.children[j]).kind == NodeKind::PickMany
                &&& dev_tools.children[j].recipe.len() == 1
            }
            &&& extras.message == "Oxidize your command line?"@ && extras.kind == NodeKind::Text
            &&& extras.children.len() == 5
            &&& forall|j: int| 0 <= j < extras.children.len() ==> {
                &&& (#[trigger] extras.children[j]).kind == NodeKind::PickMany
                &&& extras.children[j].recipe.len() == 1
                &&& extras.children[j].recipe[0] is Apt
            }
        }),
{
}

/// The package a tool entry installs: the snap or the archive package of
/// its one step.
pub open spec fn package_of(n: NodeModel) -> Seq<char> {
    match n.recipe[0] {
        StepModel::Snap { package_name, .. } => package_name,
        StepModel::Apt(package_name) => package_name,
        _ => Seq::empty(),
    }
}

/// Whether `message` names `name` first, followed by a colon.
pub open spec fn names_first(message: Seq<char>, name: Seq<char>) -> bool {
    &&& message.len() > name.len()
    &&& message.subrange(0, name.len() as int) == name
    &&& message[name.len() as int] == ':'
}

/// Each developer tool and command-line tool is shown under the name of the
/// package it installs, and each alias entry asks about exactly the alias it
/// makes: `alias <name>=<command>?`.
pub proof fn lemma_entries_show_what_they_install()
    ensures
        forall|j: int|
            0 <= j < menu_spec().children[2].children.len() ==> names_first(
                (#[trigger] menu_spec().children[2].children[j]).message,
                package_of(menu_spec().children[2].children[j]),
            ),
        forall|j: int|
            0 <= j < menu_spec().children[3].children.len() ==> names_first(
                (#[trigger] menu_spec().children[3].children[j]).message,
                package_of(menu_spec().children[3].children[j]),
            ),
        every_node(
            menu_spec(),
            |n: NodeModel|
                is_alias_node(n) ==> n.message == "alias "@ + n.recipe[0]->MakeAlias_name + "="@
                    + n.recipe[0]->MakeAlias_command + "?"@,
        ),
{
    let dev = menu_spec().children[2].children;
    let extras = menu_spec().children[3].children;
    reveal_strlit("just: handy way to save and run project-specific commands (https://github.com/casey/just)");
    reveal_strlit("just");
    reveal_strlit("bacon: background code checker (https://github.com/canop/bacon)");
    reveal_strlit("bacon");
    reveal_strlit("hyperfine: command-line benchmarking tool (https://github.com/sharkdp/hyperfine)");
    reveal_strlit("hyperfine");
    reveal_strlit("du-dust: a more intuitive version of du (https://github.com/bootandy/dust)");
    reveal_strlit("du-dust");
    reveal_strlit("fd-find: simple, fast and user-friendly alternative to 'find' (https://github.com/sharkdp/fd)");
    reveal_strlit("fd-find");
    reveal_strlit("ripgrep: recursively search directories (https://github.com/BurntSushi/ripgrep)");
    reveal_strlit("ripgrep");
    reveal_strlit("sd: intuitive find & replace cli (https://github.com/chmln/sd)");
    reveal_strlit("sd");
    reveal_strlit("xh: friendly and fast tool for sending HTTP requests (https://github.com/ducaale/xh)");
    reveal_strlit("xh");
    assert(dev[0].message.subrange(0, 4) =~= "just"@);
    assert(names_first(dev[0].message, package_of(dev[0])));
    assert(dev[1].message.subrange(0, 5) =~= "bacon"@);
    assert(names_first(dev[1].message, package_of(dev[1])));
    assert(dev[2].message.subrange(0, 9) =~= "hyperfine"@);
    assert(names_first(dev[2].message, package_of(dev[2])));
    assert(extras[0].message.subrange(0, 7) =~= "du-dust"@);
    assert(names_first(extras[0].message, package_of(extras[0])));
    assert(extras[1].message.subrange(0, 7) =~= "fd-find"@);
    assert(names_first(extras[1].message, package_of(extras[1])));
    assert(extras[2].message.subrange(0, 7) =~= "ripgrep"@);
    assert(names_first(extras[2].message, package_of(extras[2])));
    assert(extras[3].message.subrange(0, 2) =~= "sd"@);
    assert(names_first(extras[3].message, package_of(extras[3])));
    assert(extras[4].message.subrange(0, 2) =~= "xh"@);
    assert(names_first(extras[4].message, package_of(extras[4])));
    lemma_every_node_of_shallow_tree(
        menu_spec(),
        |n: NodeModel|
            is_alias_node(n) ==> n.message == "alias "@ + n.recipe[0]->MakeAlias_name + "="@
                + n.recipe[0]->MakeAlias_command + "?"@,
    );
}

} // verus!
