//! Deployment metadata: the nodes of a flake and the profiles to deploy to
//! each of them.
//!
//! A flake gives settings at three levels: for the whole deployment, for a
//! node, and for a profile of a node. A [`Deploy`] holds, for each profile,
//! the settings that are in force for it.

use crate::process::{push_arg, Command, CommandView};
use crate::text::{
    chain, clone_optional, clone_strings, decimal, decimal_text, join, joined, optional_text,
    string_views,
};
use vstd::prelude::*;

verus! {

/// The settings that can be given at every level.
#[derive(Debug, PartialEq, Eq)]
pub struct GenericSettings {
    pub ssh_user: Option<String>,
    pub user: Option<String>,
    pub ssh_opts: Vec<String>,
    pub fast_connection: Option<bool>,
    pub auto_rollback: Option<bool>,
    pub confirm_timeout: Option<u16>,
    pub temp_path: Option<String>,
    pub magic_rollback: Option<bool>,
    pub sudo: Option<String>,
}

/// A profile as the flake gives it.
#[derive(Debug, PartialEq, Eq)]
pub struct NixProfile {
    pub path: Option<String>,
    pub profile_path: Option<String>,
    pub generic_settings: GenericSettings,
}

/// A node as the flake gives it. No two of its profiles share a name.
#[derive(Debug, PartialEq, Eq)]
pub struct NixNode {
    pub hostname: String,
    pub profiles: Vec<(String, NixProfile)>,
    pub profiles_order: Vec<String>,
    pub generic_settings: GenericSettings,
}

/// A deployment as the flake gives it. No two of its nodes share a name.
#[derive(Debug, PartialEq, Eq)]
pub struct NixData {
    pub generic_settings: GenericSettings,
    pub nodes: Vec<(String, NixNode)>,
}

/// A profile with the settings that are in force for it.
#[derive(Debug, PartialEq, Eq)]
pub struct Profile {
    pub path: Option<String>,
    pub profile_path: Option<String>,
    pub ssh_user: Option<String>,
    pub user: Option<String>,
    pub ssh_opts: Option<String>,
    pub fast_connection: Option<bool>,
    pub auto_rollback: Option<bool>,
    pub confirm_timeout: Option<u16>,
    pub temp_path: Option<String>,
    pub magic_rollback: Option<bool>,
    pub sudo: Option<String>,
}

/// A node with its profiles, each under its name.
#[derive(Debug, PartialEq, Eq)]
pub struct Node {
    pub hostname: String,
    pub profiles: Vec<(String, Profile)>,
    pub profiles_order: Vec<String>,
}

/// A deployment: its nodes, each under its name.
#[derive(Debug, PartialEq, Eq)]
pub struct Deploy {
    pub nodes: Vec<(String, Node)>,
}

/// The mathematical value of a [`GenericSettings`].
pub struct GenericSettingsView {
    pub ssh_user: Option<Seq<char>>,
    pub user: Option<Seq<char>>,
    pub ssh_opts: Seq<Seq<char>>,
    pub fast_connection: Option<bool>,
    pub auto_rollback: Option<bool>,
    pub confirm_timeout: Option<u16>,
    pub temp_path: Option<Seq<char>>,
    pub magic_rollback: Option<bool>,
    pub sudo: Option<Seq<char>>,
}

/// The mathematical value of a [`NixProfile`].
pub struct NixProfileView {
    pub path: Option<Seq<char>>,
    pub profile_path: Option<Seq<char>>,
    pub generic_settings: GenericSettingsView,
}

/// The mathematical value of a [`NixNode`].
pub struct NixNodeView {
    pub hostname: Seq<char>,
    pub profiles: Seq<(Seq<char>, NixProfileView)>,
    pub profiles_order: Seq<Seq<char>>,
    pub generic_settings: GenericSettingsView,
}

/// The mathematical value of a [`NixData`].
pub struct NixDataView {
    pub generic_settings: GenericSettingsView,
    pub nodes: Seq<(Seq<char>, NixNodeView)>,
}

/// The mathematical value of a [`Profile`].
pub struct ProfileView {
    pub path: Option<Seq<char>>,
    pub profile_path: Option<Seq<char>>,
    pub ssh_user: Option<Seq<char>>,
    pub user: Option<Seq<char>>,
    pub ssh_opts: Option<Seq<char>>,
    pub fast_connection: Option<bool>,
    pub auto_rollback: Option<bool>,
    pub confirm_timeout: Option<u16>,
    pub temp_path: Option<Seq<char>>,
    pub magic_rollback: Option<bool>,
    pub sudo: Option<Seq<char>>,
}

/// The mathematical value of a [`Node`].
pub struct NodeView {
    pub hostname: Seq<char>,
    pub profiles: Seq<(Seq<char>, ProfileView)>,
    pub profiles_order: Seq<Seq<char>>,
}

/// The mathematical value of a [`Deploy`].
pub struct DeployView {
    pub nodes: Seq<(Seq<char>, NodeView)>,
}

/// The values of rows under their names.
pub open spec fn named_views<T: View>(rows: Seq<(String, T)>) -> Seq<(Seq<char>, T::V)> {
    Seq::new(rows.len(), |i: int| (rows[i].0@, rows[i].1@))
}

impl View for GenericSettings {
    type V = GenericSettingsView;

    open spec fn view(&self) -> GenericSettingsView {
        GenericSettingsView {
            ssh_user: optional_text(self.ssh_user),
            user: optional_text(self.user),
            ssh_opts: string_views(self.ssh_opts@),
            fast_connection: self.fast_connection,
            auto_rollback: self.auto_rollback,
            confirm_timeout: self.confirm_timeout,
            temp_path: optional_text(self.temp_path),
            magic_rollback: self.magic_rollback,
            sudo: optional_text(self.sudo),
        }
    }
}

impl View for NixProfile {
    type V = NixProfileView;

    open spec fn view(&self) -> NixProfileView {
        NixProfileView {
            path: optional_text(self.path),
            profile_path: optional_text(self.profile_path),
            generic_settings: self.generic_settings@,
        }
    }
}

impl View for NixNode {
    type V = NixNodeView;

    open spec fn view(&self) -> NixNodeView {
        NixNodeView {
            hostname: self.hostname@,
            profiles: named_views(self.profiles@),
            profiles_order: string_views(self.profiles_order@),
            generic_settings: self.generic_settings@,
        }
    }
}

impl View for NixData {
    type V = NixDataView;

    open spec fn view(&self) -> NixDataView {
        NixDataView {
            generic_settings: self.generic_settings@,
            nodes: named_views(self.nodes@),
        }
    }
}

impl View for Profile {
    type V = ProfileView;

    open spec fn view(&self) -> ProfileView {
        ProfileView {
            path: optional_text(self.path),
            profile_path: optional_text(self.profile_path),
            ssh_user: optional_text(self.ssh_user),
            user: optional_text(self.user),
            ssh_opts: optional_text(self.ssh_opts),
            fast_connection: self.fast_connection,
            auto_rollback: self.auto_rollback,
            confirm_timeout: self.confirm_timeout,
            temp_path: optional_text(self.temp_path),
            magic_rollback: self.magic_rollback,
            sudo: optional_text(self.sudo),
        }
    }
}

impl View for Node {
    type V = NodeView;

    open spec fn view(&self) -> NodeView {
        NodeView {
            hostname: self.hostname@,
            profiles: named_views(self.profiles@),
            profiles_order: string_views(self.profiles_order@),
        }
    }
}

impl View for Deploy {
    type V = DeployView;

    open spec fn view(&self) -> DeployView {
        DeployView { nodes: named_views(self.nodes@) }
    }
}

/// `first` where it is set, else `second`.
pub open spec fn or<A>(first: Option<A>, second: Option<A>) -> Option<A> {
    if first is Some {
        first
    } else {
        second
    }
}

impl GenericSettingsView {
    /// These settings, with `other` filling in what is not set here. The
    /// SSH options of `other` come behind those that are here.
    pub open spec fn merge(self, other: GenericSettingsView) -> GenericSettingsView {
        GenericSettingsView {
            ssh_user: or(self.ssh_user, other.ssh_user),
            user: or(self.user, other.user),
            ssh_opts: self.ssh_opts + other.ssh_opts,
            fast_connection: or(self.fast_connection, other.fast_connection),
            auto_rollback: or(self.auto_rollback, other.auto_rollback),
            confirm_timeout: or(self.confirm_timeout, other.confirm_timeout),
            temp_path: or(self.temp_path, other.temp_path),
            magic_rollback: or(self.magic_rollback, other.magic_rollback),
            sudo: or(self.sudo, other.sudo),
        }
    }
}

/// The profile with the settings that are in force for it: what the
/// deployment sets comes first, then what the node sets, then what the
/// profile sets. The SSH options of the three levels are put into one line,
/// with a space between two options.
pub open spec fn profile_of(
    top: GenericSettingsView,
    node: GenericSettingsView,
    profile: NixProfileView,
) -> ProfileView {
    let merged = top.merge(node).merge(profile.generic_settings);
    ProfileView {
        path: profile.path,
        profile_path: profile.profile_path,
        ssh_user: merged.ssh_user,
        user: merged.user,
        ssh_opts: if merged.ssh_opts.len() == 0 {
            None
        } else {
            Some(joined(merged.ssh_opts, " "@))
        },
        fast_connection: merged.fast_connection,
        auto_rollback: merged.auto_rollback,
        confirm_timeout: merged.confirm_timeout,
        temp_path: merged.temp_path,
        magic_rollback: merged.magic_rollback,
        sudo: merged.sudo,
    }
}

/// The node with its profiles, each with the settings that are in force for
/// it.
pub open spec fn node_of(top: GenericSettingsView, node: NixNodeView) -> NodeView {
    NodeView {
        hostname: node.hostname,
        profiles: Seq::new(
            node.profiles.len(),
            |i: int|
                (node.profiles[i].0, profile_of(top, node.generic_settings, node.profiles[i].1)),
        ),
        profiles_order: node.profiles_order,
    }
}

/// The deployment that the data of a flake describes.
pub open spec fn deploy_of(data: NixDataView) -> DeployView {
    DeployView {
        nodes: Seq::new(
            data.nodes.len(),
            |i: int| (data.nodes[i].0, node_of(data.generic_settings, data.nodes[i].1)),
        ),
    }
}

impl Clone for GenericSettings {
    fn clone(&self) -> (copy: GenericSettings)
        ensures
            copy@ == self@,
    {
        GenericSettings {
            ssh_user: clone_optional(&self.ssh_user),
            user: clone_optional(&self.user),
            ssh_opts: clone_strings(&self.ssh_opts),
            fast_connection: self.fast_connection,
            auto_rollback: self.auto_rollback,
            confirm_timeout: self.confirm_timeout,
            temp_path: clone_optional(&self.temp_path),
            magic_rollback: self.magic_rollback,
            sudo: clone_optional(&self.sudo),
        }
    }
}

/// `first` where it is set, else `second`.
fn or_text(first: Option<String>, second: &Option<String>) -> (r: Option<String>)
    ensures
        optional_text(r) == or(optional_text(first), optional_text(*second)),
{
    match first {
        Some(text) => Some(text),
        None => clone_optional(second),
    }
}

/// `first` where it is set, else `second`.
fn or_value<A: Copy>(first: Option<A>, second: Option<A>) -> (r: Option<A>)
    ensures
        r == or(first, second),
{
    match first {
        Some(value) => Some(value),
        None => second,
    }
}

impl GenericSettings {
    /// These settings, with `other` filling in what is not set here.
    pub fn merge(self, other: &GenericSettings) -> (merged: GenericSettings)
        ensures
            merged@ == self@.merge(other@),
    {
        let mut ssh_opts = self.ssh_opts;
        let ghost before = ssh_opts@;
        let mut i: usize = 0;
        while i < other.ssh_opts.len()
            invariant
                i <= other.ssh_opts.len(),
                string_views(ssh_opts@) == string_views(before) + string_views(
                    other.ssh_opts@,
                ).take(i as int),
            decreases other.ssh_opts.len() - i,
        {
            let ghost so_far = ssh_opts@;
            ssh_opts.push(other.ssh_opts[i].clone());
            assert(string_views(ssh_opts@) =~= string_views(so_far).push(
                other.ssh_opts@[i as int]@,
            ));
            assert(string_views(other.ssh_opts@).take(i as int + 1) =~= string_views(
                other.ssh_opts@,
            ).take(i as int).push(other.ssh_opts@[i as int]@));
            i += 1;
        }
        assert(string_views(other.ssh_opts@).take(other.ssh_opts.len() as int) =~= string_views(
            other.ssh_opts@,
        ));
        GenericSettings {
            ssh_user: or_text(self.ssh_user, &other.ssh_user),
            user: or_text(self.user, &other.user),
            ssh_opts,
            fast_connection: or_value(self.fast_connection, other.fast_connection),
            auto_rollback: or_value(self.auto_rollback, other.auto_rollback),
            confirm_timeout: or_value(self.confirm_timeout, other.confirm_timeout),
            temp_path: or_text(self.temp_path, &other.temp_path),
            magic_rollback: or_value(self.magic_rollback, other.magic_rollback),
            sudo: or_text(self.sudo, &other.sudo),
        }
    }
}

/// The profile with the settings that are in force for it.
fn profile_from(top: &GenericSettings, node: &GenericSettings, profile: &NixProfile) -> (r: Profile)
    ensures
        r@ == profile_of(top@, node@, profile@),
{
    let merged = top.clone().merge(node).merge(&profile.generic_settings);
    let ssh_opts = if merged.ssh_opts.len() == 0 {
        None
    } else {
        Some(join(&merged.ssh_opts, " "))
    };
    Profile {
        path: clone_optional(&profile.path),
        profile_path: clone_optional(&profile.profile_path),
        ssh_user: merged.ssh_user,
        user: merged.user,
        ssh_opts,
        fast_connection: merged.fast_connection,
        auto_rollback: merged.auto_rollback,
        confirm_timeout: merged.confirm_timeout,
        temp_path: merged.temp_path,
        magic_rollback: merged.magic_rollback,
        sudo: merged.sudo,
    }
}

/// The node with its profiles, each with the settings that are in force for
/// it.
fn node_from(top: &GenericSettings, node: &NixNode) -> (r: Node)
    ensures
        r@ == node_of(top@, node@),
{
    let mut profiles: Vec<(String, Profile)> = Vec::new();
    let mut i: usize = 0;
    while i < node.profiles.len()
        invariant
            i <= node.profiles.len(),
            profiles@.len() == i,
            forall|k: int|
                0 <= k < i ==> (#[trigger] profiles@[k]).0@ == node.profiles@[k].0@
                    && profiles@[k].1@ == profile_of(
                    top@,
                    node.generic_settings@,
                    node.profiles@[k].1@,
                ),
        decreases node.profiles.len() - i,
    {
        let profile = profile_from(top, &node.generic_settings, &node.profiles[i].1);
        profiles.push((node.profiles[i].0.clone(), profile));
        i += 1;
    }
    assert(named_views(profiles@) =~= node_of(top@, node@).profiles);
    Node {
        hostname: node.hostname.clone(),
        profiles,
        profiles_order: clone_strings(&node.profiles_order),
    }
}

impl Deploy {
    /// The deployment that the data of a flake describes: every node and
    /// every profile of the data, under its name and in its place, each
    /// profile with the settings that are in force for it.
    pub fn from_eval_data(data: NixData) -> (deploy: Deploy)
        ensures
            deploy@ == deploy_of(data@),
    {
        let mut nodes: Vec<(String, Node)> = Vec::new();
        let mut i: usize = 0;
        while i < data.nodes.len()
            invariant
                i <= data.nodes.len(),
                nodes@.len() == i,
                forall|k: int|
                    0 <= k < i ==> (#[trigger] nodes@[k]).0@ == data.nodes@[k].0@ && nodes@[k].1@
                        == node_of(data.generic_settings@, data.nodes@[k].1@),
            decreases data.nodes.len() - i,
        {
            let node = node_from(&data.generic_settings, &data.nodes[i].1);
            nodes.push((data.nodes[i].0.clone(), node));
            i += 1;
        }
        assert(named_views(nodes@) =~= deploy_of(data@).nodes);
        Deploy { nodes }
    }
}

/// The rows under the name `name`.
pub open spec fn named<V>(name: Seq<char>) -> spec_fn((Seq<char>, V)) -> bool {
    |row: (Seq<char>, V)| row.0 == name
}

/// The nodes with one more node put under its name: in the place of the
/// node that has the name, or behind all nodes where none has it.
pub open spec fn with_node(
    nodes: Seq<(Seq<char>, NodeView)>,
    name: Seq<char>,
    node: NodeView,
) -> Seq<(Seq<char>, NodeView)> {
    match crate::table::first_match(nodes, named(name)) {
        Some(at) => nodes.update(at, (name, node)),
        None => nodes.push((name, node)),
    }
}

/// The nodes with more nodes put under their names, one after the other.
pub open spec fn with_nodes(
    nodes: Seq<(Seq<char>, NodeView)>,
    more: Seq<(Seq<char>, NodeView)>,
) -> Seq<(Seq<char>, NodeView)>
    decreases more.len(),
{
    if more.len() == 0 {
        nodes
    } else {
        with_nodes(with_node(nodes, more[0].0, more[0].1), more.drop_first())
    }
}

/// The deployment that the data of several flakes describe together, each
/// flake adding its nodes to those of the flakes before it.
pub open spec fn deployment_of(data: Seq<NixDataView>) -> Seq<(Seq<char>, NodeView)>
    decreases data.len(),
{
    if data.len() == 0 {
        Seq::empty()
    } else {
        with_nodes(deployment_of(data.drop_last()), deploy_of(data.last()).nodes)
    }
}

impl Deploy {
    /// The deployment without nodes.
    pub fn new() -> (deploy: Deploy)
        ensures
            deploy@.nodes == Seq::<(Seq<char>, NodeView)>::empty(),
    {
        let deploy = Deploy { nodes: Vec::new() };
        assert(deploy@.nodes =~= Seq::<(Seq<char>, NodeView)>::empty());
        deploy
    }

    /// Puts a node under its name: in the place of the node that has the
    /// name, or behind all nodes where none has it.
    pub fn insert(&mut self, name: String, node: Node)
        ensures
            final(self)@.nodes == with_node(old(self)@.nodes, name@, node@),
    {
        let ghost before = self@.nodes;
        let mut i: usize = 0;
        while i < self.nodes.len()
            invariant
                i <= self.nodes.len(),
                self@.nodes == before,
                *self == *old(self),
                forall|k: int| 0 <= k < i ==> !named::<NodeView>(name@)(#[trigger] before[k]),
            decreases self.nodes.len() - i,
        {
            if crate::text::str_eq(self.nodes[i].0.as_str(), name.as_str()) {
                proof {
                    crate::table::lemma_first_match_at(before, named(name@), i as int);
                }
                self.nodes.set(i, (name, node));
                assert(self@.nodes =~= before.update(i as int, (name@, node@)));
                return ;
            }
            i += 1;
        }
        proof {
            crate::table::lemma_first_match_none(before, named::<NodeView>(name@));
        }
        self.nodes.push((name, node));
        assert(self@.nodes =~= before.push((name@, node@)));
    }

    /// Puts the nodes of `other` under their names, one after the other.
    pub fn extend(&mut self, other: Deploy)
        ensures
            final(self)@.nodes == with_nodes(old(self)@.nodes, other@.nodes),
    {
        let mut rest = other.nodes;
        while rest.len() > 0
            invariant
                with_nodes(self@.nodes, named_views(rest@)) == with_nodes(
                    old(self)@.nodes,
                    other@.nodes,
                ),
            decreases rest.len(),
        {
            let ghost before = named_views(rest@);
            let (name, node) = rest.remove(0);
            assert(named_views(rest@) =~= before.drop_first());
            assert(before[0] == (name@, node@));
            self.insert(name, node);
        }
    }
}

/// The deployment that the data of several flakes describe together.
pub fn load_deployment_metadata(data: Vec<NixData>) -> (deploy: Deploy)
    ensures
        deploy@.nodes == deployment_of(crate::table::views(data@)),
{
    let mut deploy = Deploy::new();
    let mut rest = data;
    let ghost all = crate::table::views(data@);
    let ghost mut done: int = 0;
    while rest.len() > 0
        invariant
            0 <= done <= all.len(),
            crate::table::views(rest@) == all.subrange(done, all.len() as int),
            deploy@.nodes == deployment_of(all.take(done)),
        decreases rest.len(),
    {
        let ghost before = crate::table::views(rest@);
        let next = rest.remove(0);
        proof {
            assert(crate::table::views(rest@) =~= before.drop_first());
            assert(before[0] == next@);
            assert(all.take(done + 1).drop_last() =~= all.take(done));
            assert(all.take(done + 1).last() == next@);
            assert(before.drop_first() =~= all.subrange(done + 1, all.len() as int));
        }
        deploy.extend(Deploy::from_eval_data(next));
        proof {
            done = done + 1;
        }
    }
    proof {
        assert(all.take(done) =~= all);
    }
    deploy
}

/// The expression that takes the paths out of the nodes of a deployment, so
/// that listing the profiles builds none of them.
pub const NIX_NODES_WITHOUT_BUILD: &'static str =
    "\ndeploy: deploy // { \n   nodes = let \n        nixpkgs = builtins.getFlake \"github:nix/nixpkgs/7e52b35fe98481a279d89f9c145f8076d049d2b9\";\n    in \n    nixpkgs.lib.attrsets.filterAttrsRecursive (n: v: n != \"path\") deploy.nodes;\n}";

/// The command that asks for the deployment of a flake.
pub open spec fn deployment_command(flake: Seq<char>) -> CommandView {
    CommandView {
        program: "nix"@,
        args: seq!["eval"@, "--json"@, flake + "#deploy"@, "--apply"@, NIX_NODES_WITHOUT_BUILD@],
    }
}

/// The command `nix eval --json <flake>#deploy --apply <expression>`, which
/// prints the nodes and profiles of a flake without building a profile.
pub fn nix_eval(flake: &str) -> (command: Command)
    ensures
        command@ == deployment_command(flake@),
{
    let mut args: Vec<String> = Vec::new();
    push_arg(&mut args, "eval");
    push_arg(&mut args, "--json");
    push_arg(&mut args, chain(flake, "#deploy").as_str());
    push_arg(&mut args, "--apply");
    push_arg(&mut args, NIX_NODES_WITHOUT_BUILD);
    assert(string_views(args@) =~= deployment_command(flake@).args);
    Command::new("nix", args)
}

/// The text that `{:?}` formats a list of strings to.
pub uninterp spec fn debugged(items: Seq<Seq<char>>) -> Seq<char>;

/// `format!` with `{:?}` on a list of strings: the list as Rust source
/// would write it. The result is a function of the strings alone.
#[verifier::external_body]
fn debug_strings(items: &Vec<String>) -> (text: String)
    ensures
        text@ == debugged(string_views(items@)),
{
    format!("{:?}", items)
}

/// `true` or `false`.
pub open spec fn truth(value: bool) -> Seq<char> {
    if value {
        "true"@
    } else {
        "false"@
    }
}

/// One line of a profile: a setting and its value.
pub open spec fn setting(label: Seq<char>, value: Option<Seq<char>>) -> Seq<char> {
    match value {
        Some(value) => "      "@ + label + ": "@ + value + "\n"@,
        None => Seq::empty(),
    }
}

/// The text of an optional truth value.
pub open spec fn optional_truth(value: Option<bool>) -> Option<Seq<char>> {
    match value {
        Some(value) => Some(truth(value)),
        None => None,
    }
}

/// The text of an optional number.
pub open spec fn optional_decimal(value: Option<u16>) -> Option<Seq<char>> {
    match value {
        Some(value) => Some(decimal(value as nat)),
        None => None,
    }
}

/// The lines of a profile: its name, then each setting that is in force,
/// in a fixed order. The line `temp_path` shows the confirm timeout.
pub open spec fn profile_text(name: Seq<char>, profile: ProfileView) -> Seq<char> {
    "    - name: "@ + name + "\n"@ + setting("profile_path"@, profile.profile_path) + setting(
        "ssh_user"@,
        profile.ssh_user,
    ) + setting("user"@, profile.user) + setting("ssh_opts"@, profile.ssh_opts) + setting(
        "fast_connection"@,
        optional_truth(profile.fast_connection),
    ) + setting("auto_rollback"@, optional_truth(profile.auto_rollback)) + setting(
        "confirm_timeout"@,
        optional_decimal(profile.confirm_timeout),
    ) + setting("temp_path"@, optional_decimal(profile.confirm_timeout)) + setting(
        "magic_rollback"@,
        optional_truth(profile.magic_rollback),
    ) + setting("sudo"@, profile.sudo)
}

/// The lines of the profiles of a node, in their order.
pub open spec fn profiles_text(profiles: Seq<(Seq<char>, ProfileView)>) -> Seq<char>
    decreases profiles.len(),
{
    if profiles.len() == 0 {
        Seq::empty()
    } else {
        profiles_text(profiles.drop_last()) + profile_text(profiles.last().0, profiles.last().1)
    }
}

/// The line that shows the order of the profiles of a node, where one is
/// given.
pub open spec fn order_text(profiles_order: Seq<Seq<char>>) -> Seq<char> {
    if profiles_order.len() == 0 {
        Seq::empty()
    } else {
        "profile_order: "@ + debugged(profiles_order) + "\n"@
    }
}

/// The first lines of a node: its name, its host name, the order of its
/// profiles where one is given, and the heading of its profiles.
pub open spec fn node_head(name: Seq<char>, node: NodeView) -> Seq<char> {
    "node: "@ + name + "\n"@ + "hostname: "@ + node.hostname + "\n"@ + order_text(
        node.profiles_order,
    ) + "profiles:\n"@
}

/// The lines of a node: its first lines, its profiles, and an empty line.
pub open spec fn node_text(name: Seq<char>, node: NodeView) -> Seq<char> {
    node_head(name, node) + profiles_text(node.profiles) + "\n"@
}

/// The lines of the nodes of a deployment, in their order.
pub open spec fn nodes_text(nodes: Seq<(Seq<char>, NodeView)>) -> Seq<char>
    decreases nodes.len(),
{
    if nodes.len() == 0 {
        Seq::empty()
    } else {
        nodes_text(nodes.drop_last()) + node_text(nodes.last().0, nodes.last().1)
    }
}

/// Appends the line of a setting, if the setting is in force.
fn push_setting(text: &mut String, label: &str, value: &Option<String>)
    ensures
        final(text)@ == old(text)@ + setting(label@, optional_text(*value)),
{
    match value {
        Some(value) => {
            text.append("      ");
            text.append(label);
            text.append(": ");
            text.append(value.as_str());
            text.append("\n");
            assert(text@ =~= old(text)@ + setting(label@, Some(value@)));
        },
        None => {
            assert(text@ =~= old(text)@ + Seq::<char>::empty());
        },
    }
}

/// The text of an optional truth value.
fn truth_text(value: Option<bool>) -> (text: Option<String>)
    ensures
        optional_text(text) == optional_truth(value),
{
    match value {
        Some(true) => Some("true".to_owned()),
        Some(false) => Some("false".to_owned()),
        None => None,
    }
}

/// The text of an optional number.
fn number_text(value: Option<u16>) -> (text: Option<String>)
    ensures
        optional_text(text) == optional_decimal(value),
{
    match value {
        Some(value) => Some(decimal_text(value as u64)),
        None => None,
    }
}

/// Appends the line of a setting behind the lines that were appended since
/// `start`.
fn push_next(
    text: &mut String,
    label: &str,
    value: &Option<String>,
    Ghost(start): Ghost<Seq<char>>,
    Ghost(lines): Ghost<Seq<char>>,
)
    requires
        old(text)@ == start + lines,
    ensures
        final(text)@ == start + (lines + setting(label@, optional_text(*value))),
{
    push_setting(text, label, value);
    assert(text@ =~= start + (lines + setting(label@, optional_text(*value))));
}

/// Appends the lines of a profile.
fn push_profile(text: &mut String, name: &str, profile: &Profile)
    ensures
        final(text)@ == old(text)@ + profile_text(name@, profile@),
{
    let ghost start = text@;
    text.append("    - name: ");
    text.append(name);
    text.append("\n");
    let ghost lines = "    - name: "@ + name@ + "\n"@;
    assert(text@ =~= start + lines);
    push_next(text, "profile_path", &profile.profile_path, Ghost(start), Ghost(lines));
    let ghost lines = lines + setting("profile_path"@, profile@.profile_path);
    push_next(text, "ssh_user", &profile.ssh_user, Ghost(start), Ghost(lines));
    let ghost lines = lines + setting("ssh_user"@, profile@.ssh_user);
    push_next(text, "user", &profile.user, Ghost(start), Ghost(lines));
    let ghost lines = lines + setting("user"@, profile@.user);
    push_next(text, "ssh_opts", &profile.ssh_opts, Ghost(start), Ghost(lines));
    let ghost lines = lines + setting("ssh_opts"@, profile@.ssh_opts);
    push_next(
        text,
        "fast_connection",
        &truth_text(profile.fast_connection),
        Ghost(start),
        Ghost(lines),
    );
    let ghost lines = lines + setting("fast_connection"@, optional_truth(profile.fast_connection));
    push_next(
        text,
        "auto_rollback",
        &truth_text(profile.auto_rollback),
        Ghost(start),
        Ghost(lines),
    );
    let ghost lines = lines + setting("auto_rollback"@, optional_truth(profile.auto_rollback));
    push_next(
        text,
        "confirm_timeout",
        &number_text(profile.confirm_timeout),
        Ghost(start),
        Ghost(lines),
    );
    let ghost lines = lines + setting(
        "confirm_timeout"@,
        optional_decimal(profile.confirm_timeout),
    );
    push_next(
        text,
        "temp_path",
        &number_text(profile.confirm_timeout),
        Ghost(start),
        Ghost(lines),
    );
    let ghost lines = lines + setting("temp_path"@, optional_decimal(profile.confirm_timeout));
    push_next(
        text,
        "magic_rollback",
        &truth_text(profile.magic_rollback),
        Ghost(start),
        Ghost(lines),
    );
    let ghost lines = lines + setting("magic_rollback"@, optional_truth(profile.magic_rollback));
    push_next(text, "sudo", &profile.sudo, Ghost(start), Ghost(lines));
}

/// Appends the line that shows the order of the profiles of a node, where
/// one is given.
fn push_order(text: &mut String, profiles_order: &Vec<String>)
    ensures
        final(text)@ == old(text)@ + order_text(string_views(profiles_order@)),
{
    if profiles_order.len() > 0 {
        let mut line = chain("profile_order: ", debug_strings(profiles_order).as_str());
        line.append("\n");
        text.append(line.as_str());
    } else {
        assert(text@ =~= old(text)@ + Seq::<char>::empty());
    }
}

/// Appends the first lines of a node.
fn push_head(text: &mut String, name: &str, node: &Node)
    ensures
        final(text)@ == old(text)@ + node_head(name@, node@),
{
    let mut head = chain("node: ", name);
    head.append("\n");
    head.append("hostname: ");
    head.append(node.hostname.as_str());
    head.append("\n");
    push_order(&mut head, &node.profiles_order);
    head.append("profiles:\n");
    assert(head@ == node_head(name@, node@));
    text.append(head.as_str());
}

/// Appends the lines of the profiles of a node, in their order.
fn push_profiles(text: &mut String, profiles: &Vec<(String, Profile)>)
    ensures
        final(text)@ == old(text)@ + profiles_text(named_views(profiles@)),
{
    let ghost start = text@;
    let ghost all = named_views(profiles@);
    assert(text@ =~= start + profiles_text(all.take(0)));
    let mut i: usize = 0;
    while i < profiles.len()
        invariant
            i <= profiles.len(),
            all == named_views(profiles@),
            text@ == start + profiles_text(all.take(i as int)),
        decreases profiles.len() - i,
    {
        let ghost before = profiles_text(all.take(i as int));
        push_profile(text, profiles[i].0.as_str(), &profiles[i].1);
        proof {
            assert(all.take(i as int + 1).drop_last() =~= all.take(i as int));
            assert(all.take(i as int + 1).last() == all[i as int]);
            let line = profile_text(all[i as int].0, all[i as int].1);
            assert(profiles_text(all.take(i as int + 1)) == before + line);
            assert((start + before) + line =~= start + (before + line));
        }
        i += 1;
    }
    assert(all.take(profiles.len() as int) =~= all);
}

/// Appends the lines of a node.
fn push_node(text: &mut String, name: &str, node: &Node)
    ensures
        final(text)@ == old(text)@ + node_text(name@, node@),
{
    let ghost start = text@;
    let ghost head = node_head(name@, node@);
    let ghost body = profiles_text(node@.profiles);
    push_head(text, name, node);
    push_profiles(text, &node.profiles);
    text.append("\n");
    assert(((start + head) + body) + "\n"@ =~= start + ((head + body) + "\n"@));
}

impl Deploy {
    /// The deployment as text: the lines of its nodes, in their order.
    pub fn to_string(&self) -> (text: String)
        ensures
            text@ == nodes_text(self@.nodes),
    {
        let mut text = String::new();
        let mut i: usize = 0;
        while i < self.nodes.len()
            invariant
                i <= self.nodes.len(),
                text@ == nodes_text(named_views(self.nodes@).take(i as int)),
            decreases self.nodes.len() - i,
        {
            let ghost all = named_views(self.nodes@);
            push_node(&mut text, self.nodes[i].0.as_str(), &self.nodes[i].1);
            proof {
                assert(all.take(i as int + 1).drop_last() =~= all.take(i as int));
                assert(all.take(i as int + 1).last() == all[i as int]);
            }
            i += 1;
        }
        assert(named_views(self.nodes@).take(self.nodes.len() as int) =~= named_views(
            self.nodes@,
        ));
        text
    }
}

} // verus!
