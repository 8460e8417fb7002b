//! The toolchain identity model and the install/configure dispatcher.

use vstd::prelude::*;
use vstd::string::StringExecFns;

use crate::cmd::{
    args_of, one_more_invocation, Binary, CommandFailure, Invocation, Workspace,
};

verus! {

/// A compiler toolchain, identified either by its release name on the
/// distribution channel or by the merge-commit hash of a CI build.
///
/// A value is immutable after construction; its identity is fully determined
/// by the variant and its fields.
#[derive(Eq, Hash, Debug)]
pub enum Toolchain {
    /// A toolchain distributed through the release channel, under the name
    /// the toolchain manager registers it by.
    Dist { name: String },
    /// A toolchain built by CI for one merged commit; `alt` selects the
    /// build with extra internal assertions enabled.
    CI { sha: String, alt: bool },
}

/// The mathematical value of a [`Toolchain`]: the same two variants, with
/// each string as its character sequence.
pub ghost enum ToolchainModel {
    Dist { name: Seq<char> },
    CI { sha: Seq<char>, alt: bool },
}

impl View for Toolchain {
    type V = ToolchainModel;

    open spec fn view(&self) -> ToolchainModel {
        match self {
            Toolchain::Dist { name } => ToolchainModel::Dist { name: name@ },
            Toolchain::CI { sha, alt } => ToolchainModel::CI { sha: sha@, alt: *alt },
        }
    }
}

/// The canonical identifier of a toolchain: the name of a `Dist` toolchain;
/// the commit hash of a `CI` toolchain, with `-alt` appended for alt builds.
/// Every external invocation addresses the toolchain by this string.
pub open spec fn canonical_identifier(t: ToolchainModel) -> Seq<char> {
    match t {
        ToolchainModel::Dist { name } => name,
        ToolchainModel::CI { sha, alt } => if alt {
            sha + "-alt"@
        } else {
            sha
        },
    }
}

/// A failure returned by a toolchain operation.
#[derive(Debug)]
pub enum Error {
    /// The requested operation is not defined for this toolchain variant; no
    /// external invocation was made.
    UnsupportedOperation { message: String },
    /// An external invocation failed; `context` says what was being
    /// attempted, `cause` carries the underlying process failure.
    ExternalCommand { context: String, cause: CommandFailure },
}

/// Holds when `e` reports an external command failure under the context
/// `context`.
pub open spec fn is_external_command_error(e: Error, context: Seq<char>) -> bool {
    match e {
        Error::ExternalCommand { context: c, cause: _ } => c@ == context,
        _ => false,
    }
}

/// Holds when `e` reports an unsupported operation with message `message`.
pub open spec fn is_unsupported_operation_error(e: Error, message: Seq<char>) -> bool {
    match e {
        Error::UnsupportedOperation { message: m } => m@ == message,
        _ => false,
    }
}

/// The underlying process failure carried by an error, if any.
pub open spec fn cause_of(e: Error) -> Option<CommandFailure> {
    match e {
        Error::ExternalCommand { context: _, cause } => Some(cause),
        _ => None,
    }
}

/// Context attached when installing `t` fails.
pub open spec fn install_context(t: ToolchainModel) -> Seq<char> {
    match t {
        ToolchainModel::Dist { .. } => "unable to install toolchain "@
            + canonical_identifier(t) + " via rustup"@,
        ToolchainModel::CI { .. } => "unable to install toolchain "@
            + canonical_identifier(t) + " via rustup-toolchain-install-master"@,
    }
}

/// Context attached when installing a component or target fails.
pub open spec fn add_thing_context(
    thing: Seq<char>,
    name: Seq<char>,
    t: ToolchainModel,
) -> Seq<char> {
    "unable to install "@ + thing + " "@ + name + " for toolchain "@
        + canonical_identifier(t) + " via rustup"@
}

/// Context attached when uninstalling `t` fails.
pub open spec fn uninstall_context(t: ToolchainModel) -> Seq<char> {
    "unable to uninstall toolchain "@ + canonical_identifier(t) + " via rustup"@
}

/// Message of the error rejecting component or target installation on a CI
/// toolchain.
pub open spec fn unsupported_on_ci_message(thing: Seq<char>) -> Seq<char> {
    "installing "@ + thing + " on CI toolchains is not supported yet"@
}

/// The binary `install` invokes for `t`.
pub open spec fn install_binary(t: ToolchainModel) -> Binary {
    match t {
        ToolchainModel::Dist { .. } => Binary::ToolchainManager,
        ToolchainModel::CI { .. } => Binary::CiArtifactInstaller,
    }
}

/// Arguments of the one invocation `install` issues for `t`.
pub open spec fn install_args(t: ToolchainModel) -> Seq<Seq<char>> {
    match t {
        ToolchainModel::Dist { name } => seq!["toolchain"@, "install"@, name],
        ToolchainModel::CI { sha, alt } => if alt {
            seq![sha, "-c"@, "cargo"@, "--alt"@]
        } else {
            seq![sha, "-c"@, "cargo"@]
        },
    }
}

/// Arguments of the one invocation `add_component` or `add_target` issues on
/// a `Dist` toolchain.
pub open spec fn add_thing_args(
    thing: Seq<char>,
    name: Seq<char>,
    t: ToolchainModel,
) -> Seq<Seq<char>> {
    seq![thing, "add"@, "--toolchain"@, canonical_identifier(t), name]
}

/// Arguments of the one invocation `uninstall` issues.
pub open spec fn uninstall_args(t: ToolchainModel) -> Seq<Seq<char>> {
    seq!["toolchain"@, "uninstall"@, canonical_identifier(t)]
}

/// Wraps the outcome of an external invocation: success passes through, a
/// failure becomes an [`Error::ExternalCommand`] carrying `context` and the
/// failure as its cause.
pub fn with_context(outcome: Result<(), CommandFailure>, context: String) -> (r: Result<
    (),
    Error,
>)
    ensures
        match outcome {
            Ok(()) => r matches Ok(()),
            Err(f) => r matches Err(e) && is_external_command_error(e, context@) && cause_of(e)
                == Some(f),
        },
{
    match outcome {
        Ok(()) => Ok(()),
        Err(cause) => Err(Error::ExternalCommand { context, cause }),
    }
}

impl Toolchain {
    /// The distinguished main toolchain: the `stable` release of the
    /// distribution channel.
    pub fn main_toolchain() -> (t: Toolchain)
        ensures
            t@ == (ToolchainModel::Dist { name: "stable"@ }),
    {
        Toolchain::Dist { name: String::from_str("stable") }
    }

    /// The canonical identifier under which the external tools address this
    /// toolchain.
    pub fn rustup_name(&self) -> (name: String)
        ensures
            name@ == canonical_identifier(self@),
    {
        match self {
            Toolchain::Dist { name } => name.clone(),
            Toolchain::CI { sha, alt } => if *alt {
                sha.clone().concat("-alt")
            } else {
                sha.clone()
            },
        }
    }

    /// Download and install the toolchain.
    ///
    /// Issues exactly one external invocation: the toolchain manager for a
    /// `Dist` toolchain, the CI-artifact installer for a `CI` toolchain. A
    /// failed invocation is reported as an external command error whose
    /// context names the toolchain.
    pub fn install<W: Workspace>(&self, workspace: &mut W) -> (r: Result<(), Error>)
        ensures
            one_more_invocation(
                old(workspace).history(),
                final(workspace).history(),
                install_binary(self@),
                install_args(self@),
            ),
            r matches Err(e) ==> is_external_command_error(e, install_context(self@)),
    {
        match self {
            Toolchain::Dist { name } => init_toolchain_from_dist(workspace, name),
            Toolchain::CI { sha, alt } => init_toolchain_from_ci(workspace, *alt, sha),
        }
    }

    /// Download and install a component for the toolchain.
    ///
    /// Defined only for `Dist` toolchains: on a `CI` toolchain the call is
    /// rejected up front, with no external invocation. On a `Dist` toolchain
    /// it issues exactly one toolchain-manager invocation.
    pub fn add_component<W: Workspace>(&self, workspace: &mut W, name: &str) -> (r: Result<
        (),
        Error,
    >)
        ensures
            self@ is CI ==> {
                &&& final(workspace).history() == old(workspace).history()
                &&& r matches Err(e) && is_unsupported_operation_error(
                    e,
                    unsupported_on_ci_message("component"@),
                )
            },
            self@ is Dist ==> {
                &&& one_more_invocation(
                    old(workspace).history(),
                    final(workspace).history(),
                    Binary::ToolchainManager,
                    add_thing_args("component"@, name@, self@),
                )
                &&& (r matches Err(e) ==> is_external_command_error(
                    e,
                    add_thing_context("component"@, name@, self@),
                ))
            },
    {
        self.add_rustup_thing(workspace, "component", name)
    }

    /// Download and install a target for the toolchain.
    ///
    /// Defined only for `Dist` toolchains: on a `CI` toolchain the call is
    /// rejected up front, with no external invocation. On a `Dist` toolchain
    /// it issues exactly one toolchain-manager invocation.
    pub fn add_target<W: Workspace>(&self, workspace: &mut W, name: &str) -> (r: Result<
        (),
        Error,
    >)
        ensures
            self@ is CI ==> {
                &&& final(workspace).history() == old(workspace).history()
                &&& r matches Err(e) && is_unsupported_operation_error(
                    e,
                    unsupported_on_ci_message("target"@),
                )
            },
            self@ is Dist ==> {
                &&& one_more_invocation(
                    old(workspace).history(),
                    final(workspace).history(),
                    Binary::ToolchainManager,
                    add_thing_args("target"@, name@, self@),
                )
                &&& (r matches Err(e) ==> is_external_command_error(
                    e,
                    add_thing_context("target"@, name@, self@),
                ))
            },
    {
        self.add_rustup_thing(workspace, "target", name)
    }

    /// Install one rustup-managed "thing" (a component or a target) for the
    /// toolchain, or reject the request on a CI toolchain before any
    /// external invocation.
    fn add_rustup_thing<W: Workspace>(
        &self,
        workspace: &mut W,
        thing: &str,
        name: &str,
    ) -> (r: Result<(), Error>)
        ensures
            self@ is CI ==> {
                &&& final(workspace).history() == old(workspace).history()
                &&& r matches Err(e) && is_unsupported_operation_error(
                    e,
                    unsupported_on_ci_message(thing@),
                )
            },
            self@ is Dist ==> {
                &&& one_more_invocation(
                    old(workspace).history(),
                    final(workspace).history(),
                    Binary::ToolchainManager,
                    add_thing_args(thing@, name@, self@),
                )
                &&& (r matches Err(e) ==> is_external_command_error(
                    e,
                    add_thing_context(thing@, name@, self@),
                ))
            },
    {
        if let Toolchain::CI { .. } = self {
            let message = String::from_str("installing ").concat(thing).concat(
                " on CI toolchains is not supported yet",
            );
            return Err(Error::UnsupportedOperation { message });
        }
        let toolchain_name = self.rustup_name();
        let mut args: Vec<String> = Vec::new();
        args.push(String::from_str(thing));
        args.push(String::from_str("add"));
        args.push(String::from_str("--toolchain"));
        args.push(toolchain_name.clone());
        args.push(String::from_str(name));
        proof {
            assert(args.deep_view() =~= add_thing_args(thing@, name@, self@));
        }
        let context = String::from_str("unable to install ").concat(thing).concat(" ").concat(
            name,
        ).concat(" for toolchain ").concat(toolchain_name.as_str()).concat(" via rustup");
        let inv = Invocation { binary: Binary::ToolchainManager, args };
        let ghost pre = workspace.history();
        let ghost ginv = inv;
        let outcome = workspace.run(inv);
        proof {
            assert(workspace.history().subrange(0, pre.len() as int) =~= pre);
            assert(args_of(ginv) == add_thing_args(thing@, name@, self@));
        }
        with_context(outcome, context)
    }

    /// Remove the toolchain from the workspace registry, freeing the disk
    /// space it used.
    ///
    /// Issues exactly one toolchain-manager invocation naming the canonical
    /// identifier.
    pub fn uninstall<W: Workspace>(&self, workspace: &mut W) -> (r: Result<(), Error>)
        ensures
            one_more_invocation(
                old(workspace).history(),
                final(workspace).history(),
                Binary::ToolchainManager,
                uninstall_args(self@),
            ),
            r matches Err(e) ==> is_external_command_error(e, uninstall_context(self@)),
    {
        let name = self.rustup_name();
        let mut args: Vec<String> = Vec::new();
        args.push(String::from_str("toolchain"));
        args.push(String::from_str("uninstall"));
        args.push(name.clone());
        proof {
            assert(args.deep_view() =~= uninstall_args(self@));
        }
        let context = String::from_str("unable to uninstall toolchain ").concat(
            name.as_str(),
        ).concat(" via rustup");
        let inv = Invocation { binary: Binary::ToolchainManager, args };
        let ghost pre = workspace.history();
        let ghost ginv = inv;
        let outcome = workspace.run(inv);
        proof {
            assert(workspace.history().subrange(0, pre.len() as int) =~= pre);
            assert(args_of(ginv) == uninstall_args(self@));
        }
        with_context(outcome, context)
    }

    /// A runnable `cargo` bound to this toolchain. Value construction alone:
    /// no external invocation happens until the returned value's command is
    /// handed to a workspace.
    pub fn cargo(&self) -> (bin: CargoBin)
        ensures
            bin.toolchain == *self,
    {
        CargoBin { toolchain: self.clone() }
    }
}

/// Install a distribution-channel toolchain by name through the toolchain
/// manager.
fn init_toolchain_from_dist<W: Workspace>(workspace: &mut W, toolchain: &String) -> (r: Result<
    (),
    Error,
>)
    ensures
        one_more_invocation(
            old(workspace).history(),
            final(workspace).history(),
            Binary::ToolchainManager,
            seq!["toolchain"@, "install"@, toolchain@],
        ),
        r matches Err(e) ==> is_external_command_error(
            e,
            "unable to install toolchain "@ + toolchain@ + " via rustup"@,
        ),
{
    let mut args: Vec<String> = Vec::new();
    args.push(String::from_str("toolchain"));
    args.push(String::from_str("install"));
    args.push(toolchain.clone());
    proof {
        assert(args.deep_view() =~= seq!["toolchain"@, "install"@, toolchain@]);
    }
    let context = String::from_str("unable to install toolchain ").concat(
        toolchain.as_str(),
    ).concat(" via rustup");
    let inv = Invocation { binary: Binary::ToolchainManager, args };
    let ghost pre = workspace.history();
    let ghost ginv = inv;
    let outcome = workspace.run(inv);
    proof {
        assert(workspace.history().subrange(0, pre.len() as int) =~= pre);
        assert(args_of(ginv) == seq!["toolchain"@, "install"@, toolchain@]);
    }
    with_context(outcome, context)
}

/// Install a CI-artifact toolchain by commit hash through the CI-artifact
/// installer, requesting the alt build when asked to.
fn init_toolchain_from_ci<W: Workspace>(workspace: &mut W, alt: bool, sha: &String) -> (r: Result<
    (),
    Error,
>)
    ensures
        one_more_invocation(
            old(workspace).history(),
            final(workspace).history(),
            Binary::CiArtifactInstaller,
            install_args((ToolchainModel::CI { sha: sha@, alt })),
        ),
        r matches Err(e) ==> is_external_command_error(
            e,
            install_context((ToolchainModel::CI { sha: sha@, alt })),
        ),
{
    let mut args: Vec<String> = Vec::new();
    args.push(sha.clone());
    args.push(String::from_str("-c"));
    args.push(String::from_str("cargo"));
    if alt {
        args.push(String::from_str("--alt"));
    }
    proof {
        assert(args.deep_view() =~= install_args((ToolchainModel::CI { sha: sha@, alt })));
    }
    let id = if alt {
        sha.clone().concat("-alt")
    } else {
        sha.clone()
    };
    let context = String::from_str("unable to install toolchain ").concat(id.as_str()).concat(
        " via rustup-toolchain-install-master",
    );
    let inv = Invocation { binary: Binary::CiArtifactInstaller, args };
    let ghost pre = workspace.history();
    let ghost ginv = inv;
    let outcome = workspace.run(inv);
    proof {
        assert(workspace.history().subrange(0, pre.len() as int) =~= pre);
        assert(args_of(ginv) == install_args((ToolchainModel::CI { sha: sha@, alt })));
    }
    with_context(outcome, context)
}

/// A runnable description of `cargo` bound to one toolchain: executing it
/// prefixes the argument list with `+<canonical identifier>`, which makes
/// the binary dispatch through that toolchain.
#[derive(Debug)]
pub struct CargoBin {
    pub toolchain: Toolchain,
}

impl CargoBin {
    /// The binary this value runs.
    pub fn name(&self) -> (b: Binary)
        ensures
            b matches Binary::Managed { name } && name@ == "cargo"@,
    {
        Binary::Managed { name: String::from_str("cargo") }
    }

    /// The invocation that runs `cargo` under the bound toolchain with
    /// `args`: the toolchain selector `+<canonical identifier>` followed by
    /// `args`. Pure value construction; nothing is spawned here.
    pub fn prepare_command(&self, args: Vec<String>) -> (inv: Invocation)
        ensures
            inv.binary matches Binary::Managed { name } && name@ == "cargo"@,
            args_of(inv) == seq!["+"@ + canonical_identifier(self.toolchain@)]
                + args.deep_view(),
    {
        let selector = String::from_str("+").concat(self.toolchain.rustup_name().as_str());
        let mut full: Vec<String> = Vec::new();
        full.push(selector);
        let mut rest = args;
        full.append(&mut rest);
        proof {
            assert(full.deep_view() =~= seq!["+"@ + canonical_identifier(self.toolchain@)]
                + args.deep_view());
        }
        Invocation { binary: Binary::Managed { name: String::from_str("cargo") }, args: full }
    }
}

impl Clone for Toolchain {
    /// Cloning preserves the toolchain value exactly.
    fn clone(&self) -> (res: Self)
        ensures
            res == *self,
    {
        match self {
            Toolchain::Dist { name } => Toolchain::Dist { name: name.clone() },
            Toolchain::CI { sha, alt } => Toolchain::CI { sha: sha.clone(), alt: *alt },
        }
    }
}

impl PartialEq for Toolchain {
    /// Structural equality: same variant and same field values.
    fn eq(&self, other: &Toolchain) -> (r: bool) {
        match (self, other) {
            (Toolchain::Dist { name: a }, Toolchain::Dist { name: b }) => *a == *b,
            (Toolchain::CI { sha: a, alt: x }, Toolchain::CI { sha: b, alt: y }) => *a == *b
                && *x == *y,
            _ => false,
        }
    }
}

impl vstd::std_specs::cmp::PartialEqSpecImpl for Toolchain {
    open spec fn obeys_eq_spec() -> bool {
        true
    }

    open spec fn eq_spec(&self, other: &Toolchain) -> bool {
        self@ == other@
    }
}

} // verus!
