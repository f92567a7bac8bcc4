//! Making sure that a named wallet is loaded on a node.
//!
//! The provisioner is a state machine. Each step takes the node's reply to
//! the request that is outstanding and returns the next request, or the
//! outcome. The caller performs the requests and hands back the replies.

use crate::text::{contains_text, occurs_at, text_contains};
use vstd::prelude::*;

verus! {

/// The marker that the node puts in the text of an "already loaded" or
/// "already exists" error.
pub open spec fn already_marker() -> Seq<char> {
    seq!['c', 'o', 'd', 'e', ':', ' ', '-', '4']
}

/// Which request the provisioner is waiting on.
#[derive(Clone, Copy, Debug, PartialEq, Eq, Structural)]
pub enum Phase {
    Listing,
    Loading,
    Unloading,
    Reloading,
    Creating,
    Finished,
}

/// The node's reply to the outstanding request.
pub enum Reply {
    /// The names of the wallets that the node lists.
    Listed(Vec<String>),
    /// The request succeeded.
    Done,
    /// The request failed; the text is the node's error.
    Failed(String),
}

pub ghost enum ReplyView {
    Listed(Set<Seq<char>>),
    Done,
    Failed(Seq<char>),
}

impl View for Reply {
    type V = ReplyView;

    open spec fn view(&self) -> ReplyView {
        match self {
            Reply::Listed(names) => ReplyView::Listed(
                Set::new(|w: Seq<char>| exists|i: int| 0 <= i < names@.len() && names@[i]@ == w),
            ),
            Reply::Done => ReplyView::Done,
            Reply::Failed(t) => ReplyView::Failed(t@),
        }
    }
}

/// Why provisioning failed.
#[derive(Debug)]
pub enum ProvisionError {
    /// The node refused a request; the text is its error.
    Node(String),
    /// Creation failed because the wallet exists, though the node did not list it.
    ExistsButNotListed,
    /// A reply came that does not answer the outstanding request.
    OutOfOrder,
}

pub ghost enum ProvisionErrorView {
    Node(Seq<char>),
    ExistsButNotListed,
    OutOfOrder,
}

impl View for ProvisionError {
    type V = ProvisionErrorView;

    open spec fn view(&self) -> ProvisionErrorView {
        match self {
            ProvisionError::Node(t) => ProvisionErrorView::Node(t@),
            ProvisionError::ExistsButNotListed => ProvisionErrorView::ExistsButNotListed,
            ProvisionError::OutOfOrder => ProvisionErrorView::OutOfOrder,
        }
    }
}

/// What the caller is to do next.
#[derive(Debug)]
pub enum WalletAction {
    ListWallets,
    LoadWallet,
    UnloadWallet,
    CreateWallet,
    /// Provisioning is over, with this outcome.
    Finish(Result<(), ProvisionError>),
}

pub ghost enum ActionView {
    ListWallets,
    LoadWallet,
    UnloadWallet,
    CreateWallet,
    Finish(Result<(), ProvisionErrorView>),
}

impl View for WalletAction {
    type V = ActionView;

    open spec fn view(&self) -> ActionView {
        match self {
            WalletAction::ListWallets => ActionView::ListWallets,
            WalletAction::LoadWallet => ActionView::LoadWallet,
            WalletAction::UnloadWallet => ActionView::UnloadWallet,
            WalletAction::CreateWallet => ActionView::CreateWallet,
            WalletAction::Finish(Ok(())) => ActionView::Finish(Ok(())),
            WalletAction::Finish(Err(e)) => ActionView::Finish(Err(e@)),
        }
    }
}

pub open spec fn fail(e: ProvisionErrorView) -> (Phase, ActionView) {
    (Phase::Finished, ActionView::Finish(Err(e)))
}

pub open spec fn succeed() -> (Phase, ActionView) {
    (Phase::Finished, ActionView::Finish(Ok(())))
}

/// One step of provisioning wallet `name`: the phase and the reply give the
/// next phase and what to do.
pub open spec fn next_step(phase: Phase, name: Seq<char>, reply: ReplyView) -> (Phase, ActionView) {
    match (phase, reply) {
        (Phase::Listing, ReplyView::Listed(names)) => if names.contains(name) {
            (Phase::Loading, ActionView::LoadWallet)
        } else {
            (Phase::Creating, ActionView::CreateWallet)
        },
        (Phase::Loading, ReplyView::Done) => succeed(),
        (Phase::Loading, ReplyView::Failed(t)) => if contains_text(t, already_marker()) {
            (Phase::Unloading, ActionView::UnloadWallet)
        } else {
            fail(ProvisionErrorView::Node(t))
        },
        (Phase::Unloading, ReplyView::Done) => (Phase::Reloading, ActionView::LoadWallet),
        (Phase::Reloading, ReplyView::Done) => succeed(),
        (Phase::Creating, ReplyView::Done) => succeed(),
        (Phase::Creating, ReplyView::Failed(t)) => if contains_text(t, already_marker()) {
            fail(ProvisionErrorView::ExistsButNotListed)
        } else {
            fail(ProvisionErrorView::Node(t))
        },
        (Phase::Listing, ReplyView::Failed(t)) => fail(ProvisionErrorView::Node(t)),
        (Phase::Unloading, ReplyView::Failed(t)) => fail(ProvisionErrorView::Node(t)),
        (Phase::Reloading, ReplyView::Failed(t)) => fail(ProvisionErrorView::Node(t)),
        _ => fail(ProvisionErrorView::OutOfOrder),
    }
}

/// Whether `name` is one of `names`.
pub fn lists_name(names: &Vec<String>, name: &String) -> (r: bool)
    ensures
        r == exists|i: int| 0 <= i < names@.len() && names@[i]@ == name@,
{
    let mut i: usize = 0;
    while i < names.len()
        invariant
            i <= names@.len(),
            forall|k: int| 0 <= k < i ==> names@[k]@ != name@,
        decreases names@.len() - i,
    {
        if names[i] == *name {
            return true;
        }
        i = i + 1;
    }
    false
}

/// Whether an error text is the node's "already loaded" / "already exists" error.
pub fn is_already_error(text: &String) -> (r: bool)
    ensures
        r == contains_text(text@, already_marker()),
{
    let marker = "code: -4";
    proof {
        reveal_strlit("code: -4");
    }
    assert(marker@ =~= already_marker());
    text_contains(text.as_str(), marker)
}

/// Brings one wallet to the loaded state on one node.
pub struct WalletProvisioner {
    pub name: String,
    pub phase: Phase,
}

impl WalletProvisioner {
    /// A provisioner for wallet `name`, and its first request: list the wallets.
    pub fn new(name: String) -> (r: (WalletProvisioner, WalletAction))
        ensures
            r.0.name == name,
            r.0.phase == Phase::Listing,
            r.1@ == ActionView::ListWallets,
    {
        (WalletProvisioner { name, phase: Phase::Listing }, WalletAction::ListWallets)
    }

    /// Takes the reply to the outstanding request and gives the next action.
    pub fn step(&mut self, reply: Reply) -> (r: WalletAction)
        ensures
            final(self).name == old(self).name,
            (final(self).phase, r@) == next_step(old(self).phase, old(self).name@, reply@),
    {
        match (self.phase, reply) {
            (Phase::Listing, Reply::Listed(names)) => {
                if lists_name(&names, &self.name) {
                    self.phase = Phase::Loading;
                    WalletAction::LoadWallet
                } else {
                    self.phase = Phase::Creating;
                    WalletAction::CreateWallet
                }
            },
            (Phase::Loading, Reply::Done) | (Phase::Reloading, Reply::Done) | (
                Phase::Creating,
                Reply::Done,
            ) => {
                self.phase = Phase::Finished;
                WalletAction::Finish(Ok(()))
            },
            (Phase::Unloading, Reply::Done) => {
                self.phase = Phase::Reloading;
                WalletAction::LoadWallet
            },
            (Phase::Loading, Reply::Failed(t)) => {
                if is_already_error(&t) {
                    self.phase = Phase::Unloading;
                    WalletAction::UnloadWallet
                } else {
                    self.phase = Phase::Finished;
                    WalletAction::Finish(Err(ProvisionError::Node(t)))
                }
            },
            (Phase::Creating, Reply::Failed(t)) => {
                self.phase = Phase::Finished;
                if is_already_error(&t) {
                    WalletAction::Finish(Err(ProvisionError::ExistsButNotListed))
                } else {
                    WalletAction::Finish(Err(ProvisionError::Node(t)))
                }
            },
            (Phase::Listing, Reply::Failed(t)) | (Phase::Unloading, Reply::Failed(t)) | (
                Phase::Reloading,
                Reply::Failed(t),
            ) => {
                self.phase = Phase::Finished;
                WalletAction::Finish(Err(ProvisionError::Node(t)))
            },
            _ => {
                self.phase = Phase::Finished;
                WalletAction::Finish(Err(ProvisionError::OutOfOrder))
            },
        }
    }
}

/// The wallet bookkeeping of a node: the wallets it stores, and those it has
/// loaded, which are the ones it lists.
pub ghost struct NodeModel {
    pub stored: Set<Seq<char>>,
    pub loaded: Set<Seq<char>>,
}

impl NodeModel {
    pub open spec fn wf(self) -> bool {
        self.loaded.subset_of(self.stored)
    }
}

/// The text of an error other than "already loaded" / "already exists".
pub open spec fn other_error() -> Seq<char> {
    seq!['c', 'o', 'd', 'e', ':', ' ', '-', '1', '8']
}

/// How the node answers a request about wallet `name`: its new state and its reply.
pub open spec fn node_answer(node: NodeModel, name: Seq<char>, action: ActionView) -> (
    NodeModel,
    ReplyView,
) {
    match action {
        ActionView::ListWallets => (node, ReplyView::Listed(node.loaded)),
        ActionView::LoadWallet => if node.loaded.contains(name) {
            (node, ReplyView::Failed(already_marker()))
        } else if node.stored.contains(name) {
            (NodeModel { loaded: node.loaded.insert(name), ..node }, ReplyView::Done)
        } else {
            (node, ReplyView::Failed(other_error()))
        },
        ActionView::UnloadWallet => if node.loaded.contains(name) {
            (NodeModel { loaded: node.loaded.remove(name), ..node }, ReplyView::Done)
        } else {
            (node, ReplyView::Failed(other_error()))
        },
        ActionView::CreateWallet => if node.stored.contains(name) {
            (node, ReplyView::Failed(already_marker()))
        } else {
            (
                NodeModel { stored: node.stored.insert(name), loaded: node.loaded.insert(name) },
                ReplyView::Done,
            )
        },
        ActionView::Finish(_) => (node, ReplyView::Done),
    }
}

/// Drives the provisioner against the node for at most `fuel` requests: the
/// node's final state and the outcome, if one was reached.
pub open spec fn run_against(
    node: NodeModel,
    name: Seq<char>,
    phase: Phase,
    action: ActionView,
    fuel: nat,
) -> (NodeModel, Option<Result<(), ProvisionErrorView>>)
    decreases fuel,
{
    match action {
        ActionView::Finish(r) => (node, Some(r)),
        _ => if fuel == 0 {
            (node, None)
        } else {
            let answer = node_answer(node, name, action);
            let next = next_step(phase, name, answer.1);
            run_against(answer.0, name, next.0, next.1, (fuel - 1) as nat)
        },
    }
}

/// A whole provisioning of wallet `name`, from the first request on.
pub open spec fn ensure_loaded(node: NodeModel, name: Seq<char>) -> (
    NodeModel,
    Option<Result<(), ProvisionErrorView>>,
) {
    run_against(node, name, Phase::Listing, ActionView::ListWallets, 5)
}

/// Provisioning a wallet twice in a row succeeds both times and leaves the
/// wallet loaded, unless the node stores the wallet without having loaded it
/// (then the first run reports that it exists but is not listed).
pub proof fn lemma_ensure_loaded_idempotent(node: NodeModel, name: Seq<char>)
    requires
        node.wf(),
        !(node.stored.contains(name) && !node.loaded.contains(name)),
    ensures
        ensure_loaded(node, name).1 == Some(Ok::<(), ProvisionErrorView>(())),
        ensure_loaded(ensure_loaded(node, name).0, name).1 == Some(
            Ok::<(), ProvisionErrorView>(()),
        ),
        ensure_loaded(ensure_loaded(node, name).0, name).0.loaded.contains(name),
        ensure_loaded(ensure_loaded(node, name).0, name).0.wf(),
{
    let m = already_marker();
    assert(m.subrange(0, m.len() as int) =~= m);
    assert(occurs_at(m, m, 0));
    reveal_with_fuel(run_against, 6);
    let first = ensure_loaded(node, name);
    assert(first.0.loaded.contains(name));
    assert(first.0.wf());
}

/// The address of the node's endpoint scoped to wallet `wallet`.
pub fn wallet_url(base: &str, wallet: &str) -> (r: String)
    ensures
        r@ == base@ + seq!['/', 'w', 'a', 'l', 'l', 'e', 't', '/'] + wallet@,
{
    let sep = "/wallet/";
    proof {
        reveal_strlit("/wallet/");
    }
    let r = String::from_str(base).concat(sep).concat(wallet);
    assert(sep@ =~= seq!['/', 'w', 'a', 'l', 'l', 'e', 't', '/']);
    r
}

} // verus!
