use vstd::prelude::*;
use vstd::string::StringExecFns;

use crate::errors::Error;
use crate::ident::valid_name;

verus! {

/// An IPv4 address with a prefix length.
#[derive(Clone, Copy, Debug, PartialEq, Eq, Structural)]
pub struct Ipv4Cidr {
    pub a: u8,
    pub b: u8,
    pub c: u8,
    pub d: u8,
    pub prefix_len: u8,
}

/// The fixed address of the first-named end of a link: 192.168.1.1/24.
pub open spec fn lhs_link_addr() -> Ipv4Cidr {
    Ipv4Cidr { a: 192, b: 168, c: 1, d: 1, prefix_len: 24 }
}

/// The fixed address of the second-named end of a link: 192.168.1.2/24.
pub open spec fn rhs_link_addr() -> Ipv4Cidr {
    Ipv4Cidr { a: 192, b: 168, c: 1, d: 2, prefix_len: 24 }
}

/// The kernel interface name of a container's end of a link:
/// `veth-<name>`.
pub open spec fn veth_name_text(name: Seq<char>) -> Seq<char> {
    "veth-"@ + name
}

/// Builds the interface name of a container's end of a link.
pub fn veth_ifname(name: &str) -> (r: String)
    ensures
        r@ == veth_name_text(name@),
{
    let mut r = String::from_str("veth-");
    r.append(name);
    r
}

/// Validates the two names given to `link`. Pure: rejection precedes every
/// side effect of the operation.
pub fn check_link_names(lhs: &str, rhs: &str) -> (r: Result<(), Error>)
    ensures
        r is Ok <==> (valid_name(lhs@) && valid_name(rhs@)),
        r is Err ==> r == Err::<(), Error>(Error::InvalidInput),
{
    crate::ident::check_name(lhs)?;
    crate::ident::check_name(rhs)?;
    Ok(())
}

/// Where a link job stands: before which step of the linking sequence.
#[derive(Clone, Copy, Debug, PartialEq, Eq, Structural)]
pub enum LinkStage {
    /// About to create the veth pair in the host namespace.
    CreatePair,
    /// About to look up the first end's interface index.
    QueryLhs,
    /// About to look up the second end's interface index.
    QueryRhs,
    /// About to bring the first end up and move it to its target namespace.
    MoveLhs,
    /// About to bring the second end up and move it to its target namespace.
    MoveRhs,
    /// About to switch the thread into the first container's namespace.
    EnterLhsNs,
    /// Inside the first container's namespace; about to add its address.
    AddLhsAddr,
    /// Inside the first container's namespace; about to switch back.
    RestoreLhsNs,
    /// About to switch the thread into the second container's namespace.
    EnterRhsNs,
    /// Inside the second container's namespace; about to add its address.
    AddRhsAddr,
    /// Inside the second container's namespace; about to switch back.
    RestoreRhsNs,
    /// Finished successfully.
    Done,
    /// Finished with an error.
    Failed,
}

/// The next side-effecting step the shell must perform for a link job.
pub enum LinkAction {
    /// Create a veth pair with the two interface names, in the host
    /// namespace.
    CreateVethPair { lhs_ifname: String, rhs_ifname: String },
    /// Look up the interface index of the named interface.
    QueryIfIndex { ifname: String },
    /// In one call: set the interface administratively up and move it into
    /// the network namespace of the given PID.
    SetUpAndMoveToPidNs { if_index: u32, pid: u32 },
    /// Switch the calling thread into the network namespace of the given
    /// PID, remembering the current namespace.
    EnterNetnsOfPid { pid: u32 },
    /// Add an address to an interface, through a socket opened inside the
    /// namespace the thread is currently in.
    AddAddress { if_index: u32, addr: Ipv4Cidr },
    /// Switch the calling thread back to the namespace it was in before the
    /// last enter.
    RestoreNetns,
    /// The job is over; report this result.
    Finish { result: Result<(), Error> },
}

/// What the shell observed when performing the requested action.
#[derive(Clone, Copy, Debug)]
pub enum LinkEvent {
    /// The action succeeded.
    Succeeded,
    /// The queried interface exists and has this index.
    FoundIndex(u32),
    /// The action failed, classified into the engine's taxonomy.
    Failed(Error),
}

/// The decision machine of the `link` operation. It dictates the exact
/// sequence of kernel steps; the shell performs each action and reports its
/// outcome, and the machine decides the next step. The machine never lets
/// the thread finish while it is switched into a container's network
/// namespace: every continuation from the address-assignment stages passes
/// through a restoring switch, on failure as on success.
pub struct LinkJob {
    /// Where the job stands.
    pub stage: LinkStage,
    /// `veth-<lhs>`.
    pub lhs_ifname: String,
    /// `veth-<rhs>`.
    pub rhs_ifname: String,
    /// The first container's init PID.
    pub lhs_pid: u32,
    /// The second container's init PID.
    pub rhs_pid: u32,
    /// The first end's interface index, once looked up.
    pub lhs_index: u32,
    /// The second end's interface index, once looked up.
    pub rhs_index: u32,
    /// The first failure observed, surfaced when the job finishes.
    pub pending: Option<Error>,
}

impl LinkJob {
    /// Whether the thread is switched into a container's network namespace
    /// at this stage.
    pub open spec fn in_foreign_netns(self) -> bool {
        ||| self.stage == LinkStage::AddLhsAddr
        ||| self.stage == LinkStage::RestoreLhsNs
        ||| self.stage == LinkStage::AddRhsAddr
        ||| self.stage == LinkStage::RestoreRhsNs
    }

    /// Whether the next action is the restoring namespace switch.
    pub open spec fn at_restore(self) -> bool {
        self.stage == LinkStage::RestoreLhsNs || self.stage == LinkStage::RestoreRhsNs
    }

    /// Whether the job is over.
    pub open spec fn terminal(self) -> bool {
        self.stage == LinkStage::Done || self.stage == LinkStage::Failed
    }

    /// A failed job always has an error to report.
    pub open spec fn wf(self) -> bool {
        self.stage == LinkStage::Failed ==> self.pending is Some
    }

    /// Which events the shell may report at this stage: an index for a
    /// query, plain success otherwise, and a classified failure anywhere; a
    /// finished job takes no event.
    pub open spec fn accepts(self, ev: LinkEvent) -> bool {
        match self.stage {
            LinkStage::QueryLhs | LinkStage::QueryRhs => ev is FoundIndex || ev is Failed,
            LinkStage::Done | LinkStage::Failed => false,
            _ => ev is Succeeded || ev is Failed,
        }
    }

    /// The action the shell must perform at the current stage.
    pub open spec fn spec_action(self) -> LinkAction {
        match self.stage {
            LinkStage::CreatePair => LinkAction::CreateVethPair {
                lhs_ifname: self.lhs_ifname,
                rhs_ifname: self.rhs_ifname,
            },
            LinkStage::QueryLhs => LinkAction::QueryIfIndex { ifname: self.lhs_ifname },
            LinkStage::QueryRhs => LinkAction::QueryIfIndex { ifname: self.rhs_ifname },
            LinkStage::MoveLhs => LinkAction::SetUpAndMoveToPidNs {
                if_index: self.lhs_index,
                pid: self.lhs_pid,
            },
            LinkStage::MoveRhs => LinkAction::SetUpAndMoveToPidNs {
                if_index: self.rhs_index,
                pid: self.rhs_pid,
            },
            LinkStage::EnterLhsNs => LinkAction::EnterNetnsOfPid { pid: self.lhs_pid },
            LinkStage::AddLhsAddr => LinkAction::AddAddress {
                if_index: self.lhs_index,
                addr: lhs_link_addr(),
            },
            LinkStage::RestoreLhsNs => LinkAction::RestoreNetns,
            LinkStage::EnterRhsNs => LinkAction::EnterNetnsOfPid { pid: self.rhs_pid },
            LinkStage::AddRhsAddr => LinkAction::AddAddress {
                if_index: self.rhs_index,
                addr: rhs_link_addr(),
            },
            LinkStage::RestoreRhsNs => LinkAction::RestoreNetns,
            LinkStage::Done => LinkAction::Finish { result: Ok(()) },
            LinkStage::Failed => LinkAction::Finish {
                result: Err(
                    match self.pending {
                        Some(e) => e,
                        None => Error::KernelReject,
                    },
                ),
            },
        }
    }

    /// The machine's transition function: the state after the shell reports
    /// `ev` at state `pre`.
    pub open spec fn spec_step(pre: LinkJob, ev: LinkEvent) -> LinkJob {
        match ev {
            LinkEvent::Failed(e) => match pre.stage {
                // A failure inside a foreign namespace defers the error and
                // restores the namespace first.
                LinkStage::AddLhsAddr => LinkJob {
                    stage: LinkStage::RestoreLhsNs,
                    pending: Some(e),
                    ..pre
                },
                LinkStage::AddRhsAddr => LinkJob {
                    stage: LinkStage::RestoreRhsNs,
                    pending: Some(e),
                    ..pre
                },
                // A failure of the restoring switch itself ends the job; the
                // first error observed is the one reported.
                LinkStage::RestoreLhsNs | LinkStage::RestoreRhsNs => LinkJob {
                    stage: LinkStage::Failed,
                    pending: if pre.pending is Some {
                        pre.pending
                    } else {
                        Some(e)
                    },
                    ..pre
                },
                _ => LinkJob { stage: LinkStage::Failed, pending: Some(e), ..pre },
            },
            LinkEvent::FoundIndex(i) => match pre.stage {
                LinkStage::QueryLhs => LinkJob {
                    stage: LinkStage::QueryRhs,
                    lhs_index: i,
                    ..pre
                },
                LinkStage::QueryRhs => LinkJob { stage: LinkStage::MoveLhs, rhs_index: i, ..pre },
                _ => pre,
            },
            LinkEvent::Succeeded => match pre.stage {
                LinkStage::CreatePair => LinkJob { stage: LinkStage::QueryLhs, ..pre },
                LinkStage::MoveLhs => LinkJob { stage: LinkStage::MoveRhs, ..pre },
                LinkStage::MoveRhs => LinkJob { stage: LinkStage::EnterLhsNs, ..pre },
                LinkStage::EnterLhsNs => LinkJob { stage: LinkStage::AddLhsAddr, ..pre },
                LinkStage::AddLhsAddr => LinkJob { stage: LinkStage::RestoreLhsNs, ..pre },
                LinkStage::RestoreLhsNs => if pre.pending is Some {
                    LinkJob { stage: LinkStage::Failed, ..pre }
                } else {
                    LinkJob { stage: LinkStage::EnterRhsNs, ..pre }
                },
                LinkStage::EnterRhsNs => LinkJob { stage: LinkStage::AddRhsAddr, ..pre },
                LinkStage::AddRhsAddr => LinkJob { stage: LinkStage::RestoreRhsNs, ..pre },
                LinkStage::RestoreRhsNs => if pre.pending is Some {
                    LinkJob { stage: LinkStage::Failed, ..pre }
                } else {
                    LinkJob { stage: LinkStage::Done, ..pre }
                },
                _ => pre,
            },
        }
    }

    /// Starts a link job between two validated container names whose init
    /// PIDs have been read from the registry.
    pub fn new(lhs: &str, rhs: &str, lhs_pid: u32, rhs_pid: u32) -> (r: LinkJob)
        requires
            valid_name(lhs@),
            valid_name(rhs@),
        ensures
            r.stage == LinkStage::CreatePair,
            r.lhs_ifname@ == veth_name_text(lhs@),
            r.rhs_ifname@ == veth_name_text(rhs@),
            r.lhs_pid == lhs_pid,
            r.rhs_pid == rhs_pid,
            r.pending is None,
            r.wf(),
            !r.in_foreign_netns(),
            !r.terminal(),
    {
        LinkJob {
            stage: LinkStage::CreatePair,
            lhs_ifname: veth_ifname(lhs),
            rhs_ifname: veth_ifname(rhs),
            lhs_pid,
            rhs_pid,
            lhs_index: 0,
            rhs_index: 0,
            pending: None,
        }
    }

    /// The action the shell must perform next.
    pub fn current_action(&self) -> (a: LinkAction)
        ensures
            a == self.spec_action(),
    {
        match self.stage {
            LinkStage::CreatePair => LinkAction::CreateVethPair {
                lhs_ifname: self.lhs_ifname.clone(),
                rhs_ifname: self.rhs_ifname.clone(),
            },
            LinkStage::QueryLhs => LinkAction::QueryIfIndex { ifname: self.lhs_ifname.clone() },
            LinkStage::QueryRhs => LinkAction::QueryIfIndex { ifname: self.rhs_ifname.clone() },
            LinkStage::MoveLhs => LinkAction::SetUpAndMoveToPidNs {
                if_index: self.lhs_index,
                pid: self.lhs_pid,
            },
            LinkStage::MoveRhs => LinkAction::SetUpAndMoveToPidNs {
                if_index: self.rhs_index,
                pid: self.rhs_pid,
            },
            LinkStage::EnterLhsNs => LinkAction::EnterNetnsOfPid { pid: self.lhs_pid },
            LinkStage::AddLhsAddr => LinkAction::AddAddress {
                if_index: self.lhs_index,
                addr: Ipv4Cidr { a: 192, b: 168, c: 1, d: 1, prefix_len: 24 },
            },
            LinkStage::RestoreLhsNs => LinkAction::RestoreNetns,
            LinkStage::EnterRhsNs => LinkAction::EnterNetnsOfPid { pid: self.rhs_pid },
            LinkStage::AddRhsAddr => LinkAction::AddAddress {
                if_index: self.rhs_index,
                addr: Ipv4Cidr { a: 192, b: 168, c: 1, d: 2, prefix_len: 24 },
            },
            LinkStage::RestoreRhsNs => LinkAction::RestoreNetns,
            LinkStage::Done => LinkAction::Finish { result: Ok(()) },
            LinkStage::Failed => LinkAction::Finish {
                result: Err(
                    match self.pending {
                        Some(e) => e,
                        None => Error::KernelReject,
                    },
                ),
            },
        }
    }

    /// Advances the machine on the outcome of the action just performed.
    pub fn on_event(&mut self, ev: LinkEvent)
        requires
            old(self).wf(),
            old(self).accepts(ev),
        ensures
            *final(self) == LinkJob::spec_step(*old(self), ev),
            final(self).wf(),
            final(self).terminal() ==> !final(self).in_foreign_netns(),
            old(self).in_foreign_netns() && !final(self).in_foreign_netns() ==> old(
                self,
            ).at_restore(),
    {
        match ev {
            LinkEvent::Failed(e) => match self.stage {
                LinkStage::AddLhsAddr => {
                    self.stage = LinkStage::RestoreLhsNs;
                    self.pending = Some(e);
                },
                LinkStage::AddRhsAddr => {
                    self.stage = LinkStage::RestoreRhsNs;
                    self.pending = Some(e);
                },
                LinkStage::RestoreLhsNs | LinkStage::RestoreRhsNs => {
                    self.stage = LinkStage::Failed;
                    if self.pending.is_none() {
                        self.pending = Some(e);
                    }
                },
                _ => {
                    self.stage = LinkStage::Failed;
                    self.pending = Some(e);
                },
            },
            LinkEvent::FoundIndex(i) => match self.stage {
                LinkStage::QueryLhs => {
                    self.stage = LinkStage::QueryRhs;
                    self.lhs_index = i;
                },
                LinkStage::QueryRhs => {
                    self.stage = LinkStage::MoveLhs;
                    self.rhs_index = i;
                },
                _ => {},
            },
            LinkEvent::Succeeded => match self.stage {
                LinkStage::CreatePair => {
                    self.stage = LinkStage::QueryLhs;
                },
                LinkStage::MoveLhs => {
                    self.stage = LinkStage::MoveRhs;
                },
                LinkStage::MoveRhs => {
                    self.stage = LinkStage::EnterLhsNs;
                },
                LinkStage::EnterLhsNs => {
                    self.stage = LinkStage::AddLhsAddr;
                },
                LinkStage::AddLhsAddr => {
                    self.stage = LinkStage::RestoreLhsNs;
                },
                LinkStage::RestoreLhsNs => {
                    if self.pending.is_some() {
                        self.stage = LinkStage::Failed;
                    } else {
                        self.stage = LinkStage::EnterRhsNs;
                    }
                },
                LinkStage::EnterRhsNs => {
                    self.stage = LinkStage::AddRhsAddr;
                },
                LinkStage::AddRhsAddr => {
                    self.stage = LinkStage::RestoreRhsNs;
                },
                LinkStage::RestoreRhsNs => {
                    if self.pending.is_some() {
                        self.stage = LinkStage::Failed;
                    } else {
                        self.stage = LinkStage::Done;
                    }
                },
                _ => {},
            },
        }
    }
}

/// Net-namespace discipline of the link machine: a finished job is never
/// inside a container's namespace, and the only stages from which the
/// thread leaves a container's namespace are the restoring switches; hence
/// the thread's namespace membership when the job reports its result equals
/// its membership before the job began, on failure as on success.
pub proof fn lemma_netns_restored(pre: LinkJob, ev: LinkEvent)
    requires
        pre.wf(),
        pre.accepts(ev),
    ensures
        LinkJob::spec_step(pre, ev).terminal() ==> !LinkJob::spec_step(pre, ev).in_foreign_netns(),
        pre.in_foreign_netns() && !LinkJob::spec_step(pre, ev).in_foreign_netns()
            ==> pre.at_restore(),
{
}

/// The thread's namespace membership after an address assignment inside a
/// peer's namespace equals its membership before: from either entering
/// stage, whether the assignment succeeds or fails, the job is inside the
/// namespace only until the restoring switch, which it always reaches, and
/// is outside it again once that switch completes.
pub proof fn lemma_assign_in_namespace_balanced(pre: LinkJob, outcome: LinkEvent)
    requires
        pre.wf(),
        pre.stage == LinkStage::EnterLhsNs || pre.stage == LinkStage::EnterRhsNs,
        outcome is Succeeded || outcome is Failed,
    ensures
        !pre.in_foreign_netns(),
        ({
            let entered = LinkJob::spec_step(pre, LinkEvent::Succeeded);
            let assigned = LinkJob::spec_step(entered, outcome);
            let restored = LinkJob::spec_step(assigned, LinkEvent::Succeeded);
            entered.in_foreign_netns() && assigned.at_restore() && !restored.in_foreign_netns()
        }),
{
}

} // verus!
