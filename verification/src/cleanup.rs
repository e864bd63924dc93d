//! Reclaiming containers: which containers are looked for, and what is done
//! with each that is found.

use vstd::prelude::*;
use crate::container::{distinct_keys, label_views, sidecar_labels, Label, PID_LABEL};
use crate::text::{decimal, decimal_string, same_text, texts};

verus! {

/// A container as the daemon lists it.
#[derive(Clone, Debug, PartialEq, Eq)]
pub struct ContainerSummary {
    pub id: String,
    /// The first of the container's names.
    pub name: String,
    pub state: String,
    pub labels: Vec<Label>,
}

/// What a `ContainerSummary` stands for.
pub struct ContainerSummaryView {
    pub id: Seq<char>,
    pub name: Seq<char>,
    pub state: Seq<char>,
    pub labels: Seq<(Seq<char>, Seq<char>)>,
}

impl ContainerSummaryView {
    /// The labels stand for a map: no key occurs twice.
    pub open spec fn wf(self) -> bool {
        distinct_keys(self.labels)
    }
}

impl View for ContainerSummary {
    type V = ContainerSummaryView;

    open spec fn view(&self) -> ContainerSummaryView {
        ContainerSummaryView {
            id: self.id@,
            name: self.name@,
            state: self.state@,
            labels: label_views(self.labels@),
        }
    }
}

/// The views of a sequence of containers.
pub open spec fn summary_views(v: Seq<ContainerSummary>) -> Seq<ContainerSummaryView> {
    Seq::new(v.len(), |i: int| v[i]@)
}

/// The lower-case form of a text, as `str::to_lowercase` gives it.
pub uninterp spec fn lowercased(s: Seq<char>) -> Seq<char>;

/// `str::to_lowercase`: the text with each character in its lower-case form.
#[verifier::external_body]
fn lowercase(s: &str) -> (lower: String)
    ensures
        lower@ == lowercased(s@),
{
    s.to_lowercase()
}

/// Whether a container in this state is running.
pub open spec fn running(state: Seq<char>) -> bool {
    lowercased(state) == "running"@
}

/// Tells whether a lower-case state is that of a running container.
pub fn is_running_state(lower: &str) -> (yes: bool)
    ensures
        yes == (lower@ == "running"@),
{
    same_text(lower, "running")
}

/// Tells whether a container in this state is running, whatever the case
/// the state is written in.
pub fn is_running(state: &str) -> (yes: bool)
    ensures
        yes == running(state@),
{
    let lower = lowercase(state);
    is_running_state(lower.as_str())
}

/// What is done with a container that is reclaimed.
#[derive(Clone, Debug, PartialEq, Eq)]
pub enum CleanupAction {
    /// Stop the container with this id.
    Kill(String),
    /// Remove the container with this id by force.
    Remove(String),
}

/// What a `CleanupAction` stands for.
pub enum CleanupActionView {
    Kill(Seq<char>),
    Remove(Seq<char>),
}

impl View for CleanupAction {
    type V = CleanupActionView;

    open spec fn view(&self) -> CleanupActionView {
        match self {
            CleanupAction::Kill(id) => CleanupActionView::Kill(id@),
            CleanupAction::Remove(id) => CleanupActionView::Remove(id@),
        }
    }
}

/// The views of a sequence of actions.
pub open spec fn action_views(v: Seq<CleanupAction>) -> Seq<CleanupActionView> {
    Seq::new(v.len(), |i: int| v[i]@)
}

/// What is done with one container: it is stopped if it runs, and removed.
pub open spec fn actions_for(c: ContainerSummaryView) -> Seq<CleanupActionView> {
    if running(c.state) {
        seq![CleanupActionView::Kill(c.id), CleanupActionView::Remove(c.id)]
    } else {
        seq![CleanupActionView::Remove(c.id)]
    }
}

/// What is done with a list of containers: each in turn.
pub open spec fn cleanup_actions(containers: Seq<ContainerSummary>) -> Seq<CleanupActionView>
    decreases containers.len(),
{
    if containers.len() == 0 {
        Seq::empty()
    } else {
        cleanup_actions(containers.drop_last()) + actions_for(containers.last()@)
    }
}

/// The actions that stop and remove the containers, in the order in which
/// they are to be carried out.
pub fn stop_and_remove_containers(containers: &Vec<ContainerSummary>) -> (actions: Vec<CleanupAction>)
    ensures
        action_views(actions@) == cleanup_actions(containers@),
{
    let mut actions: Vec<CleanupAction> = Vec::new();
    let mut i: usize = 0;
    proof {
        assert(action_views(actions@) =~= cleanup_actions(containers@.subrange(0, 0)));
    }
    while i < containers.len()
        invariant
            i <= containers@.len(),
            action_views(actions@) == cleanup_actions(containers@.subrange(0, i as int)),
        decreases containers@.len() - i,
    {
        let container = &containers[i];
        let ghost before = action_views(actions@);
        proof {
            let next = containers@.subrange(0, i + 1);
            assert(next.drop_last() =~= containers@.subrange(0, i as int));
            assert(next.last() == containers@[i as int]);
        }
        if is_running(container.state.as_str()) {
            actions.push(CleanupAction::Kill(container.id.clone()));
        }
        actions.push(CleanupAction::Remove(container.id.clone()));
        proof {
            assert(action_views(actions@) =~= before + actions_for(container@));
        }
        i += 1;
    }
    proof {
        assert(containers@.subrange(0, i as int) =~= containers@);
    }
    actions
}

/// Every container is removed, and a running one is stopped just before.
pub proof fn every_container_is_removed(containers: Seq<ContainerSummary>, i: int)
    requires
        0 <= i < containers.len(),
    ensures
        exists|k: int|
            0 <= k < cleanup_actions(containers).len() && #[trigger] cleanup_actions(containers)[k]
                == CleanupActionView::Remove(containers[i]@.id) && (running(containers[i]@.state)
                ==> k > 0 && cleanup_actions(containers)[k - 1] == CleanupActionView::Kill(
                containers[i]@.id,
            )),
    decreases containers.len(),
{
    let front = cleanup_actions(containers.drop_last());
    let all = cleanup_actions(containers);
    if i == containers.len() - 1 {
        let k = all.len() - 1;
        assert(all[k] == CleanupActionView::Remove(containers[i]@.id));
        if running(containers[i]@.state) {
            assert(all[k - 1] == CleanupActionView::Kill(containers[i]@.id));
        }
    } else {
        every_container_is_removed(containers.drop_last(), i);
        let k = choose|k: int|
            0 <= k < front.len() && #[trigger] front[k] == CleanupActionView::Remove(
                containers.drop_last()[i]@.id,
            ) && (running(containers.drop_last()[i]@.state) ==> k > 0 && front[k - 1]
                == CleanupActionView::Kill(containers.drop_last()[i]@.id));
        assert(all[k] == front[k]);
        if k > 0 {
            assert(all[k - 1] == front[k - 1]);
        }
    }
}

/// The label filter that finds the containers made by the process `pid`.
pub open spec fn child_filter(pid: u32) -> Seq<Seq<char>> {
    seq![PID_LABEL@ + "="@ + decimal(pid as nat)]
}

/// The label filter that finds every container made by this tool, whatever
/// process made it.
pub open spec fn dockyard_filter() -> Seq<Seq<char>> {
    seq![PID_LABEL@]
}

/// The labels by which the containers of the process `pid` are listed.
pub fn child_container_labels(pid: u32) -> (labels: Vec<String>)
    ensures
        texts(labels@) == child_filter(pid),
{
    let mut labels: Vec<String> = Vec::new();
    labels.push(String::from_str(PID_LABEL).concat("=").concat(decimal_string(pid as u64).as_str()));
    proof {
        assert(texts(labels@) =~= child_filter(pid));
    }
    labels
}

/// The labels by which every container of this tool is listed.
pub fn dockyard_container_labels() -> (labels: Vec<String>)
    ensures
        texts(labels@) == dockyard_filter(),
{
    let mut labels: Vec<String> = Vec::new();
    labels.push(String::from_str(PID_LABEL));
    proof {
        assert(texts(labels@) =~= dockyard_filter());
    }
    labels
}

/// The containers of a process are looked for by the very label that the
/// helpers of that process carry, and the containers of this tool by that
/// label's key.
pub proof fn cleanup_looks_for_the_owner_label(pid: u32)
    ensures
        child_filter(pid) == seq![sidecar_labels(pid)[0].0 + "="@ + sidecar_labels(pid)[0].1],
        dockyard_filter() == seq![sidecar_labels(pid)[0].0],
{
}

} // verus!
