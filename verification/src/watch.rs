//! The scheduled backup pass: which containers it takes, and how long to
//! wait for the next one.

use vstd::prelude::*;
use crate::cleanup::ContainerSummary;
use crate::container::{distinct_keys, label_views, sidecar_labels, Label, PID_LABEL};
use crate::text::{remove_char, same_text, texts, without};

verus! {

/// The label by which a container opts out of scheduled backups, with the
/// value `false`.
pub const ENABLED_LABEL: &'static str = "com.github.aig787.dockyard.enabled";

/// The label that keeps a container out of scheduled backups, with the value
/// `true`. Every helper container carries it.
pub const DISABLED_LABEL: &'static str = "com.github.aig787.dockyard.disabled";

/// The value of the first label with the given key.
pub open spec fn label_value(labels: Seq<(Seq<char>, Seq<char>)>, key: Seq<char>) -> Option<Seq<char>>
    decreases labels.len(),
{
    if labels.len() == 0 {
        None
    } else if labels[0].0 == key {
        Some(labels[0].1)
    } else {
        label_value(labels.drop_first(), key)
    }
}

/// Whether a container with these labels takes part in scheduled backups:
/// unless it is marked as not enabled, or as disabled.
pub open spec fn scheduled(labels: Seq<(Seq<char>, Seq<char>)>) -> bool {
    label_value(labels, ENABLED_LABEL@) != Some("false"@) && label_value(labels, DISABLED_LABEL@)
        != Some("true"@)
}

proof fn label_value_of_suffix(labels: Seq<(Seq<char>, Seq<char>)>, key: Seq<char>, i: int)
    requires
        0 <= i <= labels.len(),
        forall|k: int| 0 <= k < i ==> labels[k].0 != key,
    ensures
        label_value(labels, key) == label_value(labels.subrange(i, labels.len() as int), key),
    decreases i,
{
    if i == 0 {
        assert(labels.subrange(0, labels.len() as int) =~= labels);
    } else {
        label_value_of_suffix(labels.drop_first(), key, i - 1);
        assert(labels.drop_first().subrange(i - 1, labels.len() - 1) =~= labels.subrange(
            i,
            labels.len() as int,
        ));
    }
}

/// Where no key occurs twice, the value found for a key is that of the one
/// label with that key: the labels are looked up as in a map.
pub proof fn labels_are_looked_up_as_in_a_map(
    labels: Seq<(Seq<char>, Seq<char>)>,
    key: Seq<char>,
    value: Seq<char>,
)
    requires
        distinct_keys(labels),
    ensures
        label_value(labels, key) == Some(value) <==> exists|i: int|
            0 <= i < labels.len() && #[trigger] labels[i] == (key, value),
    decreases labels.len(),
{
    if labels.len() > 0 {
        let rest = labels.drop_first();
        assert forall|i: int, j: int| 0 <= i < j < rest.len() implies rest[i].0 != rest[j].0 by {
            assert(rest[i] == labels[i + 1]);
            assert(rest[j] == labels[j + 1]);
        }
        labels_are_looked_up_as_in_a_map(rest, key, value);
        if label_value(labels, key) == Some(value) {
            if labels[0].0 == key {
                assert(labels[0] == (key, value));
            } else {
                let i = choose|i: int| 0 <= i < rest.len() && #[trigger] rest[i] == (key, value);
                assert(labels[i + 1] == (key, value));
            }
        }
        if exists|i: int| 0 <= i < labels.len() && #[trigger] labels[i] == (key, value) {
            let i = choose|i: int| 0 <= i < labels.len() && #[trigger] labels[i] == (key, value);
            if i > 0 {
                assert(labels[0].0 != labels[i].0);
                assert(rest[i - 1] == (key, value));
            }
        }
    }
}

/// Tells whether the first label with the key `key` has the value `value`.
pub fn has_label(labels: &Vec<Label>, key: &str, value: &str) -> (yes: bool)
    ensures
        yes == (label_value(label_views(labels@), key@) == Some(value@)),
{
    let mut i: usize = 0;
    while i < labels.len()
        invariant
            i <= labels@.len(),
            forall|k: int| 0 <= k < i ==> label_views(labels@)[k].0 != key@,
        decreases labels@.len() - i,
    {
        if same_text(labels[i].key.as_str(), key) {
            proof {
                let all = label_views(labels@);
                label_value_of_suffix(all, key@, i as int);
                assert(all.subrange(i as int, all.len() as int)[0] == all[i as int]);
            }
            return same_text(labels[i].value.as_str(), value);
        }
        i += 1;
    }
    proof {
        let all = label_views(labels@);
        label_value_of_suffix(all, key@, i as int);
        assert(all.subrange(i as int, all.len() as int).len() == 0);
    }
    false
}

/// Tells whether a container with these labels takes part in scheduled
/// backups.
pub fn is_scheduled(labels: &Vec<Label>) -> (yes: bool)
    ensures
        yes == scheduled(label_views(labels@)),
{
    !has_label(labels, ENABLED_LABEL, "false") && !has_label(labels, DISABLED_LABEL, "true")
}

/// The name under which a listed container is backed up: its name without
/// any slash.
pub open spec fn backup_name(name: Seq<char>) -> Seq<char> {
    without(name, '/')
}

/// The names of the containers that one scheduled pass backs up, in the
/// order in which the daemon lists them.
pub open spec fn scheduled_names(containers: Seq<ContainerSummary>) -> Seq<Seq<char>>
    decreases containers.len(),
{
    if containers.len() == 0 {
        Seq::empty()
    } else if scheduled(containers.last()@.labels) {
        scheduled_names(containers.drop_last()).push(backup_name(containers.last()@.name))
    } else {
        scheduled_names(containers.drop_last())
    }
}

/// The containers that one scheduled pass backs up, by name and in order.
pub fn containers_to_back_up(containers: &Vec<ContainerSummary>) -> (names: Vec<String>)
    ensures
        texts(names@) == scheduled_names(containers@),
{
    let mut names: Vec<String> = Vec::new();
    let mut i: usize = 0;
    proof {
        assert(texts(names@) =~= scheduled_names(containers@.subrange(0, 0)));
    }
    while i < containers.len()
        invariant
            i <= containers@.len(),
            texts(names@) == scheduled_names(containers@.subrange(0, i as int)),
        decreases containers@.len() - i,
    {
        let container = &containers[i];
        proof {
            let next = containers@.subrange(0, i + 1);
            assert(next.drop_last() =~= containers@.subrange(0, i as int));
            assert(next.last() == containers@[i as int]);
        }
        if is_scheduled(&container.labels) {
            let ghost before = texts(names@);
            names.push(remove_char(container.name.as_str(), '/'));
            proof {
                assert(texts(names@) =~= before.push(backup_name(container@.name)));
            }
        }
        i += 1;
    }
    proof {
        assert(containers@.subrange(0, i as int) =~= containers@);
    }
    names
}

/// A helper container never takes part in a scheduled backup, whatever
/// process made it.
pub proof fn helpers_are_not_scheduled(pid: u32)
    ensures
        !scheduled(sidecar_labels(pid)),
{
    reveal_strlit("com.github.aig787.dockyard.pid");
    reveal_strlit("com.github.aig787.dockyard.disabled");
    let labels = sidecar_labels(pid);
    assert(PID_LABEL@.len() != DISABLED_LABEL@.len());
    assert(labels.drop_first()[0] == labels[1]);
    assert(label_value(labels.drop_first(), DISABLED_LABEL@) == Some("true"@));
    assert(label_value(labels, DISABLED_LABEL@) == Some("true"@));
}

/// The seconds to wait from `now` until `scheduled`, both in seconds since
/// the epoch: none where the time has passed.
pub open spec fn wait_seconds(now: i64, scheduled: i64) -> int {
    if now > scheduled {
        0
    } else {
        scheduled - now
    }
}

/// The seconds to wait until the next scheduled backup.
pub fn delay_seconds(now: i64, scheduled: i64) -> (seconds: u64)
    ensures
        seconds == wait_seconds(now, scheduled),
{
    if now > scheduled {
        0
    } else {
        let wide: i128 = scheduled as i128 - now as i128;
        wide as u64
    }
}

} // verus!
