use dockyard::cleanup::ContainerSummary;
use dockyard::container::{helper_labels, Label};
use dockyard::watch::{
    containers_to_back_up, delay_seconds, has_label, is_scheduled, DISABLED_LABEL, ENABLED_LABEL,
};

fn label(key: &str, value: &str) -> Label {
    Label { key: key.to_string(), value: value.to_string() }
}

fn container(name: &str, labels: Vec<Label>) -> ContainerSummary {
    ContainerSummary {
        id: format!("id-{}", name),
        name: name.to_string(),
        state: "running".to_string(),
        labels,
    }
}

#[test]
fn containers_are_scheduled_unless_they_opt_out() {
    assert!(is_scheduled(&Vec::new()));
    assert!(is_scheduled(&vec![label("com.a.label-one", "one")]));
    assert!(is_scheduled(&vec![label(ENABLED_LABEL, "true")]));
    assert!(!is_scheduled(&vec![label(ENABLED_LABEL, "false")]));
    assert!(!is_scheduled(&vec![label("x", "y"), label("com.github.aig787.dockyard.enabled", "false")]));
    assert!(!is_scheduled(&vec![label(DISABLED_LABEL, "true")]));
    assert!(is_scheduled(&vec![label(DISABLED_LABEL, "false")]));
}

#[test]
fn helper_containers_are_never_scheduled() {
    assert!(!is_scheduled(&helper_labels(1)));
    assert!(!is_scheduled(&helper_labels(u32::MAX)));
}

#[test]
fn the_first_label_of_a_key_counts() {
    let labels = vec![label("k", "a"), label("k", "b")];
    assert!(has_label(&labels, "k", "a"));
    assert!(!has_label(&labels, "k", "b"));
    assert!(!has_label(&labels, "other", "a"));
    assert!(!has_label(&Vec::new(), "k", "a"));
}

#[test]
fn a_pass_takes_the_scheduled_containers_by_name() {
    let containers = vec![
        container("/web", Vec::new()),
        container("/dockyard_1", helper_labels(7)),
        container("/db", vec![label(ENABLED_LABEL, "false")]),
        container("/cache", vec![label(ENABLED_LABEL, "true")]),
    ];
    assert_eq!(containers_to_back_up(&containers), vec!["web".to_string(), "cache".to_string()]);
    assert!(containers_to_back_up(&Vec::new()).is_empty());
}

#[test]
fn the_delay_is_the_time_that_is_left() {
    assert_eq!(delay_seconds(5, 65), 60);
    assert_eq!(delay_seconds(65, 65), 0);
    assert_eq!(delay_seconds(66, 65), 0);
    assert_eq!(delay_seconds(-10, 10), 20);
    assert_eq!(delay_seconds(i64::MIN, i64::MAX), u64::MAX);
    assert_eq!(delay_seconds(i64::MAX, i64::MIN), 0);
}
