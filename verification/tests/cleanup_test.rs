use dockyard::cleanup::{
    child_container_labels, dockyard_container_labels, is_running, is_running_state,
    stop_and_remove_containers, CleanupAction, ContainerSummary,
};

fn container(id: &str, state: &str) -> ContainerSummary {
    ContainerSummary {
        id: id.to_string(),
        name: format!("/{}", id),
        state: state.to_string(),
        labels: Vec::new(),
    }
}

#[test]
fn running_containers_are_stopped_before_they_are_removed() {
    let containers = vec![container("a", "running"), container("b", "exited"), container("c", "Running")];
    assert_eq!(
        stop_and_remove_containers(&containers),
        vec![
            CleanupAction::Kill("a".to_string()),
            CleanupAction::Remove("a".to_string()),
            CleanupAction::Remove("b".to_string()),
            CleanupAction::Kill("c".to_string()),
            CleanupAction::Remove("c".to_string()),
        ]
    );
    assert!(stop_and_remove_containers(&Vec::new()).is_empty());
}

#[test]
fn running_is_told_whatever_the_case() {
    assert!(is_running("running"));
    assert!(is_running("RUNNING"));
    assert!(is_running("Running"));
    assert!(!is_running("exited"));
    assert!(!is_running("created"));
    assert!(!is_running(""));
    assert!(is_running_state("running"));
    assert!(!is_running_state("Running"));
}

#[test]
fn containers_are_found_by_the_owner_label() {
    assert_eq!(child_container_labels(42), vec!["com.github.aig787.dockyard.pid=42".to_string()]);
    assert_eq!(
        child_container_labels(u32::MAX),
        vec!["com.github.aig787.dockyard.pid=4294967295".to_string()]
    );
    assert_eq!(dockyard_container_labels(), vec!["com.github.aig787.dockyard.pid".to_string()]);
}
