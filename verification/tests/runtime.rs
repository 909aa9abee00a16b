use guilauncher::runtime::{
    crucial_components, plan_runtime, runtime_healthy, RuntimePlan, APPLICATION_DIRECTORY,
    CRUCIAL_COMPONENTS, INTERPRETER, PACKAGE_SYNC_STEPS, RUNTIME_DIRECTORY,
};

#[test]
fn layout_names() {
    assert_eq!(APPLICATION_DIRECTORY, "RLBotGUIX");
    assert_eq!(RUNTIME_DIRECTORY, "Python311");
    assert_eq!(INTERPRETER, "python.exe");
    assert_eq!(PACKAGE_SYNC_STEPS, 3);
}

#[test]
fn interpreter_is_the_crucial_component() {
    assert_eq!(crucial_components(), vec!["python.exe"]);
    assert_eq!(crucial_components().len(), CRUCIAL_COMPONENTS);
    assert_eq!(CRUCIAL_COMPONENTS, 1);
}

#[test]
fn runtime_is_healthy_when_every_component_is_there() {
    assert!(runtime_healthy(&[true]));
    assert!(runtime_healthy(&[true, true, true]));
}

#[test]
fn runtime_without_a_component_looked_for_is_not_healthy() {
    assert!(!runtime_healthy(&[]));
}

#[test]
fn runtime_is_broken_when_a_component_is_missing() {
    assert!(!runtime_healthy(&[false]));
    assert!(!runtime_healthy(&[false, true, true]));
    assert!(!runtime_healthy(&[true, false, true]));
    assert!(!runtime_healthy(&[true, true, false]));
}

#[test]
fn healthy_runtime_is_kept() {
    assert_eq!(plan_runtime(true, true, false), RuntimePlan { remove: false, provision: false });
}

#[test]
fn broken_runtime_is_removed_and_installed() {
    assert_eq!(plan_runtime(true, false, false), RuntimePlan { remove: true, provision: true });
}

#[test]
fn missing_runtime_is_installed_without_removal() {
    assert_eq!(plan_runtime(false, false, false), RuntimePlan { remove: false, provision: true });
}

#[test]
fn reinstall_removes_what_exists_and_installs() {
    assert_eq!(plan_runtime(true, true, true), RuntimePlan { remove: true, provision: true });
    assert_eq!(plan_runtime(true, false, true), RuntimePlan { remove: true, provision: true });
    assert_eq!(plan_runtime(false, false, true), RuntimePlan { remove: false, provision: true });
    assert_eq!(plan_runtime(false, true, true), RuntimePlan { remove: false, provision: true });
}
