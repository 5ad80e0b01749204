use pax_reactive_streaming::dag::{ComponentDAG, DependencyEdge, DependencyType};
use pax_reactive_streaming::session::{next_step, ConnectionStep, IncomingMessage};
use pax_reactive_streaming::update::{ComponentUpdate, UpdateType};
use std::time::SystemTime;

#[test]
fn new_graph_has_no_dependents() {
    let dag = ComponentDAG::new();
    assert!(dag.get_dependent_components("demo_button").is_empty());
}

#[test]
fn updates_for_unknown_components_change_nothing() {
    let mut dag = ComponentDAG::new();
    dag.update_component_source("demo_button", r#"{"source_code":"<Button/>"}"#);
    dag.rebuild_dependencies("demo_button");
    let u = ComponentUpdate {
        component_id: "dynamic_layout".to_string(),
        update_type: UpdateType::StructureChanged,
        data: "{}".to_string(),
        timestamp: 1,
        affected_components: vec![],
    };
    dag.apply_update_at(&u, SystemTime::now());
    dag.update_component_source_at("dynamic_layout", r#"{"source_code":"x"}"#, SystemTime::now());
    assert!(dag.get_dependent_components("demo_button").is_empty());
    assert!(dag.get_dependent_components("dynamic_layout").is_empty());
}

#[test]
fn dependency_edges_carry_their_type() {
    let e = DependencyEdge { dependency_type: DependencyType::Property };
    assert_eq!(e.dependency_type, DependencyType::Property);
    assert_ne!(e.dependency_type, DependencyType::Child);
}

#[test]
fn connection_stays_open_until_close() {
    assert_eq!(next_step(&IncomingMessage::Text("hello".to_string())), ConnectionStep::Continue);
    assert_eq!(next_step(&IncomingMessage::Other), ConnectionStep::Continue);
    assert_eq!(next_step(&IncomingMessage::Close), ConnectionStep::Stop);
}
