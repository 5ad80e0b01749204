use pax_reactive_streaming::compiler::{
    compilation_finished_update, compile_component, CompilationTask, HotReloadCompiler,
};
use pax_reactive_streaming::update::{ComponentUpdate, UpdateType};

fn task(id: &str, priority: u8) -> CompilationTask {
    CompilationTask {
        component_id: id.to_string(),
        source_code: format!("<{}/>", id),
        dependencies: vec![id.to_string()],
        priority,
    }
}

fn update(id: &str, update_type: UpdateType, data: &str) -> ComponentUpdate {
    ComponentUpdate {
        component_id: id.to_string(),
        update_type,
        data: data.to_string(),
        timestamp: 42,
        affected_components: vec![id.to_string(), "parent_component".to_string()],
    }
}

#[test]
fn empty_queue_yields_nothing() {
    let mut compiler = HotReloadCompiler::new();
    assert!(compiler.get_next_task().is_none());
}

#[test]
fn add_then_take_returns_the_task() {
    let mut compiler = HotReloadCompiler::new();
    compiler.add_task(task("demo_button", 1));
    let next = compiler.get_next_task().unwrap();
    assert_eq!(next.component_id, "demo_button");
    assert_eq!(next.source_code, "<demo_button/>");
    assert!(compiler.get_next_task().is_none());
}

#[test]
fn highest_priority_comes_out_first() {
    let mut compiler = HotReloadCompiler::new();
    compiler.add_task(task("low", 1));
    compiler.add_task(task("high", 5));
    assert_eq!(compiler.get_next_task().unwrap().component_id, "high");
    assert_eq!(compiler.get_next_task().unwrap().component_id, "low");
    assert!(compiler.get_next_task().is_none());
}

#[test]
fn tasks_come_out_by_descending_priority() {
    let mut compiler = HotReloadCompiler::new();
    compiler.add_task(task("a", 1));
    compiler.add_task(task("c", 3));
    compiler.add_task(task("b", 2));
    let order: Vec<u8> = (0..3).map(|_| compiler.get_next_task().unwrap().priority).collect();
    assert_eq!(order, vec![3, 2, 1]);
    assert!(compiler.get_next_task().is_none());
}

#[test]
fn equal_priorities_come_out_first_in_first_out() {
    let mut compiler = HotReloadCompiler::new();
    compiler.add_task(task("first", 1));
    compiler.add_task(task("second", 1));
    compiler.add_task(task("high", 9));
    assert_eq!(compiler.get_next_task().unwrap().component_id, "high");
    assert_eq!(compiler.get_next_task().unwrap().component_id, "first");
    assert_eq!(compiler.get_next_task().unwrap().component_id, "second");
}

#[test]
fn higher_task_added_later_is_next() {
    let mut compiler = HotReloadCompiler::new();
    compiler.add_task(task("x", 5));
    compiler.add_task(task("y", 4));
    compiler.add_task(task("z", 9));
    assert_eq!(compiler.get_next_task().unwrap().component_id, "z");
    compiler.add_task(task("w", 0));
    assert_eq!(compiler.get_next_task().unwrap().component_id, "x");
    assert_eq!(compiler.get_next_task().unwrap().component_id, "y");
    assert_eq!(compiler.get_next_task().unwrap().component_id, "w");
}

#[test]
fn source_change_asks_for_compilation() {
    let u = update(
        "demo_button",
        UpdateType::SourceCodeChanged,
        r#"{"source_code":"<Button text=\"Updated!\"/>","change_type":"manual_edit"}"#,
    );
    let t = CompilationTask::for_update(&u).unwrap();
    assert_eq!(t.component_id, "demo_button");
    assert_eq!(t.source_code, "<Button text=\"Updated!\"/>");
    assert_eq!(t.dependencies, vec!["demo_button".to_string(), "parent_component".to_string()]);
    assert_eq!(t.priority, 1);
}

#[test]
fn source_change_without_source_compiles_empty_source() {
    let u = update("demo_button", UpdateType::SourceCodeChanged, r#"{"source_code":7}"#);
    assert_eq!(CompilationTask::for_update(&u).unwrap().source_code, "");
    let u = update("demo_button", UpdateType::SourceCodeChanged, "not json");
    assert_eq!(CompilationTask::for_update(&u).unwrap().source_code, "");
}

#[test]
fn other_updates_ask_for_no_compilation() {
    for t in [
        UpdateType::PropertyChanged,
        UpdateType::StructureChanged,
        UpdateType::StyleChanged,
        UpdateType::EventHandlerChanged,
        UpdateType::CompiledWasmReady,
    ] {
        let u = update("demo_counter", t, r#"{"source_code":"x"}"#);
        assert!(CompilationTask::for_update(&u).is_none());
    }
}

#[test]
fn compilation_yields_wasm_magic_number() {
    assert_eq!(compile_component(&task("a", 1)), vec![0x00, 0x61, 0x73, 0x6d]);
}

#[test]
fn finished_compilation_update() {
    let t = task("demo_component", 1);
    let u = compilation_finished_update(t, 1024, 1500, 1_700_000_000);
    assert_eq!(u.component_id, "demo_component");
    assert_eq!(u.update_type, UpdateType::CompiledWasmReady);
    assert_eq!(u.data, r#"{"compilation_time":1500,"wasm_size":1024}"#);
    assert_eq!(u.timestamp, 1_700_000_000);
    assert_eq!(u.affected_components, vec!["demo_component".to_string()]);
    let parsed: serde_json::Value = serde_json::from_str(&u.data).unwrap();
    assert_eq!(parsed["wasm_size"], 1024);
    assert_eq!(parsed["compilation_time"], 1500);
}

#[test]
fn source_is_read_beside_deeply_nested_members() {
    let deep = format!("{}{}", "[".repeat(300), "]".repeat(300));
    let data = format!(r#"{{"layout":{},"source_code":"<Deep/>"}}"#, deep);
    let u = update("deep", UpdateType::SourceCodeChanged, &data);
    assert_eq!(CompilationTask::for_update(&u).unwrap().source_code, "<Deep/>");
}

#[test]
fn last_repeated_source_member_counts() {
    let u = update("a", UpdateType::SourceCodeChanged, r#"{"source_code":"one","source_code":"two"}"#);
    assert_eq!(CompilationTask::for_update(&u).unwrap().source_code, "two");
}
