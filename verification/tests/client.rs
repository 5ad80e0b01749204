use pax_reactive_streaming::client::{
    should_notify, DemoUpdateHandler, ExternalUpdateSource, ReactiveClient,
    ReactiveStreamingComponent, UpdateHandler,
};
use std::sync::{Arc, Mutex};
use pax_reactive_streaming::compiler::CompilationTask;
use pax_reactive_streaming::update::{ComponentUpdate, UpdateType};

fn update(id: &str, update_type: UpdateType, data: &str, timestamp: u64, affected: &[&str]) -> ComponentUpdate {
    ComponentUpdate {
        component_id: id.to_string(),
        update_type,
        data: data.to_string(),
        timestamp,
        affected_components: affected.iter().map(|s| s.to_string()).collect(),
    }
}

#[test]
fn new_client_knows_no_component() {
    let client = ReactiveClient::new("ws://localhost:8081".to_string());
    assert_eq!(client.server_url(), "ws://localhost:8081");
    assert!(client.get_component("demo_button").is_none());
}

#[test]
fn source_change_is_cached() {
    let mut client = ReactiveClient::new("ws://localhost:8081".to_string());
    let u = update(
        "demo_button",
        UpdateType::SourceCodeChanged,
        r#"{"change_type":"manual_edit","source_code":"<Button/>"}"#,
        100,
        &["demo_button"],
    );
    client.handle_component_update(&u);
    let c = client.get_component("demo_button").unwrap();
    assert_eq!(c.id, "demo_button");
    assert_eq!(c.source_code, "<Button/>");
    assert_eq!(c.compiled_wasm, None);
    assert_eq!(c.properties, "null");
    assert_eq!(c.last_updated, 100);
}

#[test]
fn source_change_without_source_keeps_source() {
    let mut client = ReactiveClient::new(String::new());
    client.handle_component_update(&update("a", UpdateType::SourceCodeChanged, r#"{"source_code":"v1"}"#, 1, &[]));
    client.handle_component_update(&update("a", UpdateType::SourceCodeChanged, r#"{"other":"v2"}"#, 2, &[]));
    let c = client.get_component("a").unwrap();
    assert_eq!(c.source_code, "v1");
    assert_eq!(c.last_updated, 2);
}

#[test]
fn property_change_and_compilation_are_cached() {
    let mut client = ReactiveClient::new(String::new());
    client.handle_component_update(&update("demo_counter", UpdateType::PropertyChanged, r#"{"color":"blue","count":42}"#, 5, &[]));
    client.handle_component_update(&update("demo_counter", UpdateType::CompiledWasmReady, r#"{"wasm_size":4}"#, 6, &[]));
    let c = client.get_component("demo_counter").unwrap();
    assert_eq!(c.properties, r#"{"color":"blue","count":42}"#);
    assert_eq!(c.compiled_wasm, Some(vec![]));
    assert_eq!(c.source_code, "");
    assert_eq!(c.last_updated, 6);
}

#[test]
fn other_updates_only_stamp_the_entry() {
    let mut client = ReactiveClient::new(String::new());
    client.handle_component_update(&update("b", UpdateType::PropertyChanged, r#"{"x":1}"#, 1, &[]));
    client.handle_component_update(&update("b", UpdateType::StyleChanged, r#"{"y":2}"#, 9, &[]));
    let c = client.get_component("b").unwrap();
    assert_eq!(c.properties, r#"{"x":1}"#);
    assert_eq!(c.last_updated, 9);
}

#[test]
fn updates_leave_other_components_alone() {
    let mut client = ReactiveClient::new(String::new());
    client.handle_component_update(&update("a", UpdateType::PropertyChanged, r#"{"a":1}"#, 1, &[]));
    client.handle_component_update(&update("b", UpdateType::PropertyChanged, r#"{"b":2}"#, 2, &[]));
    let a = client.get_component("a").unwrap();
    assert_eq!(a.properties, r#"{"a":1}"#);
    assert_eq!(a.last_updated, 1);
    assert_eq!(client.get_component("b").unwrap().last_updated, 2);
}

#[test]
fn handlers_are_told_of_their_updates() {
    let u = update("dynamic_layout", UpdateType::StructureChanged, "{}", 1, &["dynamic_layout", "main_app"]);
    assert!(should_notify(&"dynamic_layout".to_string(), &u));
    assert!(should_notify(&"main_app".to_string(), &u));
    assert!(!should_notify(&"reactive_demo".to_string(), &u));
    let v = update("x", UpdateType::StructureChanged, "{}", 1, &[]);
    assert!(should_notify(&"x".to_string(), &v));
}

#[test]
fn subscription_request_subscribes_to_all() {
    let text = ReactiveClient::subscription_request();
    assert_eq!(text, r#"{"components":["*"],"type":"subscribe"}"#);
    let v: serde_json::Value = serde_json::from_str(&text).unwrap();
    assert_eq!(v["type"], "subscribe");
    assert_eq!(v["components"][0], "*");
}

#[test]
fn component_counts_and_summarizes_updates() {
    let mut c = ReactiveStreamingComponent::default();
    c.handle_update_received(update("demo_button", UpdateType::SourceCodeChanged, "{}", 1700000000, &[]));
    assert_eq!(c.update_count, 1);
    assert_eq!(c.last_update, "Component: demo_button, Type: SourceCodeChanged, Time: 1700000000");
    assert_eq!(c.connected_components, vec!["demo_button".to_string()]);
    c.handle_update_received(update("demo_counter", UpdateType::PropertyChanged, "{}", 7, &[]));
    c.handle_update_received(update("demo_button", UpdateType::StyleChanged, "{}", 0, &[]));
    assert_eq!(c.update_count, 3);
    assert_eq!(c.last_update, "Component: demo_button, Type: StyleChanged, Time: 0");
    assert_eq!(c.connected_components, vec!["demo_button".to_string(), "demo_counter".to_string()]);
}

#[test]
fn demo_handler_reports_updates() {
    let h = DemoUpdateHandler::new();
    let r = h.update_report(&update("a", UpdateType::SourceCodeChanged, "{}", 1, &[]));
    assert_eq!(r, vec![
        "DemoUpdateHandler: Received update for a - SourceCodeChanged".to_string(),
        "Source code changed, triggering hot reload...".to_string(),
    ]);
    let r = h.update_report(&update("b", UpdateType::CompiledWasmReady, "{}", 1, &[]));
    assert_eq!(r[1], "New WASM compilation ready, updating runtime...");
    let r = h.update_report(&update("c", UpdateType::PropertyChanged, r#"{"count":42}"#, 1, &[]));
    assert_eq!(r[1], r#"Properties changed: {"count":42}"#);
    let r = h.update_report(&update("d", UpdateType::EventHandlerChanged, "{}", 1, &[]));
    assert_eq!(r, vec!["DemoUpdateHandler: Received update for d - EventHandlerChanged".to_string()]);
}

#[test]
fn simulated_code_change_carries_the_code() {
    let source = ExternalUpdateSource::new("ws://localhost:8081".to_string());
    let code = "<UserProfile name={user.name} note=\"a \\ b\"/>";
    let u = source.simulate_code_change("user_profile", code, 99);
    assert_eq!(u.component_id, "user_profile");
    assert_eq!(u.update_type, UpdateType::SourceCodeChanged);
    assert_eq!(u.timestamp, 99);
    assert_eq!(u.affected_components, vec!["user_profile".to_string()]);
    let v: serde_json::Value = serde_json::from_str(&u.data).unwrap();
    assert_eq!(v["source_code"], code);
    assert_eq!(v["change_type"], "manual_edit");
    assert_eq!(CompilationTask::for_update(&u).unwrap().source_code, code);
    let mut client = ReactiveClient::new(String::new());
    client.handle_component_update(&u);
    assert_eq!(client.get_component("user_profile").unwrap().source_code, code);
}

#[test]
fn simulated_property_update_carries_the_properties() {
    let source = ExternalUpdateSource::new("ws://localhost:8081".to_string());
    let u = source.simulate_property_update("live_chart", r#"{"data":[1,2]}"#.to_string(), 5);
    assert_eq!(u.component_id, "live_chart");
    assert_eq!(u.update_type, UpdateType::PropertyChanged);
    assert_eq!(u.data, r#"{"data":[1,2]}"#);
    assert_eq!(u.timestamp, 5);
    assert_eq!(u.affected_components, vec!["live_chart".to_string()]);
}

struct Recorder {
    name: String,
    log: Arc<Mutex<Vec<String>>>,
    fails: bool,
}

impl UpdateHandler for Recorder {
    fn handle_update(&self, update: &ComponentUpdate) -> anyhow::Result<()> {
        self.log.lock().unwrap().push(format!("{}:{}", self.name, update.component_id));
        if self.fails {
            Err(anyhow::Error::msg(format!("{} failed", self.name)))
        } else {
            Ok(())
        }
    }
}

fn recorder(name: &str, log: &Arc<Mutex<Vec<String>>>, fails: bool) -> Box<dyn UpdateHandler> {
    Box::new(Recorder { name: name.to_string(), log: log.clone(), fails })
}

#[test]
fn only_matching_handlers_are_called_once_each() {
    let log = Arc::new(Mutex::new(Vec::new()));
    let mut client = ReactiveClient::new(String::new());
    client.register_update_handler("b".to_string(), recorder("hb", &log, false));
    client.register_update_handler("c".to_string(), recorder("hc", &log, false));
    client.handle_component_update(&update("a", UpdateType::PropertyChanged, "{}", 1, &[]));
    let u = update("a", UpdateType::PropertyChanged, r#"{"count":1}"#, 9, &["b"]);
    let outcomes = client.handle_component_update(&u);
    assert_eq!(outcomes.len(), 1);
    assert_eq!(outcomes[0].0, "b");
    assert!(outcomes[0].1.is_ok());
    assert_eq!(*log.lock().unwrap(), vec!["hb:a".to_string()]);
    let c = client.get_component("a").unwrap();
    assert_eq!(c.properties, r#"{"count":1}"#);
    assert_eq!(c.last_updated, 9);
}

#[test]
fn handler_of_the_updated_component_is_called() {
    let log = Arc::new(Mutex::new(Vec::new()));
    let mut client = ReactiveClient::new(String::new());
    client.register_update_handler("reactive_demo".to_string(), recorder("demo", &log, false));
    let ids = client.handlers_to_notify(&update("reactive_demo", UpdateType::StyleChanged, "{}", 1, &[]));
    assert_eq!(ids, vec!["reactive_demo".to_string()]);
    let ids = client.handlers_to_notify(&update("other", UpdateType::StyleChanged, "{}", 1, &["x"]));
    assert!(ids.is_empty());
}

#[test]
fn failing_handler_does_not_stop_the_others() {
    let log = Arc::new(Mutex::new(Vec::new()));
    let mut client = ReactiveClient::new(String::new());
    client.register_update_handler("a".to_string(), recorder("ha", &log, true));
    client.register_update_handler("b".to_string(), recorder("hb", &log, false));
    let outcomes = client.handle_component_update(&update("a", UpdateType::StructureChanged, "{}", 3, &["b"]));
    let ids: Vec<&str> = outcomes.iter().map(|(id, _)| id.as_str()).collect();
    assert_eq!(ids, vec!["a", "b"]);
    assert!(outcomes[0].1.is_err());
    assert!(outcomes[1].1.is_ok());
    assert_eq!(*log.lock().unwrap(), vec!["ha:a".to_string(), "hb:a".to_string()]);
    assert_eq!(client.get_component("a").unwrap().last_updated, 3);
}

#[test]
fn registering_again_replaces_the_handler() {
    let log = Arc::new(Mutex::new(Vec::new()));
    let mut client = ReactiveClient::new(String::new());
    client.register_update_handler("a".to_string(), recorder("old", &log, false));
    client.register_update_handler("z".to_string(), recorder("z", &log, false));
    client.register_update_handler("a".to_string(), recorder("new", &log, false));
    let u = update("a", UpdateType::PropertyChanged, "{}", 1, &["z"]);
    assert_eq!(client.handlers_to_notify(&u), vec!["a".to_string(), "z".to_string()]);
    client.notify_handlers(&u);
    assert_eq!(*log.lock().unwrap(), vec!["new:a".to_string(), "z:a".to_string()]);
}
