use vstd::prelude::*;

verus! {

/// What changed in a component.
#[derive(Debug, Clone, Copy, PartialEq, Eq, Structural)]
pub enum UpdateType {
    SourceCodeChanged,
    PropertyChanged,
    StructureChanged,
    StyleChanged,
    EventHandlerChanged,
    CompiledWasmReady,
}

/// The name of an update type, as its `Debug` form writes it.
pub open spec fn update_type_name(t: UpdateType) -> Seq<char> {
    match t {
        UpdateType::SourceCodeChanged => "SourceCodeChanged"@,
        UpdateType::PropertyChanged => "PropertyChanged"@,
        UpdateType::StructureChanged => "StructureChanged"@,
        UpdateType::StyleChanged => "StyleChanged"@,
        UpdateType::EventHandlerChanged => "EventHandlerChanged"@,
        UpdateType::CompiledWasmReady => "CompiledWasmReady"@,
    }
}

impl UpdateType {
    /// The variant's name.
    pub fn name(&self) -> (r: &'static str)
        ensures
            r@ == update_type_name(*self),
    {
        match self {
            UpdateType::SourceCodeChanged => "SourceCodeChanged",
            UpdateType::PropertyChanged => "PropertyChanged",
            UpdateType::StructureChanged => "StructureChanged",
            UpdateType::StyleChanged => "StyleChanged",
            UpdateType::EventHandlerChanged => "EventHandlerChanged",
            UpdateType::CompiledWasmReady => "CompiledWasmReady",
        }
    }
}

/// A real-time component update message. `data` holds the update's payload as
/// JSON text.
#[derive(Debug, Clone)]
pub struct ComponentUpdate {
    pub component_id: String,
    pub update_type: UpdateType,
    pub data: String,
    pub timestamp: u64,
    pub affected_components: Vec<String>,
}

/// The character sequences of a list of strings.
pub open spec fn string_views(v: Seq<String>) -> Seq<Seq<char>> {
    v.map_values(|s: String| s@)
}

} // verus!
