use vstd::prelude::*;
use vstd::string::*;
use vstd::hash_map::StringHashMap;
use crate::json::{distinct_keys, entry_views, json_string_member, json_string_object, string_member, string_object};
use crate::text::{decimal, push_decimal};
use crate::compiler::source_for_update;
use crate::update::{ComponentUpdate, UpdateType, string_views, update_type_name};

verus! {

/// A component as the client last saw it. `properties` is JSON text.
#[derive(Debug)]
pub struct CachedComponent {
    pub id: String,
    pub source_code: String,
    pub compiled_wasm: Option<Vec<u8>>,
    pub properties: String,
    pub last_updated: u64,
}

/// The abstract content of a cached component.
pub struct CachedComponentView {
    pub id: Seq<char>,
    pub source_code: Seq<char>,
    pub compiled_wasm: Option<Seq<u8>>,
    pub properties: Seq<char>,
    pub last_updated: u64,
}

impl View for CachedComponent {
    type V = CachedComponentView;

    open spec fn view(&self) -> CachedComponentView {
        CachedComponentView {
            id: self.id@,
            source_code: self.source_code@,
            compiled_wasm: match self.compiled_wasm {
                Some(w) => Some(w@),
                None => None,
            },
            properties: self.properties@,
            last_updated: self.last_updated,
        }
    }
}

impl Clone for CachedComponent {
    fn clone(&self) -> (r: Self)
        ensures
            r@ == self@,
    {
        CachedComponent {
            id: self.id.clone(),
            source_code: self.source_code.clone(),
            compiled_wasm: match &self.compiled_wasm {
                Some(w) => Some(w.clone()),
                None => None,
            },
            properties: self.properties.clone(),
            last_updated: self.last_updated,
        }
    }
}


/// The entry a component gets on its first update: no source, no compiled
/// module, `null` properties, never updated.
pub open spec fn fresh_entry(id: Seq<char>) -> CachedComponentView {
    CachedComponentView {
        id,
        source_code: Seq::empty(),
        compiled_wasm: None,
        properties: "null"@,
        last_updated: 0,
    }
}

/// A cached component after `update`: a source change takes the payload's
/// `source_code` string member (where there is one), a finished compilation
/// records an empty module, a property change takes the whole payload; every
/// update stamps the entry with its timestamp.
pub open spec fn entry_after(entry: CachedComponentView, update: ComponentUpdate) -> CachedComponentView {
    let changed = match update.update_type {
        UpdateType::SourceCodeChanged => match json_string_member(update.data@, "source_code"@) {
            Some(s) => CachedComponentView { source_code: s, ..entry },
            None => entry,
        },
        UpdateType::CompiledWasmReady => CachedComponentView { compiled_wasm: Some(Seq::empty()), ..entry },
        UpdateType::PropertyChanged => CachedComponentView { properties: update.data@, ..entry },
        _ => entry,
    };
    CachedComponentView { last_updated: update.timestamp, ..changed }
}

/// The cache after `update`: the updated component's entry (created where it is
/// missing) changes as `entry_after` says; every other entry stays.
pub open spec fn cache_after(
    cache: Map<Seq<char>, CachedComponentView>,
    update: ComponentUpdate,
) -> Map<Seq<char>, CachedComponentView> {
    let id = update.component_id@;
    let entry = if cache.contains_key(id) { cache[id] } else { fresh_entry(id) };
    cache.insert(id, entry_after(entry, update))
}

/// Every cached entry is filed under its own id.
pub open spec fn cache_well_formed(cache: Map<Seq<char>, CachedComponentView>) -> bool {
    forall|k: Seq<char>| #[trigger] cache.contains_key(k) ==> cache[k].id == k
}

/// Whether a handler registered for `handler_id` is told of `update`: it is where
/// the update is for that component or lists it among the affected ones.
pub open spec fn notifies(handler_id: Seq<char>, update: ComponentUpdate) -> bool {
    string_views(update.affected_components@).contains(handler_id) || handler_id == update.component_id@
}

/// Whether `s` is one of the strings in `v`.
pub fn contains_string(v: &Vec<String>, s: &String) -> (r: bool)
    ensures
        r == string_views(v@).contains(s@),
{
    let ghost views = string_views(v@);
    let n = v.len();
    let mut i: usize = 0;
    while i < n
        invariant
            n == v@.len(),
            views == string_views(v@),
            0 <= i <= n,
            forall|j: int| 0 <= j < i ==> views[j] != s@,
        decreases n - i,
    {
        if v[i] == *s {
            assert(views[i as int] == s@);
            return true;
        }
        i = i + 1;
    }
    false
}

/// Decides whether the handler registered for `handler_id` is told of `update`.
pub fn should_notify(handler_id: &String, update: &ComponentUpdate) -> (r: bool)
    ensures
        r == notifies(handler_id@, *update),
        r <==> handler_id@ == update.component_id@ || exists|i: int|
            0 <= i < update.affected_components@.len() && #[trigger] update.affected_components@[i]@ == handler_id@,
{
    proof { lemma_notifies_exactly(handler_id@, *update); }
    contains_string(&update.affected_components, handler_id) || *handler_id == update.component_id
}

/// `anyhow::Error`, the error an update handler reports; carried as an opaque value.
#[verifier::external_type_specification]
#[verifier::external_body]
pub struct ExAnyhowError(anyhow::Error);

/// Something that reacts to the updates of a component. Implementations are the
/// users'; each may say through `reports` what it answers for an update, and
/// nothing else is assumed of what they do.
pub trait UpdateHandler: Send + Sync {
    /// `r` is an answer the handler may give when handed `update`. An
    /// implementation that does not say allows any answer.
    open spec fn reports(&self, update: ComponentUpdate, r: Result<(), anyhow::Error>) -> bool {
        true
    }

    fn handle_update(&self, update: &ComponentUpdate) -> (r: Result<(), anyhow::Error>)
        ensures
            self.reports(*update, r);
}

/// The ids, in the order given, whose handlers are told of `update`.
pub open spec fn notified_ids(ids: Seq<Seq<char>>, update: ComponentUpdate) -> Seq<Seq<char>>
    decreases ids.len(),
{
    if ids.len() == 0 {
        Seq::empty()
    } else {
        let rest = notified_ids(ids.drop_last(), update);
        if notifies(ids.last(), update) {
            rest.push(ids.last())
        } else {
            rest
        }
    }
}

/// The ids told of an update are exactly the given ids that `notifies` selects,
/// each once where the given ids hold no repeats.
pub proof fn lemma_notified_ids_exact(ids: Seq<Seq<char>>, update: ComponentUpdate)
    requires
        ids.no_duplicates(),
    ensures
        notified_ids(ids, update).no_duplicates(),
        forall|k: Seq<char>| #[trigger] notified_ids(ids, update).contains(k)
            <==> ids.contains(k) && notifies(k, update),
    decreases ids.len(),
{
    if ids.len() > 0 {
        let init = ids.drop_last();
        let last = ids.last();
        assert forall|i: int, j: int| 0 <= i < j < init.len() implies init[i] != init[j] by {
            assert(init[i] == ids[i] && init[j] == ids[j]);
        }
        lemma_notified_ids_exact(init, update);
        let rest = notified_ids(init, update);
        assert(!init.contains(last)) by {
            if init.contains(last) {
                let i = choose|i: int| 0 <= i < init.len() && init[i] == last;
                assert(ids[i] == ids[ids.len() - 1]);
            }
        }
        assert forall|k: Seq<char>| ids.contains(k) <==> init.contains(k) || k == last by {
            if ids.contains(k) {
                let i = choose|i: int| 0 <= i < ids.len() && ids[i] == k;
                if i < init.len() { assert(init[i] == k); }
            }
            if init.contains(k) {
                let i = choose|i: int| 0 <= i < init.len() && init[i] == k;
                assert(ids[i] == k);
            }
            if k == last { assert(ids[ids.len() - 1] == k); }
        }
        if notifies(last, update) {
            let r = rest.push(last);
            assert(r[r.len() - 1] == last);
            assert forall|i: int, j: int| 0 <= i < r.len() && 0 <= j < r.len() && i != j implies r[i] != r[j] by {
                if i < rest.len() {
                    assert(r[i] == rest[i]);
                    assert(rest.contains(rest[i]));
                }
                if j < rest.len() {
                    assert(r[j] == rest[j]);
                    assert(rest.contains(rest[j]));
                }
            }
            assert forall|k: Seq<char>| r.contains(k) <==> rest.contains(k) || k == last by {
                if r.contains(k) {
                    let i = choose|i: int| 0 <= i < r.len() && r[i] == k;
                    if i < rest.len() { assert(rest[i] == k); }
                }
                if rest.contains(k) {
                    let i = choose|i: int| 0 <= i < rest.len() && rest[i] == k;
                    assert(r[i] == k);
                }
                if k == last { assert(r[r.len() - 1] == k); }
            }
        }
    }
}

/// The component ids of handler outcomes, in order.
pub open spec fn outcome_ids(outcomes: Seq<(String, Result<(), anyhow::Error>)>) -> Seq<Seq<char>> {
    outcomes.map_values(|e: (String, Result<(), anyhow::Error>)| e.0@)
}

/// The client side of the streaming system: where it connects, the components
/// it has heard of, and the update handlers registered for components.
pub struct ReactiveClient {
    server_url: String,
    component_cache: StringHashMap<CachedComponent>,
    registry: HandlerRegistry,
}

/// A handler as the client holds it.
pub struct RegisteredHandler {
    pub handler: Box<dyn UpdateHandler>,
}

/// Registering a handler adds its id to the map's domain.
proof fn lemma_insert_domain(m: Map<Seq<char>, RegisteredHandler>, k: Seq<char>, v: RegisteredHandler)
    ensures
        m.insert(k, v).dom() == m.dom().insert(k),
{
    assert(m.insert(k, v).dom() =~= m.dom().insert(k));
}

/// The registered handlers, and their ids in the order of first registration.
struct HandlerRegistry {
    update_handlers: StringHashMap<RegisteredHandler>,
    handler_order: Vec<String>,
}

impl ReactiveClient {
    /// The cached components, by id.
    pub closed spec fn cache(&self) -> Map<Seq<char>, CachedComponentView> {
        self.component_cache@.map_values(|c: CachedComponent| c@)
    }

    /// The server address the client connects to.
    pub closed spec fn url(&self) -> Seq<char> {
        self.server_url@
    }

    /// The registered update handlers, by component id.
    pub closed spec fn handlers(&self) -> Map<Seq<char>, RegisteredHandler> {
        self.registry.update_handlers@
    }

    /// The component ids with a registered handler.
    pub open spec fn handler_ids(&self) -> Set<Seq<char>> {
        self.handlers().dom()
    }

    /// The component ids with a registered handler, in the order they were first registered.
    pub closed spec fn handler_order(&self) -> Seq<Seq<char>> {
        string_views(self.registry.handler_order@)
    }

    #[verifier::type_invariant]
    spec fn consistent(&self) -> bool {
        &&& cache_well_formed(self.cache())
        &&& self.handler_order().no_duplicates()
        &&& forall|k: Seq<char>| #[trigger] self.handler_order().contains(k) <==> self.handlers().contains_key(k)
    }

    pub fn new(server_url: String) -> (r: ReactiveClient)
        ensures
            r.url() == server_url@,
            r.cache() == Map::<Seq<char>, CachedComponentView>::empty(),
            r.handlers() == Map::<Seq<char>, RegisteredHandler>::empty(),
            r.handler_order() == Seq::<Seq<char>>::empty(),
    {
        let r = ReactiveClient {
            server_url,
            component_cache: StringHashMap::new(),
            registry: HandlerRegistry { update_handlers: StringHashMap::new(), handler_order: Vec::new() },
        };
        assert(r.cache() =~= Map::<Seq<char>, CachedComponentView>::empty());
        assert(r.handler_order() =~= Seq::<Seq<char>>::empty());
        r
    }

    /// The server address the client connects to.
    pub fn server_url(&self) -> (r: &String)
        ensures
            r@ == self.url(),
    {
        &self.server_url
    }

    /// The cached state of component `component_id`, if the client has heard of it.
    pub fn get_component(&self, component_id: &str) -> (r: Option<CachedComponent>)
        ensures
            r is Some <==> self.cache().contains_key(component_id@),
            r matches Some(c) ==> c@ == self.cache()[component_id@] && c.id@ == component_id@,
    {
        proof { use_type_invariant(self); }
        match self.component_cache.get(component_id) {
            Some(c) => Some(c.clone()),
            None => None,
        }
    }

    /// Registers `handler` for component `component_id`, replacing the handler
    /// registered for it before, if any.
    pub fn register_update_handler(&mut self, component_id: String, handler: Box<dyn UpdateHandler>)
        ensures
            final(self).handlers() == old(self).handlers().insert(component_id@, (RegisteredHandler { handler })),
            final(self).handler_ids() == old(self).handler_ids().insert(component_id@),
            final(self).handler_order() == if old(self).handler_ids().contains(component_id@) {
                old(self).handler_order()
            } else {
                old(self).handler_order().push(component_id@)
            },
            final(self).cache() == old(self).cache(),
            final(self).url() == old(self).url(),
    {
        proof { use_type_invariant(&*self); }
        let ghost old_order = self.handler_order();
        let ghost old_handlers = self.handlers();
        let mut registry = HandlerRegistry { update_handlers: StringHashMap::new(), handler_order: Vec::new() };
        std::mem::swap(&mut registry, &mut self.registry);
        if !registry.update_handlers.contains_key(component_id.as_str()) {
            assert(!old_order.contains(component_id@));
            registry.handler_order.push(component_id.clone());
            proof {
                let r = string_views(registry.handler_order@);
                assert(r =~= old_order.push(component_id@));
                assert(r[r.len() - 1] == component_id@);
                assert forall|i: int, j: int| 0 <= i < r.len() && 0 <= j < r.len() && i != j implies r[i] != r[j] by {
                    if i < old_order.len() {
                        assert(r[i] == old_order[i]);
                        assert(old_order.contains(old_order[i]));
                    }
                    if j < old_order.len() {
                        assert(r[j] == old_order[j]);
                        assert(old_order.contains(old_order[j]));
                    }
                }
                assert forall|k: Seq<char>| r.contains(k) <==> old_order.contains(k) || k == component_id@ by {
                    if r.contains(k) {
                        let i = choose|i: int| 0 <= i < r.len() && r[i] == k;
                        if i < old_order.len() { assert(old_order[i] == k); }
                    }
                    if old_order.contains(k) {
                        let i = choose|i: int| 0 <= i < old_order.len() && old_order[i] == k;
                        assert(r[i] == k);
                    }
                    if k == component_id@ { assert(r[r.len() - 1] == k); }
                }
            }
        }
        assert(registry.update_handlers@ == old_handlers);
        let ghost key = component_id@;
        let entry = RegisteredHandler { handler };
        let ghost g = entry;
        registry.update_handlers.insert(component_id, entry);
        assert(registry.update_handlers@ == old_handlers.insert(key, g));
        proof { lemma_insert_domain(old_handlers, key, g); }
        self.registry = registry;
    }

    /// The ids of the registered handlers that are told of `update`, in the order
    /// of first registration.
    pub fn handlers_to_notify(&self, update: &ComponentUpdate) -> (r: Vec<String>)
        ensures
            string_views(r@) == notified_ids(self.handler_order(), *update),
            string_views(r@).no_duplicates(),
            forall|k: Seq<char>| #[trigger] string_views(r@).contains(k)
                <==> self.handler_ids().contains(k) && notifies(k, *update),
    {
        proof { use_type_invariant(self); }
        let n = self.registry.handler_order.len();
        let mut out: Vec<String> = Vec::new();
        let mut i: usize = 0;
        while i < n
            invariant
                n == self.registry.handler_order@.len(),
                0 <= i <= n,
                string_views(out@) == notified_ids(self.handler_order().take(i as int), *update),
            decreases n - i,
        {
            assert(self.handler_order().take(i + 1).drop_last() =~= self.handler_order().take(i as int));
            assert(self.handler_order().take(i + 1).last() == self.registry.handler_order@[i as int]@);
            if should_notify(&self.registry.handler_order[i], update) {
                out.push(self.registry.handler_order[i].clone());
                assert(string_views(out@) =~= notified_ids(self.handler_order().take(i + 1), *update));
            }
            i = i + 1;
        }
        assert(self.handler_order().take(n as int) =~= self.handler_order());
        proof { lemma_notified_ids_exact(self.handler_order(), *update); }
        out
    }

    /// Calls, once each, the handlers that are told of `update`, in the order of
    /// first registration, and returns what each reported, by component id. A
    /// handler's error does not keep the others from being called.
    pub fn notify_handlers(&self, update: &ComponentUpdate) -> (r: Vec<(String, Result<(), anyhow::Error>)>)
        ensures
            outcome_ids(r@) == notified_ids(self.handler_order(), *update),
            outcome_ids(r@).no_duplicates(),
            forall|k: Seq<char>| #[trigger] outcome_ids(r@).contains(k)
                <==> self.handler_ids().contains(k) && notifies(k, *update),
            forall|i: int| 0 <= i < r@.len()
                ==> self.handlers()[(#[trigger] r@[i]).0@].handler.reports(*update, r@[i].1),
    {
        proof {
            use_type_invariant(self);
            lemma_notified_ids_exact(self.handler_order(), *update);
        }
        let ids = self.handlers_to_notify(update);
        let n = ids.len();
        let mut out: Vec<(String, Result<(), anyhow::Error>)> = Vec::new();
        let mut i: usize = 0;
        while i < n
            invariant
                n == ids@.len(),
                0 <= i <= n,
                forall|k: Seq<char>| #[trigger] string_views(ids@).contains(k) ==> self.handlers().contains_key(k),
                outcome_ids(out@) == string_views(ids@).take(i as int),
                forall|j: int| 0 <= j < out@.len()
                    ==> self.handlers()[(#[trigger] out@[j]).0@].handler.reports(*update, out@[j].1),
            decreases n - i,
        {
            assert(string_views(ids@)[i as int] == ids@[i as int]@);
            assert(string_views(ids@).contains(ids@[i as int]@));
            let ghost prev = out@;
            match self.registry.update_handlers.get(ids[i].as_str()) {
                Some(registered) => {
                    let outcome = registered.handler.handle_update(update);
                    out.push((ids[i].clone(), outcome));
                },
                None => {},
            }
            assert(out@ == prev.push(out@.last()));
            assert(out@.last().0@ == string_views(ids@)[i as int]);
            assert(string_views(ids@).take(i + 1) =~= string_views(ids@).take(i as int).push(string_views(ids@)[i as int]));
            assert(outcome_ids(out@) =~= string_views(ids@).take(i + 1));
            assert(forall|j: int| 0 <= j < prev.len() ==> out@[j] == prev[j]);
            i = i + 1;
        }
        assert(string_views(ids@).take(n as int) =~= string_views(ids@));
        out
    }

    /// Records `update` in the component cache, then calls the handlers told of it
    /// (see `notify_handlers`) and returns what they reported.
    pub fn handle_component_update(&mut self, update: &ComponentUpdate) -> (r: Vec<(String, Result<(), anyhow::Error>)>)
        ensures
            cache_well_formed(old(self).cache()),
            cache_well_formed(final(self).cache()),
            final(self).url() == old(self).url(),
            final(self).cache() == cache_after(old(self).cache(), *update),
            final(self).handlers() == old(self).handlers(),
            final(self).handler_order() == old(self).handler_order(),
            outcome_ids(r@) == notified_ids(old(self).handler_order(), *update),
            outcome_ids(r@).no_duplicates(),
            forall|k: Seq<char>| #[trigger] outcome_ids(r@).contains(k)
                <==> old(self).handler_ids().contains(k) && notifies(k, *update),
            forall|i: int| 0 <= i < r@.len()
                ==> old(self).handlers()[(#[trigger] r@[i]).0@].handler.reports(*update, r@[i].1),
    {
        proof { use_type_invariant(&*self); }
        let id = &update.component_id;
        let mut entry = match self.component_cache.get(id.as_str()) {
            Some(c) => c.clone(),
            None => CachedComponent {
                id: id.clone(),
                source_code: String::new(),
                compiled_wasm: None,
                properties: String::from_str("null"),
                last_updated: 0,
            },
        };
        match update.update_type {
            UpdateType::SourceCodeChanged => {
                match string_member(update.data.as_str(), "source_code") {
                    Some(source) => {
                        entry.source_code = source;
                    },
                    None => {},
                }
            },
            UpdateType::CompiledWasmReady => {
                entry.compiled_wasm = Some(Vec::new());
            },
            UpdateType::PropertyChanged => {
                entry.properties = update.data.clone();
            },
            _ => {},
        }
        entry.last_updated = update.timestamp;
        let ghost before = self.cache();
        let mut cache: StringHashMap<CachedComponent> = StringHashMap::new();
        std::mem::swap(&mut cache, &mut self.component_cache);
        cache.insert(id.clone(), entry);
        assert(cache@.map_values(|c: CachedComponent| c@) =~= cache_after(before, *update));
        self.component_cache = cache;
        self.notify_handlers(update)
    }
}

impl ReactiveClient {
    /// The message a client sends on connecting, subscribing to every component:
    /// `{"components":["*"],"type":"subscribe"}`.
    pub fn subscription_request() -> (r: String)
        ensures
            r@ == "{\"components\":[\"*\"],\"type\":\"subscribe\"}"@,
    {
        String::from_str("{\"components\":[\"*\"],\"type\":\"subscribe\"}")
    }
}

/// The one-line summary a component shows of the last update it received.
pub open spec fn update_summary(update: ComponentUpdate) -> Seq<char> {
    "Component: "@ + update.component_id@ + ", Type: "@ + update_type_name(update.update_type)
        + ", Time: "@ + decimal(update.timestamp as nat)
}

/// The summary of an update begins with `Component: `, the update's own
/// component id and `, Type: `, and ends with its timestamp in decimal; it
/// depends on nothing else than the id, the type and the timestamp (not on the
/// payload nor on the affected components).
pub proof fn lemma_summary_names_the_update(update: ComponentUpdate, other: ComponentUpdate)
    ensures
        ({
            let prefix = "Component: "@ + update.component_id@ + ", Type: "@;
            let s = update_summary(update);
            &&& prefix.len() <= s.len()
            &&& s.subrange(0, prefix.len() as int) == prefix
            &&& s.subrange(s.len() - decimal(update.timestamp as nat).len(), s.len() as int)
                == decimal(update.timestamp as nat)
        }),
        other.component_id@ == update.component_id@ && other.update_type == update.update_type
            && other.timestamp == update.timestamp ==> update_summary(other) == update_summary(update),
{
    let prefix = "Component: "@ + update.component_id@ + ", Type: "@;
    let d = decimal(update.timestamp as nat);
    let s = update_summary(update);
    let mid = update_type_name(update.update_type) + ", Time: "@;
    assert(s =~= prefix + mid + d);
    assert(s.subrange(0, prefix.len() as int) =~= prefix);
    assert(s.subrange(s.len() - d.len(), s.len() as int) =~= d);
}

/// The connected components after an update for `id`: `id` joins the list
/// where it is not on it yet.
pub open spec fn connected_after(connected: Seq<Seq<char>>, id: Seq<char>) -> Seq<Seq<char>> {
    if connected.contains(id) {
        connected
    } else {
        connected.push(id)
    }
}

/// The UI state of a component that follows the stream of updates.
#[derive(Debug)]
pub struct ReactiveStreamingComponent {
    pub connected_components: Vec<String>,
    pub last_update: String,
    pub update_count: usize,
}

impl Default for ReactiveStreamingComponent {
    fn default() -> (r: Self)
        ensures
            r.connected_components@.len() == 0,
            r.last_update@ == Seq::<char>::empty(),
            r.update_count == 0,
    {
        ReactiveStreamingComponent {
            connected_components: Vec::new(),
            last_update: String::new(),
            update_count: 0,
        }
    }
}

impl ReactiveStreamingComponent {
    /// Counts `update`, shows its summary, and adds its component to the
    /// connected ones where it is not there yet.
    pub fn handle_update_received(&mut self, update: ComponentUpdate)
        requires
            old(self).update_count < usize::MAX,
        ensures
            final(self).update_count == old(self).update_count + 1,
            final(self).last_update@ == update_summary(update),
            string_views(final(self).connected_components@) == connected_after(
                string_views(old(self).connected_components@),
                update.component_id@,
            ),
    {
        self.update_count = self.update_count + 1;
        let mut summary = String::from_str("Component: ");
        summary.append(update.component_id.as_str());
        summary.append(", Type: ");
        summary.append(update.update_type.name());
        summary.append(", Time: ");
        push_decimal(&mut summary, update.timestamp as u128);
        assert(summary@ =~= update_summary(update));
        self.last_update = summary;
        if !contains_string(&self.connected_components, &update.component_id) {
            let ghost before = self.connected_components@;
            self.connected_components.push(update.component_id);
            assert(string_views(self.connected_components@) =~= string_views(before).push(
                update.component_id@,
            ));
        }
    }
}

/// The lines an update handler reports for `update`: which update arrived, then
/// what it means for a source change, a finished compilation, or a property change.
pub open spec fn demo_report(update: ComponentUpdate) -> Seq<Seq<char>> {
    let head = "DemoUpdateHandler: Received update for "@ + update.component_id@ + " - "@
        + update_type_name(update.update_type);
    match update.update_type {
        UpdateType::SourceCodeChanged => seq![head, "Source code changed, triggering hot reload..."@],
        UpdateType::CompiledWasmReady => seq![head, "New WASM compilation ready, updating runtime..."@],
        UpdateType::PropertyChanged => seq![head, "Properties changed: "@ + update.data@],
        _ => seq![head],
    }
}

/// The demo handler reports the arrival of every update on its first line, for
/// the update's own component; it adds a second line only for a source change,
/// a finished compilation or a property change, and a `Properties changed` line
/// (with the payload) only for a property change.
pub proof fn lemma_demo_report_lines(update: ComponentUpdate)
    ensures
        demo_report(update).len() >= 1,
        demo_report(update)[0] == "DemoUpdateHandler: Received update for "@ + update.component_id@ + " - "@
            + update_type_name(update.update_type),
        demo_report(update).len() == 2 <==> (update.update_type == UpdateType::SourceCodeChanged
            || update.update_type == UpdateType::CompiledWasmReady
            || update.update_type == UpdateType::PropertyChanged),
        demo_report(update).len() <= 2,
        (demo_report(update).len() == 2 && demo_report(update)[1] == "Properties changed: "@ + update.data@)
            <==> update.update_type == UpdateType::PropertyChanged,
{
    reveal_strlit("Properties changed: ");
    reveal_strlit("Source code changed, triggering hot reload...");
    reveal_strlit("New WASM compilation ready, updating runtime...");
    let p = "Properties changed: "@ + update.data@;
    assert(p[0] == 'P');
    assert("Source code changed, triggering hot reload..."@[0] == 'S');
    assert("New WASM compilation ready, updating runtime..."@[0] == 'N');
}

/// An update handler that reports every update it is told of.
pub struct DemoUpdateHandler {
    component_id: String,
}

impl DemoUpdateHandler {
    /// The component the handler is for.
    pub closed spec fn id(&self) -> Seq<char> {
        self.component_id@
    }

    pub fn new() -> (r: DemoUpdateHandler)
        ensures
            r.id() == "reactive_demo"@,
    {
        DemoUpdateHandler { component_id: String::from_str("reactive_demo") }
    }

    /// The lines the handler reports for `update`, in order.
    pub fn update_report(&self, update: &ComponentUpdate) -> (r: Vec<String>)
        ensures
            string_views(r@) == demo_report(*update),
    {
        let mut head = String::from_str("DemoUpdateHandler: Received update for ");
        head.append(update.component_id.as_str());
        head.append(" - ");
        head.append(update.update_type.name());
        let mut lines: Vec<String> = Vec::new();
        lines.push(head);
        match update.update_type {
            UpdateType::SourceCodeChanged => {
                lines.push(String::from_str("Source code changed, triggering hot reload..."));
            },
            UpdateType::CompiledWasmReady => {
                lines.push(String::from_str("New WASM compilation ready, updating runtime..."));
            },
            UpdateType::PropertyChanged => {
                let mut line = String::from_str("Properties changed: ");
                line.append(update.data.as_str());
                lines.push(line);
            },
            _ => {},
        }
        assert(string_views(lines@) =~= demo_report(*update));
        lines
    }
}

/// The payload of a simulated code change: an object with the string members
/// `change_type` (`manual_edit`) and `source_code` (the new code).
pub open spec fn code_change_payload(new_code: Seq<char>) -> Seq<char> {
    json_string_object(seq![("source_code"@, new_code), ("change_type"@, "manual_edit"@)])
}

/// A stand-in for an outside system that changes components.
pub struct ExternalUpdateSource {
    client: ReactiveClient,
}

impl ExternalUpdateSource {
    /// The client the source would send its updates through.
    pub closed spec fn client(&self) -> ReactiveClient {
        self.client
    }

    pub fn new(server_url: String) -> (r: ExternalUpdateSource)
        ensures
            r.client().url() == server_url@,
            r.client().cache() == Map::<Seq<char>, CachedComponentView>::empty(),
            r.client().handlers() == Map::<Seq<char>, RegisteredHandler>::empty(),
            r.client().handler_order() == Seq::<Seq<char>>::empty(),
    {
        ExternalUpdateSource { client: ReactiveClient::new(server_url) }
    }

    /// The update for a manual edit of `component_id` to `new_code`, made at `timestamp`.
    pub fn simulate_code_change(&self, component_id: &str, new_code: &str, timestamp: u64) -> (r: ComponentUpdate)
        ensures
            r.component_id@ == component_id@,
            r.update_type == UpdateType::SourceCodeChanged,
            r.data@ == code_change_payload(new_code@),
            json_string_member(r.data@, "source_code"@) == Some(new_code@),
            json_string_member(r.data@, "change_type"@) == Some("manual_edit"@),
            r.timestamp == timestamp,
            string_views(r.affected_components@) == seq![component_id@],
    {
        let mut entries: Vec<(String, String)> = Vec::new();
        entries.push((String::from_str("source_code"), String::from_str(new_code)));
        entries.push((String::from_str("change_type"), String::from_str("manual_edit")));
        proof {
            reveal_strlit("source_code");
            reveal_strlit("change_type");
        }
        assert(entry_views(entries@) =~= seq![("source_code"@, new_code@), ("change_type"@, "manual_edit"@)]);
        assert("source_code"@[0] != "change_type"@[0]);
        assert(distinct_keys(entry_views(entries@)));
        let data = string_object(&entries);
        assert(json_string_member(data@, entries@[0].0@) == Some(entries@[0].1@));
        assert(json_string_member(data@, entries@[1].0@) == Some(entries@[1].1@));
        let mut affected: Vec<String> = Vec::new();
        affected.push(String::from_str(component_id));
        assert(string_views(affected@) =~= seq![component_id@]);
        ComponentUpdate {
            component_id: String::from_str(component_id),
            update_type: UpdateType::SourceCodeChanged,
            data,
            timestamp,
            affected_components: affected,
        }
    }

    /// The update setting the properties of `component_id` to the JSON text
    /// `properties`, made at `timestamp`.
    pub fn simulate_property_update(&self, component_id: &str, properties: String, timestamp: u64) -> (r: ComponentUpdate)
        ensures
            r.component_id@ == component_id@,
            r.update_type == UpdateType::PropertyChanged,
            r.data@ == properties@,
            r.timestamp == timestamp,
            string_views(r.affected_components@) == seq![component_id@],
    {
        let mut affected: Vec<String> = Vec::new();
        affected.push(String::from_str(component_id));
        assert(string_views(affected@) =~= seq![component_id@]);
        ComponentUpdate {
            component_id: String::from_str(component_id),
            update_type: UpdateType::PropertyChanged,
            data: properties,
            timestamp,
            affected_components: affected,
        }
    }
}


/// A handler id is told of an update exactly when it is the update's component
/// or any one of its affected components, wherever that one stands in the list.
pub proof fn lemma_notifies_exactly(handler_id: Seq<char>, update: ComponentUpdate)
    ensures
        notifies(handler_id, update) <==> handler_id == update.component_id@ || exists|i: int|
            0 <= i < update.affected_components@.len() && #[trigger] update.affected_components@[i]@ == handler_id,
        notifies(update.component_id@, update),
        forall|i: int| 0 <= i < update.affected_components@.len()
            ==> notifies(#[trigger] update.affected_components@[i]@, update),
{
    let views = string_views(update.affected_components@);
    assert forall|i: int| 0 <= i < update.affected_components@.len()
        implies notifies(#[trigger] update.affected_components@[i]@, update) by {
        assert(views[i] == update.affected_components@[i]@);
    }
    if views.contains(handler_id) {
        let j = choose|j: int| 0 <= j < views.len() && views[j] == handler_id;
        assert(update.affected_components@[j]@ == handler_id);
    }
}

/// A received update changes only what its type calls for: properties only on a
/// property change (to the payload), the compiled module only on a finished
/// compilation (to an empty one), the source only on a source change carrying a
/// `source_code` string; every update stamps the entry with its timestamp and
/// keeps its id. A component seen for the first time starts with no source, no
/// module and `null` properties.
pub proof fn lemma_update_changes_only_its_field(cache: Map<Seq<char>, CachedComponentView>, update: ComponentUpdate)
    requires
        cache_well_formed(cache),
    ensures
        ({
            let id = update.component_id@;
            let known = cache.contains_key(id);
            let after = cache_after(cache, update)[id];
            &&& after.id == id
            &&& after.last_updated == update.timestamp
            &&& after.properties == if update.update_type == UpdateType::PropertyChanged {
                update.data@
            } else if known {
                cache[id].properties
            } else {
                "null"@
            }
            &&& after.compiled_wasm == if update.update_type == UpdateType::CompiledWasmReady {
                Some(Seq::<u8>::empty())
            } else if known {
                cache[id].compiled_wasm
            } else {
                None
            }
            &&& after.source_code == if update.update_type == UpdateType::SourceCodeChanged
                && json_string_member(update.data@, "source_code"@) is Some {
                json_string_member(update.data@, "source_code"@)->0
            } else if known {
                cache[id].source_code
            } else {
                Seq::<char>::empty()
            }
        }),
{
}

/// Recording an update keeps every entry filed under its own id, leaves the
/// entry of the updated component present and stamped with the update's
/// timestamp, and leaves every other entry as it was.
pub proof fn lemma_cache_after_update(cache: Map<Seq<char>, CachedComponentView>, update: ComponentUpdate)
    requires
        cache_well_formed(cache),
    ensures
        cache_well_formed(cache_after(cache, update)),
        cache_after(cache, update).contains_key(update.component_id@),
        cache_after(cache, update)[update.component_id@].last_updated == update.timestamp,
        cache_after(cache, update).dom() == cache.dom().insert(update.component_id@),
        forall|k: Seq<char>| k != update.component_id@ && #[trigger] cache.contains_key(k)
            ==> cache_after(cache, update)[k] == cache[k],
{
}

/// The new code of a source change is what the compiler is asked to compile and
/// what the client caches for the component.
pub proof fn lemma_source_change_propagates(
    update: ComponentUpdate,
    code: Seq<char>,
    cache: Map<Seq<char>, CachedComponentView>,
)
    requires
        update.update_type == UpdateType::SourceCodeChanged,
        json_string_member(update.data@, "source_code"@) == Some(code),
    ensures
        source_for_update(update) == code,
        cache_after(cache, update)[update.component_id@].source_code == code,
{
}

/// The list of connected components never holds an id twice, and holds the id of
/// every update received.
pub proof fn lemma_connected_components_distinct(connected: Seq<Seq<char>>, id: Seq<char>)
    requires
        connected.no_duplicates(),
    ensures
        connected_after(connected, id).no_duplicates(),
        connected_after(connected, id).contains(id),
{
    if !connected.contains(id) {
        let r = connected.push(id);
        assert(r[r.len() - 1] == id);
        assert forall|i: int, j: int| 0 <= i < r.len() && 0 <= j < r.len() && i != j implies r[i] != r[j] by {
            if i < connected.len() && j < connected.len() {
                assert(r[i] == connected[i] && r[j] == connected[j]);
            } else if i < connected.len() {
                assert(r[i] == connected[i]);
            } else if j < connected.len() {
                assert(r[j] == connected[j]);
            }
        }
    }
}

} // verus!
