//! The application state, its store, and the command surface shared with the
//! UI: `ready` (readiness handshake plus snapshot), `js_update_state`
//! (whole-object replace from a serialized payload) and `log`.

use std::io::Write;
use vstd::prelude::*;
use crate::json::{
    clone_value, empty_object, get_field, json_canon, parse_json, rep_as_bool, rep_as_str,
    rep_field, rep_is_object, value_as_bool, value_as_str, value_is_object, value_rep,
};

verus! {

use vstd::string::StringExecFns;

/// Mathematical content of the application state: the two flags, the three
/// session strings, and the canonical JSON rendering of each keyed payload
/// field (the payloads are opaque; their rendering is their identity).
#[verifier::ext_equal]
pub ghost struct StateModel {
    pub ready: bool,
    pub connected: bool,
    pub connected_application: Seq<char>,
    pub connected_version: Seq<char>,
    pub connected_file_name: Seq<char>,
    pub scene_data: Seq<char>,
    pub rf_instance: Seq<char>,
    pub executed_results: Seq<char>,
    pub executed_inputs: Seq<char>,
}

impl StateModel {
    /// The state a fresh process starts from: nothing ready, nothing
    /// connected, every keyed payload empty.
    pub open spec fn init() -> StateModel {
        StateModel {
            ready: false,
            connected: false,
            connected_application: Seq::empty(),
            connected_version: Seq::empty(),
            connected_file_name: Seq::empty(),
            scene_data: "{}"@,
            rf_instance: "{}"@,
            executed_results: "{}"@,
            executed_inputs: "{}"@,
        }
    }

    /// The same state with the readiness flag set.
    pub open spec fn with_ready(self) -> StateModel {
        StateModel { ready: true, ..self }
    }

    /// Schema shape of the keyed payload fields: each one is a JSON object.
    pub open spec fn wf(self) -> bool {
        &&& rep_is_object(self.scene_data)
        &&& rep_is_object(self.rf_instance)
        &&& rep_is_object(self.executed_results)
        &&& rep_is_object(self.executed_inputs)
    }
}

/// The shared application state. The backend owns the single authoritative
/// copy (see `StateStore`); the UI only ever receives snapshots of it and
/// overwrites it wholesale through `js_update_state`.
pub struct AppState {
    pub ready: bool,
    pub connected: bool,
    pub connected_application: String,
    pub connected_version: String,
    pub connected_file_name: String,
    pub scene_data: serde_json::Value,
    pub rf_instance: serde_json::Value,
    pub executed_results: serde_json::Value,
    pub executed_inputs: serde_json::Value,
}

impl View for AppState {
    type V = StateModel;

    open spec fn view(&self) -> StateModel {
        StateModel {
            ready: self.ready,
            connected: self.connected,
            connected_application: self.connected_application@,
            connected_version: self.connected_version@,
            connected_file_name: self.connected_file_name@,
            scene_data: value_rep(self.scene_data),
            rf_instance: value_rep(self.rf_instance),
            executed_results: value_rep(self.executed_results),
            executed_inputs: value_rep(self.executed_inputs),
        }
    }
}

impl Default for AppState {
    fn default() -> (r: AppState)
        ensures
            r@ == StateModel::init(),
            r@.wf(),
    {
        AppState {
            ready: false,
            connected: false,
            connected_application: String::new(),
            connected_version: String::new(),
            connected_file_name: String::new(),
            scene_data: empty_object(),
            rf_instance: empty_object(),
            executed_results: empty_object(),
            executed_inputs: empty_object(),
        }
    }
}

impl Clone for AppState {
    fn clone(&self) -> (r: AppState)
        ensures
            r@ == self@,
    {
        AppState {
            ready: self.ready,
            connected: self.connected,
            connected_application: self.connected_application.clone(),
            connected_version: self.connected_version.clone(),
            connected_file_name: self.connected_file_name.clone(),
            scene_data: clone_value(&self.scene_data),
            rf_instance: clone_value(&self.rf_instance),
            executed_results: clone_value(&self.executed_results),
            executed_inputs: clone_value(&self.executed_inputs),
        }
    }
}

/// Ingest payload did not match the state schema (not JSON, a missing field,
/// or a mistyped field); the store is left unchanged.
#[derive(Debug, PartialEq, Eq)]
pub struct DeserializationError;

/// A boolean field of an object rendering: present and of boolean type.
pub open spec fn bool_field(rep: Seq<char>, key: Seq<char>) -> Option<bool> {
    match rep_field(rep, key) {
        Some(f) => rep_as_bool(f),
        None => None,
    }
}

/// A string field of an object rendering: present and of string type.
pub open spec fn string_field(rep: Seq<char>, key: Seq<char>) -> Option<Seq<char>> {
    match rep_field(rep, key) {
        Some(f) => rep_as_str(f),
        None => None,
    }
}

/// An object field of an object rendering: present and itself an object,
/// abstracted by its rendering.
pub open spec fn object_field(rep: Seq<char>, key: Seq<char>) -> Option<Seq<char>> {
    match rep_field(rep, key) {
        Some(f) => if rep_is_object(f) {
            Some(f)
        } else {
            None
        },
        None => None,
    }
}

/// The state a canonical JSON rendering describes, if it matches the schema:
/// every field of the state present under its name and of its type. Unknown
/// extra fields are passed over, and nothing of them reaches the state: a
/// replace can never introduce fields beyond the schema.
pub open spec fn model_of_rep(rep: Seq<char>) -> Option<StateModel> {
    if {
        &&& bool_field(rep, "ready"@) is Some
        &&& bool_field(rep, "connected"@) is Some
        &&& string_field(rep, "connected_application"@) is Some
        &&& string_field(rep, "connected_version"@) is Some
        &&& string_field(rep, "connected_file_name"@) is Some
        &&& object_field(rep, "scene_data"@) is Some
        &&& object_field(rep, "rf_instance"@) is Some
        &&& object_field(rep, "executed_results"@) is Some
        &&& object_field(rep, "executed_inputs"@) is Some
    } {
        Some(
            StateModel {
                ready: bool_field(rep, "ready"@).unwrap(),
                connected: bool_field(rep, "connected"@).unwrap(),
                connected_application: string_field(rep, "connected_application"@).unwrap(),
                connected_version: string_field(rep, "connected_version"@).unwrap(),
                connected_file_name: string_field(rep, "connected_file_name"@).unwrap(),
                scene_data: object_field(rep, "scene_data"@).unwrap(),
                rf_instance: object_field(rep, "rf_instance"@).unwrap(),
                executed_results: object_field(rep, "executed_results"@).unwrap(),
                executed_inputs: object_field(rep, "executed_inputs"@).unwrap(),
            },
        )
    } else {
        None
    }
}

/// The state a serialized payload describes: the payload must parse as JSON
/// and its value must match the schema. None on every malformed payload.
pub open spec fn state_model_of(s: Seq<char>) -> Option<StateModel> {
    match json_canon(s) {
        Some(rep) => model_of_rep(rep),
        None => None,
    }
}

fn read_bool_field(v: &serde_json::Value, key: &str) -> (r: Option<bool>)
    ensures
        r == bool_field(value_rep(*v), key@),
{
    match get_field(v, key) {
        Some(f) => value_as_bool(f),
        None => None,
    }
}

fn read_string_field(v: &serde_json::Value, key: &str) -> (r: Option<String>)
    ensures
        match r {
            Some(t) => string_field(value_rep(*v), key@) == Some(t@),
            None => string_field(value_rep(*v), key@) is None,
        },
{
    match get_field(v, key) {
        Some(f) => match value_as_str(f) {
            Some(t) => Some(String::from_str(t)),
            None => None,
        },
        None => None,
    }
}

fn read_object_field(v: &serde_json::Value, key: &str) -> (r: Option<serde_json::Value>)
    ensures
        match r {
            Some(o) => object_field(value_rep(*v), key@) == Some(value_rep(o)) && rep_is_object(
                value_rep(o),
            ),
            None => object_field(value_rep(*v), key@) is None,
        },
{
    match get_field(v, key) {
        Some(f) => if value_is_object(f) {
            Some(clone_value(f))
        } else {
            None
        },
        None => None,
    }
}

/// Checks a serialized payload against the state schema, all-or-nothing: the
/// state it describes on success, `DeserializationError` exactly on the
/// payloads that describe no state.
pub fn parse_app_state(s: &str) -> (r: Result<AppState, DeserializationError>)
    ensures
        match r {
            Ok(st) => state_model_of(s@) == Some(st@) && st@.wf(),
            Err(_) => state_model_of(s@) is None,
        },
{
    let v = match parse_json(s) {
        Some(v) => v,
        None => {
            return Err(DeserializationError);
        },
    };
    let ready = match read_bool_field(&v, "ready") {
        Some(b) => b,
        None => {
            return Err(DeserializationError);
        },
    };
    let connected = match read_bool_field(&v, "connected") {
        Some(b) => b,
        None => {
            return Err(DeserializationError);
        },
    };
    let connected_application = match read_string_field(&v, "connected_application") {
        Some(t) => t,
        None => {
            return Err(DeserializationError);
        },
    };
    let connected_version = match read_string_field(&v, "connected_version") {
        Some(t) => t,
        None => {
            return Err(DeserializationError);
        },
    };
    let connected_file_name = match read_string_field(&v, "connected_file_name") {
        Some(t) => t,
        None => {
            return Err(DeserializationError);
        },
    };
    let scene_data = match read_object_field(&v, "scene_data") {
        Some(o) => o,
        None => {
            return Err(DeserializationError);
        },
    };
    let rf_instance = match read_object_field(&v, "rf_instance") {
        Some(o) => o,
        None => {
            return Err(DeserializationError);
        },
    };
    let executed_results = match read_object_field(&v, "executed_results") {
        Some(o) => o,
        None => {
            return Err(DeserializationError);
        },
    };
    let executed_inputs = match read_object_field(&v, "executed_inputs") {
        Some(o) => o,
        None => {
            return Err(DeserializationError);
        },
    };
    let st = AppState {
        ready,
        connected,
        connected_application,
        connected_version,
        connected_file_name,
        scene_data,
        rf_instance,
        executed_results,
        executed_inputs,
    };
    Ok(st)
}

/// The single authoritative copy of the application state. Exclusive access
/// is expressed through `&mut`: whoever holds the store (in the shipped shell,
/// the holder of the surrounding lock) reads and writes the whole state as one
/// critical section, so related fields are always observed together.
pub struct StateStore {
    state: AppState,
}

impl View for StateStore {
    type V = StateModel;

    closed spec fn view(&self) -> StateModel {
        self.state@
    }
}

impl StateStore {
    /// Schema shape of the stored state.
    pub open spec fn wf(&self) -> bool {
        self@.wf()
    }

    /// A fresh store holding the default state.
    pub fn new() -> (r: StateStore)
        ensures
            r@ == StateModel::init(),
            r.wf(),
    {
        StateStore { state: AppState::default() }
    }

    /// A consistent point-in-time copy of the whole state.
    pub fn get_snapshot(&self) -> (r: AppState)
        ensures
            r@ == self@,
    {
        self.state.clone()
    }

    /// Sets the readiness flag under exclusive access; every other field is
    /// kept, and setting it again changes nothing.
    pub fn mark_ready(&mut self)
        ensures
            final(self)@ == old(self)@.with_ready(),
    {
        self.state.ready = true;
    }

    /// Swaps in a whole replacement state: a total replace, nothing of the
    /// previous state survives.
    pub fn replace(&mut self, new_state: AppState)
        requires
            new_state@.wf(),
        ensures
            final(self)@ == new_state@,
            final(self).wf(),
    {
        self.state = new_state;
    }
}

/// Marks the UI as ready and returns the current full snapshot. The flag only
/// ever goes from false to true here; all other fields are untouched.
pub fn ready(store: &mut StateStore) -> (r: AppState)
    ensures
        final(store)@ == old(store)@.with_ready(),
        r@ == final(store)@,
        r@.ready,
{
    store.mark_ready();
    store.get_snapshot()
}

/// The store content after an ingest of payload `s` from state `pre`: a valid
/// payload replaces the whole state, an invalid one leaves it untouched.
pub open spec fn replace_outcome(pre: StateModel, s: Seq<char>) -> StateModel {
    match state_model_of(s) {
        Some(m) => m,
        None => pre,
    }
}

/// Replaces the whole state with the one a serialized payload from the UI
/// describes. All-or-nothing: on a malformed payload it fails with
/// `DeserializationError` and the state keeps every field it had.
pub fn js_update_state(store: &mut StateStore, state: String) -> (r: Result<
    (),
    DeserializationError,
>)
    ensures
        final(store)@ == replace_outcome(old(store)@, state@),
        r is Ok <==> state_model_of(state@) is Some,
        old(store).wf() ==> final(store).wf(),
{
    match parse_app_state(state.as_str()) {
        Ok(st) => {
            store.replace(st);
            Ok(())
        },
        Err(e) => Err(e),
    }
}

/// Relies on std::io::Stdout (through writeln): writes the line to the
/// process's diagnostic output; the result of the write is discarded, so the
/// call never fails.
#[verifier::external_body]
fn print_line(message: &str) {
    let mut out = std::io::stdout();
    let _ = writeln!(out, "{}", message);
}

/// Logging pass-through of the command surface: writes one diagnostic line;
/// never fails, returns nothing.
pub fn log(message: String) {
    print_line(message.as_str());
}

/// Readiness is one-way and idempotent: marking ready sets the flag and
/// nothing else, marking again leaves the state exactly as it was, and on a
/// state that is already ready it changes nothing at all. So however many
/// times `ready` is invoked, the flag goes from false to true at most once,
/// and every call after the first returns the same state.
pub proof fn lemma_ready_idempotent(m: StateModel)
    ensures
        m.with_ready().ready,
        m.with_ready() == (StateModel { ready: true, ..m }),
        m.with_ready().with_ready() == m.with_ready(),
        m.ready ==> m.with_ready() == m,
{
}

/// Round trip of the ingest path: a successful ingest of payload `s` leaves
/// the store holding exactly the state `s` describes, whatever was stored
/// before — so the next snapshot equals the submitted state.
pub proof fn lemma_replace_round_trip(pre: StateModel, s: Seq<char>)
    requires
        state_model_of(s) is Some,
    ensures
        replace_outcome(pre, s) == state_model_of(s).unwrap(),
{
}

/// The store after a run of ingests, applied in order.
pub open spec fn ingest_run(pre: StateModel, payloads: Seq<Seq<char>>) -> StateModel
    decreases payloads.len(),
{
    if payloads.len() == 0 {
        pre
    } else {
        ingest_run(replace_outcome(pre, payloads[0]), payloads.skip(1))
    }
}

/// Last writer wins: after any run of ingests whose last payload is valid,
/// the store holds exactly the state that last payload describes — one
/// submission whole, never an interleaving of fields from two submissions,
/// and nothing of the prior state.
pub proof fn lemma_last_writer_wins(pre: StateModel, payloads: Seq<Seq<char>>)
    requires
        payloads.len() > 0,
        state_model_of(payloads.last()) is Some,
    ensures
        ingest_run(pre, payloads) == state_model_of(payloads.last()).unwrap(),
    decreases payloads.len(),
{
    if payloads.len() == 1 {
        assert(payloads[0] == payloads.last());
        assert(payloads.skip(1).len() == 0);
        assert(ingest_run(replace_outcome(pre, payloads[0]), payloads.skip(1)) == replace_outcome(
            pre,
            payloads[0],
        ));
    } else {
        assert(payloads.skip(1).last() == payloads.last());
        lemma_last_writer_wins(replace_outcome(pre, payloads[0]), payloads.skip(1));
    }
}

} // verus!
