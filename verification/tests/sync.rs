use midianimator::json::rendered;
use midianimator::push::{update_state, PushAction, PushLatch};
use midianimator::state::{js_update_state, log, parse_app_state, ready, AppState, StateStore};

fn assert_states_equal(a: &AppState, b: &AppState) {
    assert_eq!(a.ready, b.ready);
    assert_eq!(a.connected, b.connected);
    assert_eq!(a.connected_application, b.connected_application);
    assert_eq!(a.connected_version, b.connected_version);
    assert_eq!(a.connected_file_name, b.connected_file_name);
    assert_eq!(rendered(&a.scene_data), rendered(&b.scene_data));
    assert_eq!(rendered(&a.rf_instance), rendered(&b.rf_instance));
    assert_eq!(rendered(&a.executed_results), rendered(&b.executed_results));
    assert_eq!(rendered(&a.executed_inputs), rendered(&b.executed_inputs));
}

fn valid_payload() -> String {
    String::from(
        "{\"ready\":true,\"connected\":true,\"connected_application\":\"Blender\",\
         \"connected_version\":\"4.0\",\"connected_file_name\":\"scene.blend\",\
         \"scene_data\":{},\"rf_instance\":{},\"executed_results\":{},\
         \"executed_inputs\":{}}",
    )
}

#[test]
fn default_state_is_empty() {
    let store = StateStore::new();
    let snap = store.get_snapshot();
    assert!(!snap.ready);
    assert!(!snap.connected);
    assert_eq!(snap.connected_application, "");
    assert_eq!(snap.connected_version, "");
    assert_eq!(snap.connected_file_name, "");
    assert_eq!(rendered(&snap.scene_data), "{}");
    assert_eq!(rendered(&snap.rf_instance), "{}");
    assert_eq!(rendered(&snap.executed_results), "{}");
    assert_eq!(rendered(&snap.executed_inputs), "{}");
}

#[test]
fn ready_sets_flag_and_keeps_the_rest() {
    let mut store = StateStore::new();
    let snap = ready(&mut store);
    assert!(snap.ready);
    assert!(!snap.connected);
    assert_eq!(snap.connected_application, "");
    assert_eq!(rendered(&snap.scene_data), "{}");
}

#[test]
fn ready_is_idempotent() {
    let mut store = StateStore::new();
    let first = ready(&mut store);
    let second = ready(&mut store);
    let third = ready(&mut store);
    assert!(first.ready);
    assert_states_equal(&first, &second);
    assert_states_equal(&second, &third);
}

#[test]
fn replace_then_snapshot_round_trips() {
    let payload = String::from(
        "{\"ready\":true,\"connected\":true,\"connected_application\":\"Blender\",\
         \"connected_version\":\"4.1\",\"connected_file_name\":\"a.blend\",\
         \"scene_data\":{\"main\":{\"objects\":[1,2,3]}},\
         \"rf_instance\":{\"id\":7},\
         \"executed_results\":{\"node\":null},\
         \"executed_inputs\":{}}",
    );
    let mut store = StateStore::new();
    js_update_state(&mut store, payload).unwrap();
    let snap = store.get_snapshot();
    assert!(snap.ready);
    assert!(snap.connected);
    assert_eq!(snap.connected_application, "Blender");
    assert_eq!(snap.connected_version, "4.1");
    assert_eq!(snap.connected_file_name, "a.blend");
    assert_eq!(rendered(&snap.scene_data), "{\"main\":{\"objects\":[1,2,3]}}");
    assert_eq!(rendered(&snap.rf_instance), "{\"id\":7}");
    assert_eq!(rendered(&snap.executed_results), "{\"node\":null}");
    assert_eq!(rendered(&snap.executed_inputs), "{}");
}

#[test]
fn replace_scenario_from_defaults() {
    let mut store = StateStore::new();
    let first = ready(&mut store);
    assert!(first.ready);
    assert!(!first.connected);
    js_update_state(&mut store, valid_payload()).unwrap();
    let snap = store.get_snapshot();
    assert!(snap.connected);
    assert_eq!(snap.connected_application, "Blender");
    assert_eq!(snap.connected_version, "4.0");
    assert_eq!(snap.connected_file_name, "scene.blend");
}

#[test]
fn malformed_payloads_fail_and_leave_state_untouched() {
    let missing_field = String::from(
        "{\"ready\":true,\"connected\":true,\"connected_application\":\"Blender\",\
         \"connected_version\":\"4.0\",\"connected_file_name\":\"scene.blend\",\
         \"scene_data\":{},\"rf_instance\":{},\"executed_results\":{}}",
    );
    let wrong_type = String::from(
        "{\"ready\":1,\"connected\":true,\"connected_application\":\"Blender\",\
         \"connected_version\":\"4.0\",\"connected_file_name\":\"scene.blend\",\
         \"scene_data\":{},\"rf_instance\":{},\"executed_results\":{},\
         \"executed_inputs\":{}}",
    );
    let map_not_object = String::from(
        "{\"ready\":true,\"connected\":true,\"connected_application\":\"Blender\",\
         \"connected_version\":\"4.0\",\"connected_file_name\":\"scene.blend\",\
         \"scene_data\":[],\"rf_instance\":{},\"executed_results\":{},\
         \"executed_inputs\":{}}",
    );
    let not_json = String::from("not json at all");
    let not_an_object = String::from("[1,2,3]");

    let mut store = StateStore::new();
    ready(&mut store);
    let before = store.get_snapshot();
    for payload in [missing_field, wrong_type, map_not_object, not_json, not_an_object] {
        let r = js_update_state(&mut store, payload);
        assert!(r.is_err());
        let after = store.get_snapshot();
        assert_states_equal(&before, &after);
    }
}

#[test]
fn unknown_extra_fields_are_passed_over() {
    let payload = String::from(
        "{\"ready\":false,\"connected\":false,\"connected_application\":\"\",\
         \"connected_version\":\"\",\"connected_file_name\":\"\",\
         \"scene_data\":{},\"rf_instance\":{},\"executed_results\":{},\
         \"executed_inputs\":{},\"someone_elses_field\":42}",
    );
    let st = parse_app_state(&payload).unwrap();
    assert!(!st.ready);
    assert_eq!(rendered(&st.scene_data), "{}");
}

#[test]
fn parse_reads_fields_not_the_raw_text() {
    // Whitespace and field order do not matter; what is stored is the parsed
    // value of each field, not the submitted text.
    let payload = String::from(
        "{ \"connected\": true, \"ready\": true,\
           \"connected_file_name\": \"scene.blend\",\
           \"connected_version\": \"4.0\",\
           \"connected_application\": \"Blender\",\
           \"executed_inputs\": {},\
           \"executed_results\": {\"b\": 1, \"a\": 2},\
           \"rf_instance\": {},\
           \"scene_data\": {} }",
    );
    let st = parse_app_state(&payload).unwrap();
    assert!(st.ready);
    assert_eq!(st.connected_application, "Blender");
    // Canonical rendering sorts object keys.
    assert_eq!(rendered(&st.executed_results), "{\"a\":2,\"b\":1}");
}

#[test]
fn last_writer_wins_over_successive_replaces() {
    let s1 = String::from(
        "{\"ready\":true,\"connected\":true,\"connected_application\":\"Blender\",\
         \"connected_version\":\"4.0\",\"connected_file_name\":\"first.blend\",\
         \"scene_data\":{\"one\":1},\"rf_instance\":{},\"executed_results\":{},\
         \"executed_inputs\":{}}",
    );
    let s2 = String::from(
        "{\"ready\":true,\"connected\":false,\"connected_application\":\"\",\
         \"connected_version\":\"\",\"connected_file_name\":\"second.blend\",\
         \"scene_data\":{\"two\":2},\"rf_instance\":{},\"executed_results\":{},\
         \"executed_inputs\":{}}",
    );
    let mut store = StateStore::new();
    js_update_state(&mut store, s1).unwrap();
    js_update_state(&mut store, s2).unwrap();
    let snap = store.get_snapshot();
    // Every field comes from the second submission, none from the first.
    assert!(snap.ready);
    assert!(!snap.connected);
    assert_eq!(snap.connected_application, "");
    assert_eq!(snap.connected_file_name, "second.blend");
    assert_eq!(rendered(&snap.scene_data), "{\"two\":2}");
}

#[test]
fn push_waits_until_ready_then_emits_exactly_once() {
    let mut store = StateStore::new();
    let mut latch = PushLatch::new();
    match update_state(&mut latch, &store, true) {
        PushAction::Wait => {}
        _ => panic!("the latch must wait while the UI is not ready"),
    }
    ready(&mut store);
    match update_state(&mut latch, &store, true) {
        PushAction::Emit(payload) => {
            assert!(payload.ready);
            assert_states_equal(&payload, &store.get_snapshot());
        }
        _ => panic!("the latch must emit once the UI is ready and the window bound"),
    }
    for _ in 0..3 {
        match update_state(&mut latch, &store, true) {
            PushAction::Wait => {}
            _ => panic!("the automatic push must not be emitted twice"),
        }
    }
}

#[test]
fn push_with_unbound_window_is_a_startup_violation() {
    let mut store = StateStore::new();
    let mut latch = PushLatch::new();
    ready(&mut store);
    match update_state(&mut latch, &store, false) {
        PushAction::StartupInvariantViolation => {}
        _ => panic!("readiness without a bound window must be flagged as fatal"),
    }
    // The latch did not count that as a push: once the window is bound the
    // snapshot still goes out.
    match update_state(&mut latch, &store, true) {
        PushAction::Emit(payload) => assert!(payload.ready),
        _ => panic!("the push is still owed after the window is bound"),
    }
}

#[test]
fn log_never_fails() {
    log(String::from("diagnostic line"));
    log(String::new());
}
