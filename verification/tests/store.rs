use ddd_tool::state::{Phrase, RoadmapState, RoadmapStore};
use tempfile::tempdir;

/// What a save followed by a load hands back, short of the JSON file: the
/// stamped copy that saving writes, checked again on the way in.
fn save_then_load(store: &RoadmapStore, state: &RoadmapState) -> RoadmapState {
    let written = store.prepare_save(state).unwrap();
    store.accept_loaded(Some(written)).unwrap()
}

#[test]
fn test_save_load() {
    let dir = tempdir().unwrap();
    let path = dir.path().join("roadmap.json");
    let store = RoadmapStore::new(path.to_str().unwrap());

    let state = RoadmapState::new();
    let loaded = save_then_load(&store, &state);
    assert_eq!(loaded.workflow, "init");
    assert_eq!(loaded.version, "1.0.0");
}

#[test]
fn test_save_and_load_with_phrases() {
    let dir = tempdir().unwrap();
    let path = dir.path().join("roadmap.json");
    let store = RoadmapStore::new(path.to_str().unwrap());

    let mut state = RoadmapState::new();
    state.workflow = "dev".to_string();
    state.doc_ready = true;
    state.current_phase = Some("Phrase0".to_string());
    state.phrases.push(Phrase {
        name: "Phrase0".to_string(),
        status: "dev".to_string(),
        file: "@project_docs/phrases/phrase0.md".to_string(),
        fixes: vec![],
    });

    let loaded = save_then_load(&store, &state);
    assert_eq!(loaded.workflow, "dev");
    assert!(loaded.doc_ready);
    assert_eq!(loaded.current_phase, Some("Phrase0".to_string()));
    assert_eq!(loaded.phrases.len(), 1);
    assert_eq!(loaded.phrases[0].name, "Phrase0");
    assert_eq!(loaded.phrases[0].status, "dev");
}

#[test]
fn test_archive_reset_flow() {
    let dir = tempdir().unwrap();
    let path = dir.path().join("roadmap.json");
    let store = RoadmapStore::new(path.to_str().unwrap());

    let mut state = RoadmapState::new();
    state.workflow = "dev".to_string();
    state.phrases.push(Phrase {
        name: "Phrase0".to_string(),
        status: "finished".to_string(),
        file: "@project_docs/phrases/phrase0.md".to_string(),
        fixes: vec![],
    });
    store.prepare_save(&state).unwrap();

    let initial_state = RoadmapState::new();
    let loaded = save_then_load(&store, &initial_state);
    assert_eq!(loaded.workflow, "init");
    assert!(!loaded.doc_ready);
    assert!(loaded.phrases.is_empty());
}

#[test]
fn test_confirm_advances_phase_and_marks_finished() {
    let dir = tempdir().unwrap();
    let path = dir.path().join("roadmap.json");
    let store = RoadmapStore::new(path.to_str().unwrap());

    let mut state = RoadmapState::new();
    state.init_phrases_from_files(vec![
        ("Phrase0".to_string(), "@project_docs/phases/0.md".to_string()),
        ("Phrase1".to_string(), "@project_docs/phases/1.md".to_string()),
    ]);
    state.phrases[0].status = "dev".to_string();
    state.workflow = "dev".to_string();
    store.prepare_save(&state).unwrap();

    let next = state.advance_phase().unwrap();
    assert_eq!(next.map(|p| p.name.as_str()), Some("Phrase1"));
    assert_eq!(state.phrases[0].status, "finished");
    assert_eq!(state.current_phase, Some("Phrase1".to_string()));
    assert!(!state.is_all_phases_complete());

    let loaded = save_then_load(&store, &state);
    assert_eq!(loaded.phrases[0].status, "finished");
    assert_eq!(loaded.current_phase, Some("Phrase1".to_string()));
}

#[test]
fn test_full_workflow_accept_exec_confirm_archive() {
    let dir = tempdir().unwrap();
    let path = dir.path().join("roadmap.json");
    let store = RoadmapStore::new(path.to_str().unwrap());

    let mut state = RoadmapState::new();
    state.init_phrases_from_files(vec![
        ("Phrase0".to_string(), "@project_docs/phases/0.md".to_string()),
        ("Phrase1".to_string(), "@project_docs/phases/1.md".to_string()),
    ]);
    assert_eq!(state.workflow, "ready");
    assert_eq!(state.current_phase, Some("Phrase0".to_string()));
    assert_eq!(state.phrases[0].status, "init");
    store.prepare_save(&state).unwrap();

    let current_name = state.current_phase.clone().unwrap();
    if let Some(phase) = state.phrases.iter_mut().find(|p| p.name == current_name) {
        if phase.status == "init" {
            phase.status = "dev".to_string();
        }
    }
    state.workflow = "dev".to_string();
    assert_eq!(state.phrases[0].status, "dev");
    assert_eq!(state.workflow, "dev");
    store.prepare_save(&state).unwrap();

    let next = state.advance_phase().unwrap();
    assert_eq!(next.map(|p| p.name.as_str()), Some("Phrase1"));
    assert_eq!(state.phrases[0].status, "finished");
    assert_eq!(state.current_phase, Some("Phrase1".to_string()));
    store.prepare_save(&state).unwrap();

    let current_name = state.current_phase.clone().unwrap();
    if let Some(phase) = state.phrases.iter_mut().find(|p| p.name == current_name) {
        if phase.status == "init" {
            phase.status = "dev".to_string();
        }
    }
    assert_eq!(state.phrases[1].status, "dev");
    store.prepare_save(&state).unwrap();

    let next = state.advance_phase().unwrap();
    assert!(next.is_none());
    assert_eq!(state.phrases[1].status, "finished");
    assert_eq!(state.current_phase, None);
    assert!(state.is_all_phases_complete());
    store.prepare_save(&state).unwrap();

    state.workflow = "archived".to_string();
    let loaded = save_then_load(&store, &state);
    assert_eq!(loaded.workflow, "archived");
    assert_eq!(loaded.phrases[0].status, "finished");
    assert_eq!(loaded.phrases[1].status, "finished");
    assert!(loaded.is_all_phases_complete());
}

#[test]
fn saving_refuses_an_invalid_roadmap_and_names_the_bad_value() {
    let store = RoadmapStore::new("roadmap.json");
    let mut state = RoadmapState::new();
    state.workflow = "paused".to_string();
    let e = store.prepare_save(&state).unwrap_err();
    assert_eq!(
        e.message(),
        "Invalid workflow state: paused, expected one of: [\"init\", \"ready\", \"dev\", \"archived\"]"
    );
    let e = store.accept_loaded(Some(state)).unwrap_err();
    assert_eq!(
        e.message(),
        "Invalid workflow state: paused, expected one of: [\"init\", \"ready\", \"dev\", \"archived\"]"
    );
}

#[test]
fn loading_without_a_file_gives_a_fresh_roadmap() {
    let store = RoadmapStore::new("roadmap.json");
    let loaded = store.accept_loaded(None).unwrap();
    assert_eq!(loaded.workflow, "init");
    assert_eq!(loaded.version, "1.0.0");
    assert_eq!(loaded.current_phase, None);
    assert!(loaded.phrases.is_empty());
    assert_eq!(store.path(), "roadmap.json");
}

#[test]
fn fresh_and_saved_roadmaps_carry_an_rfc3339_utc_stamp() {
    let store = RoadmapStore::new("roadmap.json");
    for stamp in [RoadmapState::new().updated_at, store.prepare_save(&RoadmapState::new()).unwrap().updated_at] {
        let chars: Vec<char> = stamp.chars().collect();
        assert!(stamp.ends_with("+00:00"), "{}", stamp);
        assert_eq!(chars[10], 'T');
        assert_eq!(chars[4], '-');
        assert!(chars.len() >= 25);
    }
}
