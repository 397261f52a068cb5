use ddd_tool::state::{Fix, Phrase, RoadmapState};

#[test]
fn test_roadmap_state_new() {
    let state = RoadmapState::new();
    assert_eq!(state.version, "1.0.0");
    assert_eq!(state.workflow, "init");
    assert!(!state.doc_ready);
    assert!(state.phrases.is_empty());
}

#[test]
fn test_validate_workflow_states() {
    let state = RoadmapState::new();
    assert!(state.validate().is_ok());

    let mut bad_state = RoadmapState::new();
    bad_state.workflow = "invalid".to_string();
    assert!(bad_state.validate().is_err());
}

#[test]
fn test_workflow_state_transitions() {
    let mut state = RoadmapState::new();
    assert_eq!(state.workflow, "init");

    state.workflow = "ready".to_string();
    assert_eq!(state.workflow, "ready");

    state.workflow = "dev".to_string();
    assert_eq!(state.workflow, "dev");
}

#[test]
fn test_phrase_status_transitions() {
    let mut state = RoadmapState::new();

    state.phrases.push(Phrase {
        name: "Phrase0".to_string(),
        status: "init".to_string(),
        file: "@project_docs/phrases/phrase0.md".to_string(),
        fixes: vec![],
    });

    assert_eq!(state.phrases[0].status, "init");

    // init → dev
    state.phrases[0].status = "dev".to_string();
    assert_eq!(state.phrases[0].status, "dev");

    // dev → finished
    state.phrases[0].status = "finished".to_string();
    assert_eq!(state.phrases[0].status, "finished");
}

#[test]
fn test_phrase_issue_found_to_fixing_flow() {
    let mut state = RoadmapState::new();

    state.phrases.push(Phrase {
        name: "Phrase0".to_string(),
        status: "issue_found".to_string(),
        file: "@project_docs/phrases/phrase0.md".to_string(),
        fixes: vec![Fix {
            id: 0,
            status: "done".to_string(),
            plan_file: "@project_docs/fixes/phrase0_fix0.md".to_string(),
        }],
    });

    // issue_found → fixing (当所有 fixes 都是 done)
    let all_done = state.phrases[0].fixes.iter().all(|f| f.status == "done");
    if all_done {
        state.phrases[0].status = "fixing".to_string();
    }
    assert_eq!(state.phrases[0].status, "fixing");
}

#[test]
fn test_fix_status_transitions() {
    let mut phrase = Phrase {
        name: "Phrase0".to_string(),
        status: "issue_found".to_string(),
        file: "@project_docs/phrases/phrase0.md".to_string(),
        fixes: vec![],
    };

    phrase.fixes.push(Fix {
        id: 0,
        status: "pending".to_string(),
        plan_file: "@project_docs/fixes/phrase0_fix0.md".to_string(),
    });

    // pending → planned
    phrase.fixes[0].status = "planned".to_string();
    assert_eq!(phrase.fixes[0].status, "planned");

    // planned → executing
    phrase.fixes[0].status = "executing".to_string();
    assert_eq!(phrase.fixes[0].status, "executing");

    // executing → done
    phrase.fixes[0].status = "done".to_string();
    assert_eq!(phrase.fixes[0].status, "done");
}

#[test]
fn test_fix_failed_to_planned_flow() {
    let mut phrase = Phrase {
        name: "Phrase0".to_string(),
        status: "issue_found".to_string(),
        file: "@project_docs/phrases/phrase0.md".to_string(),
        fixes: vec![],
    };

    phrase.fixes.push(Fix {
        id: 0,
        status: "executing".to_string(),
        plan_file: "@project_docs/fixes/phrase0_fix0.md".to_string(),
    });

    // 模拟验证失败
    phrase.fixes[0].status = "failed".to_string();
    assert_eq!(phrase.fixes[0].status, "failed");

    // 重新 plan
    phrase.fixes[0].status = "planned".to_string();
    assert_eq!(phrase.fixes[0].status, "planned");
}

#[test]
fn test_validate_rejects_invalid_phrase_status() {
    let mut state = RoadmapState::new();
    state.phrases.push(Phrase {
        name: "Phrase0".to_string(),
        status: "invalid".to_string(),
        file: "@project_docs/phrases/phrase0.md".to_string(),
        fixes: vec![],
    });
    assert!(state.validate().is_err());
}

#[test]
fn test_validate_rejects_invalid_fix_status() {
    let mut state = RoadmapState::new();
    state.phrases.push(Phrase {
        name: "Phrase0".to_string(),
        status: "issue_found".to_string(),
        file: "@project_docs/phrases/phrase0.md".to_string(),
        fixes: vec![Fix {
            id: 0,
            status: "invalid".to_string(),
            plan_file: "@project_docs/fixes/phrase0_fix0.md".to_string(),
        }],
    });
    assert!(state.validate().is_err());
}

#[test]
fn test_accept_initializes_phrases_correctly() {
    let mut state = RoadmapState::new();

    state.init_phrases_from_files(vec![
        ("PhaseA".to_string(), "@project_docs/phases/a.md".to_string()),
        ("PhaseB".to_string(), "@project_docs/phases/b.md".to_string()),
    ]);

    assert!(state.doc_ready);
    assert_eq!(state.workflow, "ready");
    assert_eq!(state.current_phase, Some("PhaseA".to_string()));
    assert_eq!(state.phrases.len(), 2);
    assert_eq!(state.phrases[0].name, "PhaseA");
    assert_eq!(state.phrases[0].status, "init");
    assert_eq!(state.phrases[1].name, "PhaseB");
    assert_eq!(state.phrases[1].status, "init");
}

#[test]
fn test_exec_sets_phrase_to_dev() {
    let mut state = RoadmapState::new();
    state.init_phrases_from_files(vec![
        ("Phrase0".to_string(), "@project_docs/phases/0.md".to_string()),
        ("Phrase1".to_string(), "@project_docs/phases/1.md".to_string()),
    ]);

    // Simulate exec: find current phase and set status to "dev" if "init"
    let current_name = state.current_phase.clone().unwrap();
    if let Some(phase) = state.phrases.iter_mut().find(|p| p.name == current_name) {
        if phase.status == "init" {
            phase.status = "dev".to_string();
        }
    }
    state.workflow = "dev".to_string();

    assert_eq!(state.phrases[0].status, "dev");
    assert_eq!(state.workflow, "dev");
    assert_eq!(state.current_phase, Some("Phrase0".to_string()));
}

#[test]
fn test_exec_skips_finished_phases() {
    let mut state = RoadmapState::new();
    state.init_phrases_from_files(vec![
        ("Phrase0".to_string(), "@project_docs/phases/0.md".to_string()),
        ("Phrase1".to_string(), "@project_docs/phases/1.md".to_string()),
    ]);

    // Phase0 is finished
    state.phrases[0].status = "finished".to_string();
    state.current_phase = Some("Phrase1".to_string());

    // Simulate exec finding next non-finished phase
    let current_name = state.current_phase.clone().unwrap();
    let phase = state.phrases.iter().find(|p| p.name == current_name);
    let (name, _) = match phase {
        Some(p) if p.status == "finished" => {
            let idx = state.phrases.iter().position(|p| p.name == current_name).unwrap();
            let next = state.phrases.get(idx + 1);
            match next {
                Some(np) => (np.name.clone(), np.file.clone()),
                None => return, // no more phases
            }
        }
        Some(p) => (p.name.clone(), p.file.clone()),
        None => return,
    };

    assert_eq!(name, "Phrase1");
}

#[test]
fn test_advance_phase_when_no_current_phase() {
    let mut state = RoadmapState::new();
    state.current_phase = None;

    let result = state.advance_phase().unwrap();
    assert!(result.is_none());
    assert_eq!(state.current_phase, None);
}

#[test]
fn test_current_phase_returns_correct_phrase() {
    let mut state = RoadmapState::new();
    state.init_phrases_from_files(vec![
        ("P0".to_string(), "f0".to_string()),
        ("P1".to_string(), "f1".to_string()),
    ]);

    assert_eq!(state.fetch_current_phase().map(|p| p.name.as_str()), Some("P0"));

    state.advance_phase().unwrap();
    assert_eq!(state.fetch_current_phase().map(|p| p.name.as_str()), Some("P1"));
}

#[test]
fn test_all_phases_complete() {



}

#[test]
fn advance_phase_errors_when_pointer_names_no_phase() {
    let mut state = RoadmapState::new();
    state.init_phrases_from_files(vec![("P0".to_string(), "f0".to_string())]);
    state.current_phase = Some("missing".to_string());
    assert!(state.advance_phase().is_err());
    assert_eq!(state.phrases[0].status, "init");
    assert_eq!(state.current_phase, Some("missing".to_string()));
}

#[test]
fn advancing_through_every_phase_completes_the_roadmap() {
    let mut state = RoadmapState::new();
    state.init_phrases_from_files(vec![
        ("A".to_string(), "a.md".to_string()),
        ("B".to_string(), "b.md".to_string()),
        ("C".to_string(), "c.md".to_string()),
    ]);
    assert_eq!(state.advance_phase().unwrap().map(|p| p.name.clone()), Some("B".to_string()));
    assert!(!state.is_all_phases_complete());
    assert_eq!(state.advance_phase().unwrap().map(|p| p.name.clone()), Some("C".to_string()));
    assert!(state.advance_phase().unwrap().is_none());
    assert!(state.is_all_phases_complete());
    assert_eq!(state.current_phase, None);
    assert!(state.validate().is_ok());
    assert_eq!(state.phrases[2].file, "c.md");
}

#[test]
fn fetch_current_phase_without_pointer_returns_none() {
    let mut state = RoadmapState::new();
    state.phrases.push(Phrase {
        name: "First".to_string(),
        status: "init".to_string(),
        file: "f".to_string(),
        fixes: vec![],
    });
    assert!(state.fetch_current_phase().is_none());
    assert_eq!(state.current_phase, None);
    state.current_phase = Some("First".to_string());
    assert_eq!(state.fetch_current_phase().map(|p| p.name.clone()), Some("First".to_string()));
    let mut empty = RoadmapState::new();
    assert!(empty.fetch_current_phase().is_none());
    assert_eq!(empty.current_phase, None);
}

#[test]
fn set_phase_dev_and_finished_change_the_first_phase_of_that_name() {
    let mut state = RoadmapState::new();
    state.init_phrases_from_files(vec![
        ("P".to_string(), "1".to_string()),
        ("P".to_string(), "2".to_string()),
    ]);
    state.set_phase_dev("P");
    assert_eq!(state.workflow, "dev");
    assert_eq!(state.current_phase, Some("P".to_string()));
    assert_eq!(state.phrases[0].status, "dev");
    assert_eq!(state.phrases[1].status, "init");
    state.set_phase_finished("P");
    assert_eq!(state.phrases[0].status, "finished");
    assert_eq!(state.phrases[1].status, "init");
    state.set_phase_dev("Nope");
    assert_eq!(state.current_phase, Some("Nope".to_string()));
    assert_eq!(state.phrases[0].status, "finished");
}

#[test]
fn validate_accepts_every_phase_state_and_reports_the_bad_value() {
    let mut state = RoadmapState::new();
    for s in ["init", "dev", "verifying", "issue_found", "fixing", "finished"] {
        state.phrases.push(Phrase {
            name: s.to_string(),
            status: s.to_string(),
            file: String::new(),
            fixes: ["pending", "planned", "executing", "done", "failed"]
                .iter()
                .map(|f| Fix { id: 0, status: f.to_string(), plan_file: String::new() })
                .collect(),
        });
    }
    for w in ["init", "ready", "dev", "archived"] {
        state.workflow = w.to_string();
        assert!(state.validate().is_ok());
    }
    state.phrases[3].fixes[1].status = "lost".to_string();
    state.phrases[4].fixes[0].status = "gone".to_string();
    match state.validate() {
        Err(e @ ddd_tool::state::RoadmapError::InvalidFixStatus(_)) => assert_eq!(
            e.message(),
            "Invalid fix status: lost, expected one of: [\"pending\", \"planned\", \"executing\", \"done\", \"failed\"]"
        ),
        other => panic!("unexpected {:?}", other),
    }
    state.phrases[2].status = "odd".to_string();
    match state.validate() {
        Err(e @ ddd_tool::state::RoadmapError::InvalidPhraseStatus(_)) => assert_eq!(
            e.message(),
            "Invalid phrase status: odd, expected one of: [\"init\", \"dev\", \"verifying\", \"issue_found\", \"fixing\", \"finished\"]"
        ),
        other => panic!("unexpected {:?}", other),
    }
    state.workflow = "bad".to_string();
    match state.validate() {
        Err(ddd_tool::state::RoadmapError::InvalidWorkflow(s)) => assert_eq!(s, "bad"),
        other => panic!("unexpected {:?}", other),
    }
}

#[test]
fn is_current_init_looks_at_the_named_phase() {
    let mut state = RoadmapState::new();
    assert!(!state.is_current_init());
    state.init_phrases_from_files(vec![("P0".to_string(), "f".to_string())]);
    assert!(state.is_current_init());
    state.phrases[0].status = "dev".to_string();
    assert!(!state.is_current_init());
}

#[test]
fn validate_checks_fix_statuses_and_admits_issue_found_and_fixing() {
    let mut state = RoadmapState::new();
    state.workflow = "dev".to_string();
    state.phrases.push(Phrase {
        name: "Phrase0".to_string(),
        status: "dev".to_string(),
        file: "@project_docs/phrases/phrase0.md".to_string(),
        fixes: vec![Fix {
            id: 0,
            status: "invalid".to_string(),
            plan_file: "@project_docs/fixes/phrase0_fix0.md".to_string(),
        }],
    });
    assert!(state.validate().is_err());

    let mut ok = RoadmapState::new();
    ok.workflow = "dev".to_string();
    ok.phrases.push(Phrase { name: "Phrase0".to_string(), status: "issue_found".to_string(), file: "f0".to_string(), fixes: vec![] });
    ok.phrases.push(Phrase { name: "Phrase1".to_string(), status: "fixing".to_string(), file: "f1".to_string(), fixes: vec![] });
    assert!(ok.validate().is_ok());
}

#[test]
fn completing_every_phase_takes_one_advance_per_phase() {
    let mut state = RoadmapState::new();
    state.init_phrases_from_files(vec![
        ("P0".to_string(), "f0".to_string()),
        ("P1".to_string(), "f1".to_string()),
        ("P2".to_string(), "f2".to_string()),
    ]);
    for _ in 0..3 {
        assert!(!state.is_all_phases_complete());
        state.advance_phase().unwrap();
    }
    assert!(state.is_all_phases_complete());
    assert_eq!(state.current_phase, None);
    assert!(state.fetch_current_phase().is_none());
}
