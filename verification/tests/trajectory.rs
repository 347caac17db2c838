use std::collections::HashMap;
use uuid::Uuid;
use waku::label::Label;
use waku::text_set::TextSet;
use waku::trajectory::inspector::{
    detail_body, detail_load_more, handle_tab_key, localized_section_name,
    render_inspector_content, settle_detail, DetailBody, DetailExtent, DetailLoaded, DetailPane,
    DetailQuery, DetailSettled,
    TabKey,
};
use waku::trajectory::json_tree::{flatten_json_tree, Json, JsonEntry, JsonValueType};
use waku::trajectory::json_tree_state::{json_row, JsonTreeState};
use waku::trajectory::ledger::{saturating_add, TrajectoryLedgerRowKind};
use waku::trajectory::order::sort_rows;
use waku::trajectory::record::{
    allowed_sections_for_kind, default_section_for_kind, kind_display_name, lane_display_name,
    status_display_name, TrajectoryAvailability, TrajectoryCursor, TrajectoryDetailSection,
    TrajectoryKind, TrajectoryLane, TrajectoryLoadingStatus, TrajectoryRowSummary,
    TrajectoryStatus,
};
use waku::trajectory::search::{build_search_index, matches_and_search};
use waku::trajectory::state::{TrajectoryCommand, TrajectoryLiveUpdate, TrajectorySessionState};
use waku::trajectory::timeline::{compute_timeline_layout, Ratio};
use waku::trajectory::view::{
    bind_trajectory_search, span_tooltip, LedgerPane, ListKeyOutcome, OlderPage, RowClick, SpanWords,
    StatusTone, TrajectoryBanner, TrajectoryLoad, TrajectoryPane,
};

fn new_id() -> u128 {
    Uuid::new_v4().as_u128()
}

fn make_test_record(
    id: u128,
    turn_count: u32,
    step: u32,
    kind: TrajectoryKind,
    lane: TrajectoryLane,
    title: &str,
    preview: &str,
    search_text: &str,
    started_at: Option<i64>,
    duration_ms: Option<i64>,
    parent_id: Option<u128>,
) -> TrajectoryRowSummary {
    TrajectoryRowSummary {
        record_id: id,
        sequence: (turn_count as u64) * 10 + (step as u64),
        revision: 1,
        request_id: None,
        parent_record_id: parent_id,
        prompt_id: None,
        turn_count,
        step,
        kind,
        lane,
        status: TrajectoryStatus::Completed,
        title: title.to_string(),
        preview: preview.to_string(),
        search_text: search_text.to_string(),
        started_at_ms: started_at,
        first_token_at_ms: started_at.map(|s| s + 50),
        completed_at_ms: started_at.and_then(|s| duration_ms.map(|d| s + d)),
        duration_ms,
        ttft_ms: Some(50),
    }
}

fn request(id: u128, turn: u32, step: u32, title: &str) -> TrajectoryRowSummary {
    make_test_record(
        id,
        turn,
        step,
        TrajectoryKind::Request,
        TrajectoryLane::Model,
        title,
        title,
        title,
        Some(100 * step as i64),
        Some(10),
        None,
    )
}

fn loaded(rows: Vec<TrajectoryRowSummary>) -> TrajectorySessionState {
    let mut state = TrajectorySessionState::new(new_id());
    state.set_page_response(TrajectoryAvailability::Exact, 1, 1, rows, None, None, false, false);
    state
}

fn record_ids(state: &TrajectorySessionState) -> Vec<u128> {
    state.records.iter().map(|r| r.record_id).collect()
}

#[test]
fn test_and_search_multi_token_case_insensitive() {
    let mut index = HashMap::new();
    let id1 = new_id();
    let id2 = new_id();
    index.insert(id1, "read_file path/to/index.ts executed successfully".to_lowercase());
    index.insert(id2, "write_file path/to/output.txt created file".to_lowercase());

    let tokens1 = vec!["read".to_string()];
    assert!(matches_and_search(id1, &tokens1, &index));
    assert!(!matches_and_search(id2, &tokens1, &index));

    let tokens_multi = vec!["read".to_string(), "index.ts".to_string()];
    assert!(matches_and_search(id1, &tokens_multi, &index));
    assert!(!matches_and_search(id2, &tokens_multi, &index));

    let tokens_nomatch = vec!["read".to_string(), "output.txt".to_string()];
    assert!(!matches_and_search(id1, &tokens_nomatch, &index));

    let tokens_empty = Vec::new();
    assert!(matches_and_search(id1, &tokens_empty, &index));
    assert!(matches_and_search(id2, &tokens_empty, &index));
    assert!(!matches_and_search(new_id(), &tokens1, &index));
}

#[test]
fn the_index_holds_small_letters() {
    let record = make_test_record(
        1,
        1,
        1,
        TrajectoryKind::Tool,
        TrajectoryLane::Tools,
        "Read ÄPFEL",
        "Σ",
        "x",
        None,
        None,
        None,
    );
    let index = build_search_index(&[record]);
    assert!(index[&1].contains("read äpfel"));
    assert!(!index[&1].contains('Ä'));
    assert!(matches_and_search(1, &["äpfel".to_string()], &index));
}

#[test]
fn test_lane_mapping_and_parent_request_reuse() {
    let req_id = new_id();
    let ast_id = new_id();
    let req = make_test_record(
        req_id,
        1,
        1,
        TrajectoryKind::Request,
        TrajectoryLane::Model,
        "Request",
        "Model call",
        "request",
        Some(1000),
        Some(500),
        None,
    );
    // An answer without a start of its own takes that of its request.
    let ast = make_test_record(
        ast_id,
        1,
        1,
        TrajectoryKind::Assistant,
        TrajectoryLane::Model,
        "Assistant",
        "Thought and response",
        "assistant",
        None,
        Some(200),
        Some(req_id),
    );
    let layout = compute_timeline_layout(&[req, ast]);
    assert_eq!(layout.model_spans.len(), 2);
    assert_eq!(layout.model_spans[0].lane, TrajectoryLane::Model);
    assert_eq!(layout.model_spans[1].lane, TrajectoryLane::Model);
    assert!(layout.model_spans[0].has_timing);
    assert!(layout.model_spans[1].has_timing);
}

#[test]
fn bars_are_parts_of_the_whole_time() {
    let layout = compute_timeline_layout(&[
        make_test_record(
            1,
            1,
            1,
            TrajectoryKind::Request,
            TrajectoryLane::Model,
            "a",
            "a",
            "a",
            Some(1000),
            Some(500),
            None,
        ),
        make_test_record(
            2,
            1,
            2,
            TrajectoryKind::Tool,
            TrajectoryLane::Tools,
            "b",
            "b",
            "b",
            Some(1500),
            Some(500),
            None,
        ),
    ]);
    assert!(layout.has_any_timing);
    assert_eq!((layout.min_time_ms, layout.max_time_ms, layout.total_duration_ms), (1000, 2000, 1000));
    let part = |numer: u128, denom: u128| numer as f64 / denom as f64;
    let model = &layout.model_spans[0];
    assert_eq!(part(model.start_pct.numer, model.start_pct.denom), 0.0);
    assert_eq!(part(model.width_pct.numer, model.width_pct.denom), 0.5);
    let tool = &layout.tools_spans[0];
    assert_eq!(part(tool.start_pct.numer, tool.start_pct.denom), 0.5);
    assert_eq!(tool.duration_text.as_deref(), Some("500ms"));
    let nothing = compute_timeline_layout(&[]);
    assert!(!nothing.has_any_timing);
}

#[test]
fn test_grouped_mapping_and_folding() {
    let mut state = TrajectorySessionState::new(new_id());
    let req_id = new_id();
    let sys = make_test_record(
        new_id(),
        0,
        0,
        TrajectoryKind::System,
        TrajectoryLane::Input,
        "System",
        "System prompt",
        "system",
        Some(100),
        Some(10),
        None,
    );
    let req = make_test_record(
        req_id,
        1,
        1,
        TrajectoryKind::Request,
        TrajectoryLane::Model,
        "Step 1",
        "Execute step",
        "step 1",
        Some(200),
        Some(50),
        None,
    );
    let tool = make_test_record(
        new_id(),
        1,
        1,
        TrajectoryKind::Tool,
        TrajectoryLane::Tools,
        "Tool read_file",
        "Read file",
        "tool read",
        Some(260),
        Some(40),
        Some(req_id),
    );
    let ctx = make_test_record(
        new_id(),
        1,
        2,
        TrajectoryKind::Context,
        TrajectoryLane::Input,
        "Steering",
        "User steer",
        "steer",
        Some(350),
        Some(5),
        None,
    );
    state.set_page_response(
        TrajectoryAvailability::Exact,
        1,
        1,
        vec![sys, req, tool, ctx],
        None,
        None,
        false,
        false,
    );
    assert_eq!(state.loading_status, TrajectoryLoadingStatus::Ready);
    assert_eq!(state.records.len(), 4);
    assert!(!state.ledger_rows.is_empty());
    let turn_divider_exists = state.ledger_rows.iter().any(|r| {
        matches!(r.kind, TrajectoryLedgerRowKind::TurnDivider { turn_count: 1, .. })
    });
    assert!(turn_divider_exists);

    state.toggle_turn_fold(1);
    assert!(state.folded_turns.contains(&1));
    let step_visible = state
        .ledger_rows
        .iter()
        .any(|r| matches!(r.kind, TrajectoryLedgerRowKind::StepRequest { .. }));
    assert!(!step_visible);

    state.unfold_all_turns();
    assert!(!state.folded_turns.contains(&1));
    let step_visible_again = state
        .ledger_rows
        .iter()
        .any(|r| matches!(r.kind, TrajectoryLedgerRowKind::StepRequest { .. }));
    assert!(step_visible_again);

    state.toggle_tool_calls();
    assert!(!state.show_tool_calls);
    let tool_visible = state
        .ledger_rows
        .iter()
        .any(|r| matches!(r.kind, TrajectoryLedgerRowKind::Tool { .. }));
    assert!(!tool_visible);
}

#[test]
fn test_prepend_older_page_preserves_anchor() {
    let mut state = TrajectorySessionState::new(new_id());
    let id_b = new_id();
    let id_c = new_id();
    let id_a = new_id();
    let record = |id: u128, step: u32, title: &str, text: &str, started: i64| {
        make_test_record(
            id,
            1,
            step,
            TrajectoryKind::Request,
            TrajectoryLane::Model,
            title,
            text,
            text,
            Some(started),
            Some(10),
            None,
        )
    };
    state.set_page_response(
        TrajectoryAvailability::Exact,
        1,
        2,
        vec![record(id_b, 1, "B", "b", 200), record(id_c, 2, "C", "c", 300)],
        Some(TrajectoryCursor { sequence: 10, record_id: id_b }),
        None,
        true,
        false,
    );
    state.select_record(id_b);
    assert_eq!(state.selected_record_id, Some(id_b));

    state.prepend_older_page(vec![record(id_a, 0, "A", "a", 100)], None, false);
    assert_eq!(record_ids(&state), vec![id_a, id_b, id_c]);
    assert_eq!(state.selected_record_id, Some(id_b));
}

#[test]
fn test_tail_follow_and_live_merging() {
    let mut state = TrajectorySessionState::new(new_id());
    let id1 = new_id();
    let id2 = new_id();
    state.set_page_response(
        TrajectoryAvailability::Exact,
        1,
        1,
        vec![request(id1, 1, 1, "R1")],
        None,
        None,
        false,
        false,
    );
    assert_eq!(state.revision, 1);
    assert_eq!(state.records.len(), 1);

    state.apply_live_update(TrajectoryLiveUpdate::Upsert {
        generation: 1,
        revision: 2,
        row: request(id2, 1, 2, "R2"),
    });
    assert_eq!(state.revision, 2);
    assert_eq!(record_ids(&state), vec![id1, id2]);
    assert_eq!(state.records.len(), 2);
}

#[test]
fn test_revision_merge_and_generation_reset() {
    let mut state = TrajectorySessionState::new(new_id());
    let id1 = new_id();
    state.set_page_response(
        TrajectoryAvailability::Exact,
        1,
        5,
        vec![request(id1, 1, 1, "R1")],
        None,
        None,
        false,
        false,
    );
    assert_eq!(state.revision, 5);

    state.apply_live_update(TrajectoryLiveUpdate::Upsert {
        generation: 0,
        revision: 4,
        row: request(new_id(), 1, 2, "R2"),
    });
    assert_eq!(record_ids(&state), vec![id1]);

    state.apply_live_update(TrajectoryLiveUpdate::Reset { generation: 2, revision: 1 });
    assert_eq!(state.generation, 2);
    assert_eq!(state.revision, 1);
    assert!(state.records.is_empty());
}

#[test]
fn removals_take_one_record_out() {
    let mut state = loaded(vec![request(1, 1, 1, "a"), request(2, 1, 2, "b")]);
    state.select_record(1);
    state.apply_live_update(TrajectoryLiveUpdate::Remove { generation: 1, revision: 4, record_id: 1 });
    assert_eq!(record_ids(&state), vec![2]);
    assert_eq!(state.revision, 4);
    state.apply_live_update(TrajectoryLiveUpdate::Remove { generation: 0, revision: 9, record_id: 2 });
    assert_eq!(record_ids(&state), vec![2]);
    assert_eq!(state.revision, 4);
}

#[test]
fn test_inspector_tab_mapping_by_record_kind() {
    assert_eq!(
        allowed_sections_for_kind(TrajectoryKind::System),
        vec![TrajectoryDetailSection::Summary, TrajectoryDetailSection::SystemPrompt, TrajectoryDetailSection::Source, TrajectoryDetailSection::Raw]
    );
    assert_eq!(
        allowed_sections_for_kind(TrajectoryKind::Request),
        vec![
            TrajectoryDetailSection::Summary,
            TrajectoryDetailSection::SystemPrompt,
            TrajectoryDetailSection::Tools,
            TrajectoryDetailSection::Options,
            TrajectoryDetailSection::Usage,
            TrajectoryDetailSection::Timing,
            TrajectoryDetailSection::Source,
            TrajectoryDetailSection::Raw,
        ]
    );
    assert_eq!(
        allowed_sections_for_kind(TrajectoryKind::Assistant),
        vec![
            TrajectoryDetailSection::Summary,
            TrajectoryDetailSection::Preview,
            TrajectoryDetailSection::Usage,
            TrajectoryDetailSection::Timing,
            TrajectoryDetailSection::Source,
            TrajectoryDetailSection::Raw,
        ]
    );
    assert_eq!(
        allowed_sections_for_kind(TrajectoryKind::Tool),
        vec![
            TrajectoryDetailSection::Summary,
            TrajectoryDetailSection::Payload,
            TrajectoryDetailSection::Result,
            TrajectoryDetailSection::Diff,
            TrajectoryDetailSection::Schema,
            TrajectoryDetailSection::Timing,
            TrajectoryDetailSection::Source,
            TrajectoryDetailSection::Raw,
        ]
    );
    assert_eq!(
        allowed_sections_for_kind(TrajectoryKind::Context),
        vec![TrajectoryDetailSection::Summary, TrajectoryDetailSection::Preview, TrajectoryDetailSection::Diff, TrajectoryDetailSection::Source, TrajectoryDetailSection::Raw]
    );
}

#[test]
fn every_kind_opens_on_a_tab_that_it_has() {
    for kind in [
        TrajectoryKind::System,
        TrajectoryKind::User,
        TrajectoryKind::Context,
        TrajectoryKind::Request,
        TrajectoryKind::Assistant,
        TrajectoryKind::Tool,
    ] {
        assert!(allowed_sections_for_kind(kind).contains(&default_section_for_kind(kind)));
    }
}

#[test]
fn names_of_kinds_states_and_lanes() {
    assert_eq!(kind_display_name(TrajectoryKind::Tool), "tool");
    assert_eq!(kind_display_name(TrajectoryKind::System), "system");
    assert_ne!(
        status_display_name(TrajectoryStatus::Running),
        status_display_name(TrajectoryStatus::Failed)
    );
    assert_ne!(lane_display_name(TrajectoryLane::Input), lane_display_name(TrajectoryLane::Tools));
}

#[test]
fn test_escape_key_closes_inspector_then_clears_search() {
    let id1 = new_id();
    let mut state = loaded(vec![request(id1, 1, 1, "R1")]);
    state.set_search_query("test query".to_string());
    state.select_record(id1);
    assert!(state.inspector_open);
    assert_eq!(state.search_query, "test query");

    // The first press closes the details.
    state.close_inspector();
    assert!(!state.inspector_open);
    assert_eq!(state.search_query, "test query");

    // The second press clears the search.
    state.set_search_query(String::new());
    assert_eq!(state.search_query, "");
}

#[test]
fn escape_works_its_way_out() {
    let mut state = loaded(vec![request(1, 1, 1, "R1")]);
    state.set_search_query("r1".to_string());
    state.select_record(1);
    assert_eq!(state.handle_trajectory_list_key("escape", None), ListKeyOutcome::Handled);
    assert!(!state.inspector_open);
    assert_eq!(state.handle_trajectory_list_key("escape", None), ListKeyOutcome::SearchCleared);
    assert_eq!(state.search_query, "");
    assert_eq!(state.handle_trajectory_list_key("escape", None), ListKeyOutcome::Ignored);
}

#[test]
fn keys_fold_and_open_rows() {
    let mut state = loaded(vec![request(1, 1, 1, "R1"), request(2, 1, 2, "R2")]);
    assert_eq!(state.ledger_rows.len(), 3);
    assert_eq!(state.handle_row_key(0, "left", None), ListKeyOutcome::Handled);
    assert_eq!(state.ledger_rows.len(), 1);
    assert_eq!(state.handle_row_key(0, "left", None), ListKeyOutcome::Ignored);
    assert_eq!(state.handle_row_key(0, "right", None), ListKeyOutcome::Handled);
    assert_eq!(state.ledger_rows.len(), 3);
    assert_eq!(state.handle_trajectory_list_key("down", Some(1)), ListKeyOutcome::Handled);
    assert_eq!(state.selected_row_index, Some(1));
    assert_eq!(state.handle_trajectory_list_key("enter", None), ListKeyOutcome::Handled);
    assert!(state.inspector_open);
    assert_eq!(state.handle_trajectory_list_key("q", Some(1)), ListKeyOutcome::Ignored);
    assert_eq!(state.handle_trajectory_list_key("down", None), ListKeyOutcome::Ignored);
}

fn text(value: &str) -> Json {
    Json::Text(value.to_string())
}

fn entry(key: &str, value: Json) -> JsonEntry {
    JsonEntry { key: key.to_string(), value }
}

fn sample_json() -> Json {
    Json::Object(vec![
        entry("model", text("sonnet-3-5")),
        entry(
            "config",
            Json::Object(vec![
                entry("temperature", Json::Number("0.7".to_string())),
                entry("max_tokens", Json::Number("4096".to_string())),
                entry("tools", Json::Array(vec![text("read_file"), text("write_file")])),
            ]),
        ),
        entry("status", text("success")),
    ])
}

#[test]
fn test_json_tree_flattening_and_virtualization() {
    let sample = sample_json();
    let mut expanded = TextSet::new();
    expanded.insert("$".to_string());
    expanded.insert("$.config".to_string());
    let nodes = flatten_json_tree(&sample, &expanded);
    assert!(!nodes.is_empty());
    let root_node = &nodes[0];
    assert_eq!(root_node.depth, 0);

    expanded.remove("$.config");
    let collapsed_nodes = flatten_json_tree(&sample, &expanded);
    assert!(collapsed_nodes.len() < nodes.len());
}

#[test]
fn a_tree_answers_clicks_and_keys() {
    let mut tree = JsonTreeState::default();
    tree.show(&sample_json());
    assert_eq!(tree.flattened_nodes.len(), 1);
    assert_eq!(tree.flattened_nodes[0].value_type, JsonValueType::Object);
    tree.activate_json_tree_node(0, "$", true);
    tree.show(&sample_json());
    assert_eq!(tree.flattened_nodes.len(), 4);
    assert_eq!(tree.flattened_nodes[2].path, "$.config");
    assert!(tree.handle_json_tree_key("down", Some(2)));
    assert!(tree.handle_json_tree_key("right", None));
    tree.show(&sample_json());
    assert_eq!(tree.flattened_nodes.len(), 7);
    assert!(tree.handle_json_tree_key("enter", None));
    tree.show(&sample_json());
    assert_eq!(tree.flattened_nodes.len(), 4);
    assert!(!tree.handle_json_tree_key("down", None));
    tree.activate_json_tree_node(0, "$", true);
    tree.show(&sample_json());
    assert_eq!(tree.flattened_nodes.len(), 1);
    let row = json_row(&tree.flattened_nodes[0], 0, 0);
    assert_eq!(row.marker, Some("▶"));
    assert!(row.key_label.is_none());
    tree.activate_json_tree_node(0, "$", true);
    let rows = tree.render_json_tree(&sample_json());
    assert_eq!(rows.len(), 4);
    assert_eq!(rows[0].marker, Some("▼"));
    assert!(rows[0].selected && !rows[1].selected);
    assert_eq!(rows[1].depth, 1);
    assert_eq!(rows[2].id, format!("json-node-{}", tree.flattened_nodes[2].id));
    assert_eq!(rows[2].key_label.as_deref(), Some("config: "));
}

#[test]
fn test_row_builder_o_visible_evidence() {
    let state = loaded(vec![make_test_record(
        new_id(),
        1,
        1,
        TrajectoryKind::Request,
        TrajectoryLane::Model,
        "Step 1",
        "Execute prompt",
        "step prompt",
        Some(100),
        Some(50),
        None,
    )]);
    for row in &state.ledger_rows {
        assert!(!row.key.is_empty());
        match &row.kind {
            TrajectoryLedgerRowKind::TurnDivider { turn_count, .. } => {
                assert_eq!(*turn_count, 1);
            }
            TrajectoryLedgerRowKind::StepRequest { record, .. } => {
                assert_eq!(record.status, TrajectoryStatus::Completed);
                assert_eq!(record.kind, TrajectoryKind::Request);
            }
            _ => {}
        }
    }
}

#[test]
fn rows_are_known_by_the_ids_of_their_records() {
    let id = 0x0123_4567_89ab_4cde_8f01_2345_6789_abcd_u128;
    let state = loaded(vec![request(id, 1, 1, "R1")]);
    assert!(state.ledger_rows[1].key.contains("01234567-89ab-4cde-8f01-23456789abcd"));
}

#[test]
fn test_trajectory_per_session_state_and_chat_isolation() {
    let session_a = new_id();
    let session_b = new_id();
    let mut trajectory_sessions: HashMap<u128, TrajectorySessionState> = HashMap::new();

    let mut state_a = TrajectorySessionState::new(session_a);
    let rec_a = make_test_record(
        new_id(),
        1,
        1,
        TrajectoryKind::Request,
        TrajectoryLane::Model,
        "Session A Step",
        "Preview A",
        "Search A",
        Some(100),
        Some(50),
        None,
    );
    state_a.set_page_response(
        TrajectoryAvailability::Exact,
        1,
        1,
        vec![rec_a.clone()],
        None,
        None,
        false,
        false,
    );
    state_a.select_record(rec_a.record_id);
    assert!(state_a.inspector_open);
    assert_eq!(state_a.selected_record_id, Some(rec_a.record_id));
    trajectory_sessions.insert(session_a, state_a);

    let state_b = TrajectorySessionState::new(session_b);
    assert!(!state_b.inspector_open);
    assert_eq!(state_b.selected_record_id, None);
    assert!(state_b.records.is_empty());
    trajectory_sessions.insert(session_b, state_b);

    let a = trajectory_sessions.get_mut(&session_a).unwrap();
    a.close_inspector();
    assert!(!a.inspector_open);
    assert_eq!(a.selected_record_id, Some(rec_a.record_id));

    let b = trajectory_sessions.get(&session_b).unwrap();
    assert!(!b.inspector_open);
    assert_eq!(b.selected_record_id, None);
    assert!(b.records.is_empty());

    trajectory_sessions.remove(&session_a);
    assert!(!trajectory_sessions.contains_key(&session_a));
    assert!(trajectory_sessions.contains_key(&session_b));
}

#[test]
fn loading_begins_once_and_can_fail() {
    let mut state = TrajectorySessionState::new(1);
    assert!(state.begin_load());
    assert!(!state.begin_load());
    assert_eq!(state.render_trajectory_banners(), Some(TrajectoryBanner::Loading));
    state.finish_load(TrajectoryLoad::Failed("down".into()), "odd");
    assert_eq!(state.error.as_deref(), Some("down"));
    assert_eq!(state.render_trajectory_banners(), Some(TrajectoryBanner::Error));
    state.retry_trajectory_load();
    assert!(state.begin_load());
    state.finish_load(TrajectoryLoad::Unexpected, "odd");
    assert_eq!(state.error.as_deref(), Some("odd"));
    state.retry_trajectory_load();
    state.set_page_response(TrajectoryAvailability::Legacy, 1, 1, Vec::new(), None, None, false, false);
    assert_eq!(state.render_trajectory_banners(), Some(TrajectoryBanner::Legacy));
    assert_eq!(state.render_trajectory_ledger(0), LedgerPane::Empty);
    assert!(!state.render_trajectory_timeline(&span_words()).says_no_timing);
}

#[test]
fn older_records_keep_what_is_in_view() {
    let mut state = loaded(vec![request(2, 1, 2, "b")]);
    state.has_older = true;
    assert!(state.needs_older(1));
    assert!(!state.needs_older(2));
    let cursor = state.older_cursor;
    assert_eq!(
        state.render_trajectory_ledger(1),
        LedgerPane::Rows { load_older: Some(cursor) }
    );
    assert_eq!(state.render_trajectory_ledger(2), LedgerPane::Rows { load_older: None });
    state.select_record(2);
    assert!(state.begin_load_older());
    assert!(!state.begin_load_older());
    assert!(!state.needs_older(0));
    state.commands.clear();
    state.finish_load_older(Some(OlderPage {
        rows: vec![request(1, 1, 1, "a")],
        older: None,
        has_older: false,
    }));
    assert_eq!(record_ids(&state), vec![1, 2]);
    assert_eq!(state.commands.last(), Some(&TrajectoryCommand::ListReveal(2)));
    assert!(state.begin_load_older());
    state.finish_load_older(None);
    assert!(!state.loading_older);
}

#[test]
fn the_toolbar_and_the_pane_follow_the_state() {
    let mut state = loaded(vec![request(1, 1, 1, "R1")]);
    let bar = state.render_trajectory_toolbar();
    assert!(!bar.turns_pressed && bar.calls_pressed);
    assert!(matches!(bar.turns_label, Label::Message("trajectory.fold_all_turns")));
    state.activate_turns_button();
    let bar = state.render_trajectory_toolbar();
    assert!(bar.turns_pressed);
    assert!(matches!(bar.turns_label, Label::Message("trajectory.unfold_all_turns")));
    state.activate_turns_button();
    assert_eq!(state.ledger_rows.len(), 2);
    let durations = state.duration_projection;
    state.toggle_duration_projection();
    assert_eq!(state.render_trajectory_toolbar().durations_pressed, !durations);
    assert_eq!(state.render_trajectory(true), TrajectoryPane::Ledger);
    state.select_record(1);
    assert_eq!(state.render_trajectory(true), TrajectoryPane::Split(1));
    assert_eq!(state.render_trajectory(false), TrajectoryPane::Details(1));
}

#[test]
fn rows_say_what_they_stand_for() {
    let mut failed = make_test_record(
        2,
        1,
        1,
        TrajectoryKind::Tool,
        TrajectoryLane::Tools,
        "",
        "reads a file",
        "x",
        Some(10),
        Some(1500),
        Some(1),
    );
    failed.status = TrajectoryStatus::Failed;
    let mut state = loaded(vec![request(1, 1, 1, "R1"), failed]);
    if !state.duration_projection {
        state.toggle_duration_projection();
    }
    let divider = state.render_trajectory_ledger_row(0, "no times").unwrap();
    assert_eq!(divider.fold.as_ref().unwrap().0, "▼");
    assert_eq!(divider.click, RowClick::ToggleTurn(1));
    assert_eq!(divider.count, Some(2));
    let tool = (0..state.ledger_rows.len())
        .map(|i| state.render_trajectory_ledger_row(i, "no times").unwrap())
        .find(|row| row.status.is_some())
        .unwrap();
    assert_eq!(tool.text.as_deref(), Some("reads a file"));
    assert_eq!(tool.status, Some((TrajectoryStatus::Failed, StatusTone::Accent)));
    assert_eq!(tool.duration.as_deref(), Some("1.50s"));
    assert_eq!(tool.click, RowClick::SelectRecord(2));
    state.click_row(tool.click);
    assert_eq!(state.selected_record_id, Some(2));
    assert!(state.render_trajectory_ledger_row(99, "no times").is_none());
    state.click_row(RowClick::ToggleTurn(1));
    assert_eq!(state.ledger_rows.len(), 1);
}

#[test]
fn details_have_tabs_and_cursors() {
    let mut state = loaded(vec![request(1, 1, 1, "R1")]);
    state.select_record(1);
    let details = state.render_trajectory_inspector(1).unwrap();
    assert_eq!(details.tabs.len(), 8);
    assert_eq!(details.tabs.iter().filter(|tab| tab.selected).count(), 1);
    assert_eq!(details.cursor, 0);
    assert!(state.render_trajectory_inspector(9).is_none());
    state.select_trajectory_inspector_section(TrajectoryDetailSection::Raw);
    state.advance_trajectory_detail(1, TrajectoryDetailSection::Raw, 4096);
    assert_eq!(state.render_trajectory_inspector(1).unwrap().cursor, 4096);
    assert!(matches!(
        localized_section_name(TrajectoryDetailSection::Raw),
        Label::Message("trajectory.tab_raw")
    ));
    assert_eq!(
        handle_tab_key(TrajectoryDetailSection::Raw, "space", None),
        TabKey::Select(TrajectoryDetailSection::Raw)
    );
    assert_eq!(
        handle_tab_key(
            TrajectoryDetailSection::Raw,
            "left",
            Some(TrajectoryDetailSection::Source)
        ),
        TabKey::Select(TrajectoryDetailSection::Source)
    );
    assert_eq!(handle_tab_key(TrajectoryDetailSection::Raw, "home", None), TabKey::Consumed);
    assert_eq!(handle_tab_key(TrajectoryDetailSection::Raw, "x", None), TabKey::Ignored);
    assert!(!state.handle_inspector_key("x"));
    assert!(state.handle_inspector_key("escape"));
    assert!(!state.inspector_open);
    assert_eq!(detail_body(true, true), DetailBody::Tree);
    assert_eq!(detail_body(false, true), DetailBody::Text);
    assert_eq!(detail_body(false, false), DetailBody::Nothing);
    let more =
        detail_load_more(DetailExtent { offset: 10, byte_length: 5, total_bytes: 20 }).unwrap();
    assert_eq!((more.loaded, more.total, more.next_offset), (5, 20, 15));
    assert!(detail_load_more(DetailExtent { offset: 0, byte_length: 20, total_bytes: 20 }).is_none());
    let extent = DetailExtent { offset: 10, byte_length: 5, total_bytes: 20 };
    let loaded = DetailLoaded { has_json: false, has_text: true, extent };
    let content = render_inspector_content(&request(1, 1, 1, "a"), loaded, "no times");
    assert_eq!(content.kind, TrajectoryKind::Request);
    assert_eq!(content.duration, "10ms");
    assert_eq!(content.body, DetailBody::Text);
    assert_eq!(content.more, Some(more));
    let wanted = details.detail_request();
    assert_eq!((wanted.record_id, wanted.section, wanted.offset), (1, details.section, 0));
    match details.render_detail(DetailQuery::Missing, "no times") {
        DetailPane::Loading { fetch } => assert_eq!(fetch, Some(wanted)),
        other => panic!("{other:?}"),
    }
    match details.render_detail(DetailQuery::Pending, "no times") {
        DetailPane::Loading { fetch } => assert_eq!(fetch, None),
        other => panic!("{other:?}"),
    }
    match details.render_detail(DetailQuery::Ready(loaded), "no times") {
        DetailPane::Content(shown) => assert_eq!(shown.body, DetailBody::Text),
        other => panic!("{other:?}"),
    }
    assert_eq!(settle_detail(true), DetailSettled::Kept);
    assert_eq!(settle_detail(false), DetailSettled::GivenUp);
}

#[test]
fn a_search_belongs_to_its_session() {
    assert_eq!(bind_trajectory_search(Some(1), 1, Some(&"x".to_string())), None);
    assert_eq!(
        bind_trajectory_search(Some(2), 1, Some(&"x".to_string())).as_deref(),
        Some("x")
    );
    assert_eq!(bind_trajectory_search(None, 1, None).as_deref(), Some(""));
}

#[test]
fn searching_and_clearing_shows_all_again() {
    let mut state = loaded(vec![request(1, 1, 1, "apple"), request(2, 1, 2, "pear")]);
    let all = state.ledger_rows.len();
    state.set_search_query("PEAR".to_string());
    assert!(state.ledger_rows.len() < all);
    state.clear_trajectory_search();
    assert_eq!(state.ledger_rows.len(), all);
}

#[test]
fn a_bar_tells_about_itself() {
    let layout = compute_timeline_layout(&[request(1, 1, 1, "R1")]);
    let words = span_words();
    assert_eq!(span_tooltip(&layout.model_spans[0], false, &words), "R1 · done · 10ms · ");
    assert_eq!(span_tooltip(&layout.model_spans[0], true, &words), "R1 · done · 10ms · selected");
}

#[test]
fn the_timeline_has_a_bar_that_can_be_seen_for_each_record() {
    let mut state = loaded(vec![request(1, 1, 1, "R1")]);
    state.select_record(1);
    let timeline = state.render_trajectory_timeline(&span_words());
    assert!(timeline.input.is_empty() && timeline.tools.is_empty());
    assert!(!timeline.says_no_timing);
    let bar = &timeline.model[0];
    assert_eq!(bar.id, "timeline-span-00000000-0000-0000-0000-000000000001");
    assert_eq!(bar.record_id, 1);
    assert!(bar.selected);
    assert_eq!(bar.tooltip, "R1 · done · 10ms · selected");
    assert_eq!(bar.left, state.timeline_layout.model_spans[0].start_pct);
    state.timeline_layout.model_spans[0].width_pct = Ratio { numer: 14, denom: 1000 };
    let thin = state.render_trajectory_timeline(&span_words());
    assert_eq!(thin.model[0].width, Ratio { numer: 3, denom: 200 });
    state.timeline_layout.model_spans[0].width_pct = Ratio { numer: 15, denom: 1000 };
    let wide = state.render_trajectory_timeline(&span_words());
    assert_eq!(wide.model[0].width, Ratio { numer: 15, denom: 1000 });
}

fn span_words() -> SpanWords {
    SpanWords {
        pending: "pending".into(),
        running: "running".into(),
        completed: "done".into(),
        failed: "failed".into(),
        cancelled: "cancelled".into(),
        unavailable: "unavailable".into(),
        no_timing: "no times".into(),
        selected: "selected".into(),
    }
}

#[test]
fn sums_stay_at_the_ends_of_their_range() {
    assert_eq!(saturating_add(i64::MAX, 1), i64::MAX);
    assert_eq!(saturating_add(i64::MIN, -1), i64::MIN);
    assert_eq!(saturating_add(2, 3), 5);
}

#[test]
fn rows_come_in_the_order_of_turn_step_and_sequence() {
    let mut rows = vec![request(3, 2, 1, "c"), request(2, 1, 2, "b"), request(1, 1, 1, "a")];
    sort_rows(&mut rows);
    let ids: Vec<u128> = rows.iter().map(|r| r.record_id).collect();
    assert_eq!(ids, vec![1, 2, 3]);
}

fn keys(state: &TrajectorySessionState) -> Vec<String> {
    state.ledger_rows.iter().map(|row| row.key.clone()).collect()
}

#[test]
fn searches_ignore_case_and_spaces_and_filter_the_rows() {
    let mut state = loaded(vec![
        request(1, 1, 1, "Read the file"),
        request(2, 1, 2, "Write the file"),
        request(3, 2, 3, "Read again"),
    ]);
    let all = keys(&state);
    state.set_search_query("read file".to_string());
    let found = keys(&state);
    assert_eq!(found.len(), 3);
    assert!(found.iter().all(|key| all.contains(key)));
    for query in ["READ FILE", "  read \t file ", "Read\nFILE"] {
        state.set_search_query(query.to_string());
        assert_eq!(keys(&state), found, "{query}");
        assert_eq!(state.search_query, query);
    }
    assert_eq!(state.records.len(), 3);
}

#[test]
fn every_record_has_a_row_of_its_own() {
    let child = |id: u128, kind| {
        let mut record = request(id, 1, 1, "x");
        record.kind = kind;
        record.parent_record_id = Some(1);
        record.request_id = Some(1);
        record
    };
    let state = loaded(vec![
        request(1, 1, 1, "a"),
        child(2, TrajectoryKind::Tool),
        child(3, TrajectoryKind::Tool),
        request(4, 2, 2, "b"),
    ]);
    let mut all = keys(&state);
    let rows = all.len();
    all.sort();
    all.dedup();
    assert_eq!(all.len(), rows);
    for id in 1..=4u128 {
        let own = state.ledger_rows.iter().filter(|row| {
            row.record_id == Some(id)
                && !matches!(row.kind, TrajectoryLedgerRowKind::ToolOnlyPlaceholder { .. })
        });
        assert_eq!(own.count(), 1, "{id}");
    }
    // Context among the children of a request has no row.
    let hidden = loaded(vec![request(1, 1, 1, "a"), child(2, TrajectoryKind::Context)]);
    assert!(hidden.ledger_rows.iter().all(|row| row.record_id != Some(2)));
}

#[test]
fn the_same_update_twice_changes_nothing() {
    let mut state = loaded(vec![request(1, 1, 1, "a"), request(3, 1, 3, "c")]);
    let update = || TrajectoryLiveUpdate::Upsert {
        generation: 1,
        revision: 2,
        row: request(2, 1, 2, "b"),
    };
    state.apply_live_update(update());
    let once = (record_ids(&state), keys(&state), state.revision);
    state.apply_live_update(update());
    assert_eq!((record_ids(&state), keys(&state), state.revision), once);
    assert_eq!(once.0, vec![1, 2, 3]);
}

#[test]
fn folding_a_turn_leaves_the_others() {
    let mut state = loaded(vec![request(1, 1, 1, "a"), request(2, 2, 2, "b")]);
    let second = keys(&state)[2..].to_vec();
    state.toggle_turn_fold(1);
    let folded = keys(&state);
    assert_eq!(folded[0], "turn-divider-1");
    assert_eq!(folded[1..].to_vec(), second);
}
