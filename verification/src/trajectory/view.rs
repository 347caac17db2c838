//! What the pane of a trajectory shows, and how it answers the keyboard.
use crate::ids::{hyphenated, uuid_text};
use crate::label::{Label, LabelView};
use crate::text::{concat, decimal, decimal_text, opt_view, same_text};
use crate::trajectory::duration::{duration_words, format_duration_or};
use crate::trajectory::ledger::{
    LedgerRowView, TrajectoryLedgerRow, TrajectoryLedgerRowKind,
};
use crate::trajectory::record::{
    TrajectoryAvailability, TrajectoryCursor, TrajectoryLoadingStatus, TrajectoryRowSummary,
    TrajectoryStatus,
};
use crate::trajectory::state::{
    all_folded, all_unfolded, anchor, fold_flipped, inspector_closed, older_prepended, page_set,
    record_selected, row_position, row_selected, searched, StateView, TrajectoryCommand,
    TrajectoryPage, TrajectorySessionState,
};
use crate::trajectory::timeline::{span_views, Ratio, SpanView, TimelineSpan};
use vstd::prelude::*;

verus! {

broadcast use vstd::std_specs::hash::group_hash_axioms;

// ---------------------------------------------------------------------------
// Loading
// ---------------------------------------------------------------------------
/// What came of loading the first page.
pub enum TrajectoryLoad {
    Page(TrajectoryPage),
    Failed(String),
    Unexpected,
}

/// A page of older records.
pub struct OlderPage {
    pub rows: Vec<TrajectoryRowSummary>,
    pub older: Option<TrajectoryCursor>,
    pub has_older: bool,
}

/// The state after a load that failed.
pub open spec fn load_failed(s: StateView, error: Seq<char>) -> StateView {
    StateView { loading_status: TrajectoryLoadingStatus::Error, error: Some(error), ..s }
}

/// The state after a load. `unexpected` is the error of an answer that was not asked for.
pub open spec fn loaded(s: StateView, load: TrajectoryLoad, unexpected: Seq<char>) -> StateView {
    match load {
        TrajectoryLoad::Page(page) => page_set(s, page),
        TrajectoryLoad::Failed(error) => load_failed(s, error@),
        TrajectoryLoad::Unexpected => load_failed(s, unexpected),
    }
}

/// The state after a load of older records: the record that was to stay in view is in view.
pub open spec fn older_loaded(s: StateView, page: Option<OlderPage>) -> StateView {
    match page {
        None => StateView { loading_older: false, ..s },
        Some(p) => {
            let next = older_prepended(s, p.rows@, p.older, p.has_older);
            let row = match anchor(s) {
                Some(id) => row_position(next.rows, id, 0),
                None => None,
            };
            match row {
                Some(i) => StateView {
                    commands: next.commands.push(TrajectoryCommand::ListReveal(i)),
                    ..next
                },
                None => next,
            }
        },
    }
}

/// Tells whether older records are wanted: there are some, none are on their way, and the list is
/// scrolled to its top.
pub open spec fn wants_older(s: StateView, top_item: usize) -> bool {
    s.has_older && !s.loading_older && top_item <= 1
}

// ---------------------------------------------------------------------------
// Keys
// ---------------------------------------------------------------------------
/// What came of a key.
#[derive(Clone, Copy, Debug, PartialEq, Eq, Structural)]
pub enum ListKeyOutcome {
    /// The key means nothing to the list.
    Ignored,
    /// The key was answered.
    Handled,
    /// The key was answered by clearing the search; its field is to be cleared too.
    SearchCleared,
}

/// What a key does that opens the selected row: it folds or unfolds a turn, or opens a record.
pub open spec fn row_opened(s: StateView) -> (StateView, ListKeyOutcome) {
    match s.selected_row_index {
        Some(i) => if i < s.rows.len() {
            let row = s.rows[i as int];
            match row.kind {
                TrajectoryLedgerRowKind::TurnDivider { turn_count, .. } => (
                    fold_flipped(s, turn_count),
                    ListKeyOutcome::Handled,
                ),
                _ => match row.record_id {
                    Some(id) => (record_selected(s, id), ListKeyOutcome::Handled),
                    None => (s, ListKeyOutcome::Ignored),
                },
            }
        } else {
            (s, ListKeyOutcome::Ignored)
        },
        None => (s, ListKeyOutcome::Ignored),
    }
}

/// What a key does that folds a selected turn, or unfolds it.
pub open spec fn turn_folded(s: StateView, was_collapsed: bool) -> (StateView, ListKeyOutcome) {
    match s.selected_row_index {
        Some(i) => if i < s.rows.len() {
            match s.rows[i as int].kind {
                TrajectoryLedgerRowKind::TurnDivider { turn_count, collapsed, .. } => if collapsed
                    == was_collapsed {
                    (fold_flipped(s, turn_count), ListKeyOutcome::Handled)
                } else {
                    (s, ListKeyOutcome::Ignored)
                },
                _ => (s, ListKeyOutcome::Ignored),
            }
        } else {
            (s, ListKeyOutcome::Ignored)
        },
        None => (s, ListKeyOutcome::Ignored),
    }
}

/// The state after a key, and what came of it. Escape closes the details first and clears the search
/// next. `stepped` is the row that the key moves the selection to, if it does.
pub open spec fn list_key(s: StateView, key: Seq<char>, stepped: Option<usize>) -> (
    StateView,
    ListKeyOutcome,
) {
    if key == "escape"@ {
        if s.inspector_open {
            (inspector_closed(s), ListKeyOutcome::Handled)
        } else if s.search_query.len() > 0 {
            (searched(s, Seq::empty()), ListKeyOutcome::SearchCleared)
        } else {
            (s, ListKeyOutcome::Ignored)
        }
    } else if crate::trajectory::json_tree_state::is_step_key(key) {
        match stepped {
            Some(i) => (row_selected(s, i), ListKeyOutcome::Handled),
            None => (s, ListKeyOutcome::Ignored),
        }
    } else if key == "enter"@ || key == "space"@ {
        row_opened(s)
    } else if key == "left"@ {
        turn_folded(s, false)
    } else if key == "right"@ {
        turn_folded(s, true)
    } else {
        (s, ListKeyOutcome::Ignored)
    }
}

impl TrajectorySessionState {
    /// Clears the search.
    pub fn clear_trajectory_search(&mut self)
        ensures
            final(self)@ == searched(old(self)@, Seq::empty()),
    {
        self.set_search_query(String::new());
    }

    fn open_selected_row(&mut self) -> (r: ListKeyOutcome)
        ensures
            (final(self)@, r) == row_opened(old(self)@),
    {
        let index: usize = match self.selected_row_index {
            Some(i) => i,
            None => return ListKeyOutcome::Ignored,
        };
        if index >= self.ledger_rows.len() {
            return ListKeyOutcome::Ignored;
        }
        assert(self@.rows[index as int] == self.ledger_rows@[index as int]@);
        let turn: Option<u32> = match &self.ledger_rows[index].kind {
            TrajectoryLedgerRowKind::TurnDivider { turn_count, .. } => Some(*turn_count),
            _ => None,
        };
        let record: Option<u128> = self.ledger_rows[index].record_id;
        if let Some(turn) = turn {
            self.toggle_turn_fold(turn);
            return ListKeyOutcome::Handled;
        }
        match record {
            Some(id) => {
                self.select_record(id);
                ListKeyOutcome::Handled
            },
            None => ListKeyOutcome::Ignored,
        }
    }

    fn fold_selected_turn(&mut self, was_collapsed: bool) -> (r: ListKeyOutcome)
        ensures
            (final(self)@, r) == turn_folded(old(self)@, was_collapsed),
    {
        let index: usize = match self.selected_row_index {
            Some(i) => i,
            None => return ListKeyOutcome::Ignored,
        };
        if index >= self.ledger_rows.len() {
            return ListKeyOutcome::Ignored;
        }
        assert(self@.rows[index as int] == self.ledger_rows@[index as int]@);
        let turn: Option<u32> = match &self.ledger_rows[index].kind {
            TrajectoryLedgerRowKind::TurnDivider { turn_count, collapsed, .. } => if *collapsed
                == was_collapsed {
                Some(*turn_count)
            } else {
                None
            },
            _ => None,
        };
        match turn {
            Some(turn) => {
                self.toggle_turn_fold(turn);
                ListKeyOutcome::Handled
            },
            None => ListKeyOutcome::Ignored,
        }
    }

    /// Answers a key that was pressed in the list. `stepped` is the row that the key moves the
    /// selection to, if it does.
    pub fn handle_trajectory_list_key(&mut self, key: &str, stepped: Option<usize>) -> (r:
        ListKeyOutcome)
        ensures
            (final(self)@, r) == list_key(old(self)@, key@, stepped),
    {
        if same_text(key, "escape") {
            if self.inspector_open {
                self.close_inspector();
                return ListKeyOutcome::Handled;
            }
            if !self.search_query.as_str().is_empty() {
                self.clear_trajectory_search();
                return ListKeyOutcome::SearchCleared;
            }
            return ListKeyOutcome::Ignored;
        }
        if same_text(key, "up") || same_text(key, "down") || same_text(key, "home") || same_text(
            key,
            "end",
        ) {
            return match stepped {
                Some(index) => {
                    self.select_row_at_index(index);
                    ListKeyOutcome::Handled
                },
                None => ListKeyOutcome::Ignored,
            };
        }
        if same_text(key, "enter") || same_text(key, "space") {
            return self.open_selected_row();
        }
        if same_text(key, "left") {
            return self.fold_selected_turn(false);
        }
        if same_text(key, "right") {
            return self.fold_selected_turn(true);
        }
        ListKeyOutcome::Ignored
    }

    /// Answers a key that was pressed on a row, which is selected first.
    pub fn handle_row_key(&mut self, index: usize, key: &str, stepped: Option<usize>) -> (r:
        ListKeyOutcome)
        ensures
            (final(self)@, r) == list_key(row_selected(old(self)@, index), key@, stepped),
    {
        self.select_row_at_index(index);
        self.handle_trajectory_list_key(key, stepped)
    }

    /// Asks for another try after a load that failed.
    pub fn retry_trajectory_load(&mut self)
        ensures
            final(self)@ == (StateView {
                loading_status: TrajectoryLoadingStatus::Initial,
                error: None,
                ..old(self)@
            }),
    {
        self.loading_status = TrajectoryLoadingStatus::Initial;
        self.error = None;
    }

    /// Starts the first load, and tells whether the first page is to be asked for.
    pub fn begin_load(&mut self) -> (r: bool)
        ensures
            r == (old(self)@.loading_status == TrajectoryLoadingStatus::Initial),
            final(self)@ == (if r {
                StateView { loading_status: TrajectoryLoadingStatus::Loading, ..old(self)@ }
            } else {
                old(self)@
            }),
    {
        if self.loading_status == TrajectoryLoadingStatus::Initial {
            self.loading_status = TrajectoryLoadingStatus::Loading;
            true
        } else {
            false
        }
    }

    /// Ends the first load. `unexpected` is the error of an answer that was not asked for.
    pub fn finish_load(&mut self, load: TrajectoryLoad, unexpected: &str)
        ensures
            final(self)@ == loaded(old(self)@, load, unexpected@),
    {
        match load {
            TrajectoryLoad::Page(page) => self.set_page_response(
                page.availability,
                page.generation,
                page.revision,
                page.rows,
                page.older,
                page.newer,
                page.has_older,
                page.has_newer,
            ),
            TrajectoryLoad::Failed(error) => {
                self.loading_status = TrajectoryLoadingStatus::Error;
                self.error = Some(error);
            },
            TrajectoryLoad::Unexpected => {
                self.loading_status = TrajectoryLoadingStatus::Error;
                self.error = Some(unexpected.to_string());
            },
        }
    }

    /// Tells whether older records are to be asked for, given the topmost row in view.
    pub fn needs_older(&self, top_item: usize) -> (r: bool)
        ensures
            r == wants_older(self@, top_item),
    {
        self.has_older && !self.loading_older && top_item <= 1
    }

    /// Starts a load of older records, and tells whether they are to be asked for.
    pub fn begin_load_older(&mut self) -> (r: bool)
        ensures
            r == !old(self)@.loading_older,
            final(self)@ == (StateView { loading_older: true, ..old(self)@ }),
    {
        if self.loading_older {
            return false;
        }
        self.loading_older = true;
        true
    }

    /// Ends a load of older records; `None` stands for a load that failed.
    pub fn finish_load_older(&mut self, page: Option<OlderPage>)
        ensures
            final(self)@ == older_loaded(old(self)@, page),
    {
        match page {
            None => {
                self.loading_older = false;
            },
            Some(p) => {
                let kept = self.prepend_older_page(p.rows, p.older, p.has_older);
                if let Some(id) = kept {
                    let ghost s = self@;
                    if let Some(i) = self.row_of(id) {
                        self.commands.push(TrajectoryCommand::ListReveal(i));
                        assert(self@ =~= (StateView {
                            commands: s.commands.push(TrajectoryCommand::ListReveal(i)),
                            ..s
                        }));
                    }
                }
            },
        }
    }

    fn row_of(&self, id: u128) -> (r: Option<usize>)
        ensures
            r == row_position(self@.rows, id, 0),
    {
        let mut i: usize = 0;
        while i < self.ledger_rows.len()
            invariant
                i <= self.ledger_rows@.len(),
                row_position(self@.rows, id, 0) == row_position(self@.rows, id, i as int),
            decreases self.ledger_rows@.len() - i,
        {
            assert(self@.rows[i as int].record_id == self.ledger_rows@[i as int].record_id);
            if let Some(n) = self.ledger_rows[i].record_id {
                if n == id {
                    return Some(i);
                }
            }
            i = i + 1;
        }
        None
    }

    /// Unfolds every turn where any is folded, and else folds every turn.
    pub fn activate_turns_button(&mut self)
        ensures
            final(self)@ == (if old(self)@.folded_turns == Set::<u32>::empty() {
                all_folded(old(self)@)
            } else {
                all_unfolded(old(self)@)
            }),
    {
        if self.folded_turns.is_empty() {
            assert(self.folded_turns@ =~= Set::<u32>::empty());
            self.fold_all_turns();
        } else {
            self.unfold_all_turns();
        }
    }
}

/// What the search field is to hold once it belongs to another session: that session's search. There
/// is nothing to do where it belongs to the session already.
pub fn bind_trajectory_search(
    bound: Option<u128>,
    session_id: u128,
    query: Option<&String>,
) -> (r: Option<String>)
    ensures
        opt_view(r) == (if bound == Some(session_id) {
            None
        } else {
            Some(
                match query {
                    Some(q) => q@,
                    None => Seq::empty(),
                },
            )
        }),
{
    if let Some(id) = bound {
        if id == session_id {
            return None;
        }
    }
    Some(
        match query {
            Some(q) => q.clone(),
            None => String::new(),
        },
    )
}

// ---------------------------------------------------------------------------
// The pane
// ---------------------------------------------------------------------------
/// What the pane is made of.
#[derive(Clone, Copy, Debug, PartialEq, Eq, Structural)]
pub enum TrajectoryPane {
    /// Toolbar, timeline and ledger.
    Ledger,
    /// The same, with the details of a record beside the ledger.
    Split(u128),
    /// The details of a record alone.
    Details(u128),
}

/// A banner above the ledger.
#[derive(Clone, Copy, Debug, PartialEq, Eq, Structural)]
pub enum TrajectoryBanner {
    Loading,
    Legacy,
    MissingSnapshot,
    /// With a button to try again.
    Error,
}

/// The ledger, as it is shown.
#[derive(Clone, Copy, Debug, PartialEq, Eq, Structural)]
pub enum LedgerPane {
    /// It says that there is nothing to show.
    Empty,
    /// Its rows. The records before a place are asked for, where they are wanted.
    Rows { load_older: Option<Option<TrajectoryCursor>> },
}

/// The ledger that a state is shown as, given the topmost row in view.
pub open spec fn ledger_pane(s: StateView, top_item: usize) -> LedgerPane {
    if s.records.len() == 0 && s.loading_status == TrajectoryLoadingStatus::Ready {
        LedgerPane::Empty
    } else if wants_older(s, top_item) {
        LedgerPane::Rows { load_older: Some(s.older_cursor) }
    } else {
        LedgerPane::Rows { load_older: None }
    }
}

/// The toolbar.
pub struct TrajectoryToolbar {
    pub durations_pressed: bool,
    pub turns_label: Label,
    pub turns_pressed: bool,
    pub calls_pressed: bool,
}

/// The pane that a state is shown in, given whether there is room to split it.
pub open spec fn pane_of(s: StateView, splits: bool) -> TrajectoryPane {
    match s.selected_record_id {
        Some(id) => if !s.inspector_open {
            TrajectoryPane::Ledger
        } else if splits {
            TrajectoryPane::Split(id)
        } else {
            TrajectoryPane::Details(id)
        },
        None => TrajectoryPane::Ledger,
    }
}

/// The banner that a state calls for.
pub open spec fn banner_of(s: StateView) -> Option<TrajectoryBanner> {
    if s.loading_status == TrajectoryLoadingStatus::Loading && s.records.len() == 0 {
        Some(TrajectoryBanner::Loading)
    } else if s.availability == TrajectoryAvailability::Legacy {
        Some(TrajectoryBanner::Legacy)
    } else if s.availability == TrajectoryAvailability::LegacyPartialMissingSnapshot {
        Some(TrajectoryBanner::MissingSnapshot)
    } else if s.availability == TrajectoryAvailability::Error || s.error is Some {
        Some(TrajectoryBanner::Error)
    } else {
        None
    }
}

impl TrajectorySessionState {
    /// The pane that the state is shown in, given whether there is room to split it.
    pub fn render_trajectory(&self, splits: bool) -> (r: TrajectoryPane)
        ensures
            r == pane_of(self@, splits),
    {
        match self.selected_record_id {
            Some(id) => if !self.inspector_open {
                TrajectoryPane::Ledger
            } else if splits {
                TrajectoryPane::Split(id)
            } else {
                TrajectoryPane::Details(id)
            },
            None => TrajectoryPane::Ledger,
        }
    }

    /// The banner that the state calls for.
    pub fn render_trajectory_banners(&self) -> (r: Option<TrajectoryBanner>)
        ensures
            r == banner_of(self@),
    {
        if self.loading_status == TrajectoryLoadingStatus::Loading && self.records.len() == 0 {
            Some(TrajectoryBanner::Loading)
        } else if self.availability == TrajectoryAvailability::Legacy {
            Some(TrajectoryBanner::Legacy)
        } else if self.availability == TrajectoryAvailability::LegacyPartialMissingSnapshot {
            Some(TrajectoryBanner::MissingSnapshot)
        } else if self.availability == TrajectoryAvailability::Error || self.error.is_some() {
            Some(TrajectoryBanner::Error)
        } else {
            None
        }
    }

    /// The ledger, given the topmost row in view.
    pub fn render_trajectory_ledger(&self, top_item: usize) -> (r: LedgerPane)
        ensures
            r == ledger_pane(self@, top_item),
    {
        if self.records.len() == 0 && self.loading_status == TrajectoryLoadingStatus::Ready {
            LedgerPane::Empty
        } else if self.needs_older(top_item) {
            LedgerPane::Rows { load_older: Some(self.older_cursor) }
        } else {
            LedgerPane::Rows { load_older: None }
        }
    }

    /// The timeline.
    pub fn render_trajectory_timeline(&self, words: &SpanWords) -> (r: TimelineModel)
        ensures
            shows_spans(r.input@, self@.timeline.input_spans, self@.selected_record_id, *words),
            shows_spans(r.model@, self@.timeline.model_spans, self@.selected_record_id, *words),
            shows_spans(r.tools@, self@.timeline.tools_spans, self@.selected_record_id, *words),
            r.says_no_timing == (!self@.timeline.has_any_timing && self@.records.len() > 0),
    {
        TimelineModel {
            input: lane_bars(&self.timeline_layout.input_spans, self.selected_record_id, words),
            model: lane_bars(&self.timeline_layout.model_spans, self.selected_record_id, words),
            tools: lane_bars(&self.timeline_layout.tools_spans, self.selected_record_id, words),
            says_no_timing: !self.timeline_layout.has_any_timing && self.records.len() > 0,
        }
    }

    /// The toolbar.
    pub fn render_trajectory_toolbar(&self) -> (r: TrajectoryToolbar)
        ensures
            r.durations_pressed == self@.duration_projection,
            r.turns_pressed == (self@.folded_turns != Set::<u32>::empty()),
            r.turns_label@ == (if r.turns_pressed {
                LabelView::Message("trajectory.unfold_all_turns"@)
            } else {
                LabelView::Message("trajectory.fold_all_turns"@)
            }),
            r.calls_pressed == self@.show_tool_calls,
    {
        let any_folded = !self.folded_turns.is_empty();
        assert(!any_folded ==> self.folded_turns@ =~= Set::<u32>::empty());
        TrajectoryToolbar {
            durations_pressed: self.duration_projection,
            turns_label: if any_folded {
                Label::Message("trajectory.unfold_all_turns")
            } else {
                Label::Message("trajectory.fold_all_turns")
            },
            turns_pressed: any_folded,
            calls_pressed: self.show_tool_calls,
        }
    }
}

/// The words of a bar's tooltip that depend on the user's language.
#[derive(Debug)]
pub struct SpanWords {
    pub pending: String,
    pub running: String,
    pub completed: String,
    pub failed: String,
    pub cancelled: String,
    pub unavailable: String,
    pub no_timing: String,
    pub selected: String,
}

/// The word for a status.
pub open spec fn status_word(words: SpanWords, status: TrajectoryStatus) -> Seq<char> {
    match status {
        TrajectoryStatus::Pending => words.pending@,
        TrajectoryStatus::Running => words.running@,
        TrajectoryStatus::Completed => words.completed@,
        TrajectoryStatus::Failed => words.failed@,
        TrajectoryStatus::Cancelled => words.cancelled@,
        TrajectoryStatus::Unavailable => words.unavailable@,
    }
}

/// The tooltip of a bar: its title, its status, its duration, and whether it is selected.
pub open spec fn tooltip_of(span: SpanView, selected: bool, words: SpanWords) -> Seq<char> {
    span.title + " · "@ + status_word(words, span.status) + " · "@ + (match span.duration_text {
        Some(text) => if span.has_timing {
            text
        } else {
            words.no_timing@
        },
        None => words.no_timing@,
    }) + " · "@ + (if selected {
        words.selected@
    } else {
        Seq::empty()
    })
}

/// The tooltip of a bar.
pub fn span_tooltip(span: &TimelineSpan, selected: bool, words: &SpanWords) -> (r: String)
    ensures
        r@ == tooltip_of(span@, selected, *words),
{
    let status = match span.status {
        TrajectoryStatus::Pending => &words.pending,
        TrajectoryStatus::Running => &words.running,
        TrajectoryStatus::Completed => &words.completed,
        TrajectoryStatus::Failed => &words.failed,
        TrajectoryStatus::Cancelled => &words.cancelled,
        TrajectoryStatus::Unavailable => &words.unavailable,
    };
    let mut r = span.title.clone();
    r.append(" · ");
    r.append(status.as_str());
    r.append(" · ");
    match &span.duration_text {
        Some(text) => if span.has_timing {
            r.append(text.as_str());
        } else {
            r.append(words.no_timing.as_str());
        },
        None => r.append(words.no_timing.as_str()),
    }
    r.append(" · ");
    let ghost before = r@;
    if selected {
        r.append(words.selected.as_str());
    } else {
        assert(before + Seq::empty() =~= before);
    }
    r
}

/// A bar of the timeline, as it is shown.
#[derive(Debug)]
pub struct SpanBar {
    pub id: String,
    pub record_id: u128,
    pub left: Ratio,
    pub width: Ratio,
    pub selected: bool,
    pub tooltip: String,
}

/// The timeline, as it is shown: the bars of each lane.
#[derive(Debug)]
pub struct TimelineModel {
    pub input: Vec<SpanBar>,
    pub model: Vec<SpanBar>,
    pub tools: Vec<SpanBar>,
    /// It says that no times are known.
    pub says_no_timing: bool,
}

/// The width that a bar is shown with: at least three parts of two hundred, so that it can be seen.
pub open spec fn shown_width(width: Ratio) -> Ratio {
    if width.numer * 200 < 3 * width.denom {
        Ratio { numer: 3, denom: 200 }
    } else {
        width
    }
}

fn widened(width: Ratio) -> (r: Ratio)
    ensures
        r == shown_width(width),
{
    let whole: u128 = width.denom / 200;
    let rest: u128 = width.denom % 200;
    let least: u128 = 3 * whole + (3 * rest + 199) / 200;
    assert(width.denom == 200 * whole + rest);
    if width.numer < least {
        Ratio { numer: 3, denom: 200 }
    } else {
        width
    }
}

/// Tells whether a bar is how a record is shown. `chosen` is the record that is selected.
pub open spec fn shows_span(
    bar: SpanBar,
    span: SpanView,
    chosen: Option<u128>,
    words: SpanWords,
) -> bool {
    &&& bar.id@ == "timeline-span-"@ + hyphenated(span.record_id)
    &&& bar.record_id == span.record_id
    &&& bar.left == span.start_pct
    &&& bar.width == shown_width(span.width_pct)
    &&& bar.selected == (chosen == Some(span.record_id))
    &&& bar.tooltip@ == tooltip_of(span, bar.selected, words)
}

/// Tells whether bars are how the records of a lane are shown.
pub open spec fn shows_spans(
    bars: Seq<SpanBar>,
    spans: Seq<SpanView>,
    chosen: Option<u128>,
    words: SpanWords,
) -> bool {
    &&& bars.len() == spans.len()
    &&& forall|i: int|
        0 <= i < bars.len() ==> shows_span(#[trigger] bars[i], spans[i], chosen, words)
}

fn lane_bars(spans: &Vec<TimelineSpan>, chosen: Option<u128>, words: &SpanWords) -> (r: Vec<SpanBar>)
    ensures
        shows_spans(r@, span_views(spans@), chosen, *words),
{
    let mut r: Vec<SpanBar> = Vec::new();
    for i in 0..spans.len()
        invariant
            r@.len() == i,
            forall|k: int|
                0 <= k < i ==> shows_span(#[trigger] r@[k], spans@[k]@, chosen, *words),
    {
        let span = &spans[i];
        let selected = match chosen {
            Some(id) => id == span.record_id,
            None => false,
        };
        r.push(
            SpanBar {
                id: concat("timeline-span-", uuid_text(span.record_id).as_str()),
                record_id: span.record_id,
                left: span.start_pct,
                width: widened(span.width_pct),
                selected,
                tooltip: span_tooltip(span, selected, words),
            },
        );
    }
    r
}

// ---------------------------------------------------------------------------
// Rows
// ---------------------------------------------------------------------------
/// What a click on a row does.
#[derive(Clone, Copy, Debug, PartialEq, Eq, Structural)]
pub enum RowClick {
    ToggleTurn(u32),
    SelectRecord(u128),
    Nothing,
}

/// How the status of a tool call is coloured.
#[derive(Clone, Copy, Debug, PartialEq, Eq, Structural)]
pub enum StatusTone {
    Secondary,
    Accent,
    Tertiary,
}

/// What a row of the ledger looks like.
pub struct LedgerRowModel {
    pub element_id: String,
    pub selected: bool,
    pub indent: u32,
    /// The mark and the words of a divider that say whether its turn is folded.
    pub fold: Option<(&'static str, Label)>,
    pub badge: Label,
    pub text: Option<String>,
    /// The number of a turn's records, or of a request's children.
    pub count: Option<usize>,
    pub status: Option<(TrajectoryStatus, StatusTone)>,
    pub duration: Option<String>,
    pub click: RowClick,
}

/// The contents of what a row looks like.
pub ghost struct LedgerRowModelView {
    pub element_id: Seq<char>,
    pub selected: bool,
    pub indent: u32,
    pub fold: Option<(Seq<char>, LabelView)>,
    pub badge: LabelView,
    pub text: Option<Seq<char>>,
    pub count: Option<usize>,
    pub status: Option<(TrajectoryStatus, StatusTone)>,
    pub duration: Option<Seq<char>>,
    pub click: RowClick,
}

impl View for LedgerRowModel {
    type V = LedgerRowModelView;

    open spec fn view(&self) -> LedgerRowModelView {
        LedgerRowModelView {
            element_id: self.element_id@,
            selected: self.selected,
            indent: self.indent,
            fold: match self.fold {
                Some(pair) => Some((pair.0@, pair.1@)),
                None => None,
            },
            badge: self.badge@,
            text: opt_view(self.text),
            count: self.count,
            status: self.status,
            duration: opt_view(self.duration),
            click: self.click,
        }
    }
}

/// The title of a record, or its preview where it has no title.
pub open spec fn title_or_preview(r: TrajectoryRowSummary) -> Seq<char> {
    if r.title@.len() > 0 {
        r.title@
    } else {
        r.preview@
    }
}

/// The colour of a status.
pub open spec fn status_tone(status: TrajectoryStatus) -> StatusTone {
    match status {
        TrajectoryStatus::Completed => StatusTone::Secondary,
        TrajectoryStatus::Failed => StatusTone::Accent,
        _ => StatusTone::Tertiary,
    }
}

/// The duration that a row shows, where it shows durations. `no_timing` is said of one that is not known.
pub open spec fn shown_duration(shows: bool, ms: Option<i64>, no_timing: Seq<char>) -> Option<
    Seq<char>,
> {
    if shows {
        Some(duration_words(ms, no_timing))
    } else {
        None
    }
}

/// What a row of the ledger looks like.
pub open spec fn ledger_row_model(
    row: LedgerRowView,
    selected: bool,
    durations: bool,
    no_timing: Seq<char>,
) -> LedgerRowModelView {
    let base = LedgerRowModelView {
        element_id: "trajectory-row-"@ + row.key,
        selected,
        indent: row.depth,
        fold: None,
        badge: LabelView::Message("trajectory.tool_placeholder"@),
        text: None,
        count: None,
        status: None,
        duration: None,
        click: RowClick::Nothing,
    };
    match row.kind {
        TrajectoryLedgerRowKind::TurnDivider {
            turn_count,
            collapsed,
            record_count,
            total_duration_ms,
        } => LedgerRowModelView {
            fold: Some(
                if collapsed {
                    ("▶"@, LabelView::Message("trajectory.collapsed"@))
                } else {
                    ("▼"@, LabelView::Message("trajectory.expanded"@))
                },
            ),
            badge: LabelView::MessageWith {
                key: "trajectory.turn_divider"@,
                name: "turn"@,
                value: decimal(turn_count as nat),
            },
            count: Some(record_count),
            duration: shown_duration(durations && total_duration_ms is Some, total_duration_ms, no_timing),
            click: RowClick::ToggleTurn(turn_count),
            ..base
        },
        TrajectoryLedgerRowKind::StepRequest { record, children_count } => LedgerRowModelView {
            badge: LabelView::MessageWith {
                key: "trajectory.step"@,
                name: "step"@,
                value: decimal(record.step as nat),
            },
            text: Some(title_or_preview(record)),
            count: if children_count > 0 {
                Some(children_count)
            } else {
                None
            },
            duration: shown_duration(durations, record.duration_ms, no_timing),
            click: RowClick::SelectRecord(record.record_id),
            ..base
        },
        TrajectoryLedgerRowKind::Assistant { record } => LedgerRowModelView {
            badge: LabelView::Message("trajectory.assistant_label"@),
            text: Some(record.preview@),
            duration: shown_duration(durations, record.duration_ms, no_timing),
            click: RowClick::SelectRecord(record.record_id),
            ..base
        },
        TrajectoryLedgerRowKind::Tool { record } => LedgerRowModelView {
            badge: LabelView::Message("trajectory.tool_label"@),
            text: Some(title_or_preview(record)),
            status: Some((record.status, status_tone(record.status))),
            duration: shown_duration(durations, record.duration_ms, no_timing),
            click: RowClick::SelectRecord(record.record_id),
            ..base
        },
        TrajectoryLedgerRowKind::Context { record } => LedgerRowModelView {
            badge: LabelView::Message("trajectory.context_steering"@),
            text: Some(title_or_preview(record)),
            click: RowClick::SelectRecord(record.record_id),
            ..base
        },
        TrajectoryLedgerRowKind::System { record } => LedgerRowModelView {
            badge: LabelView::Message("trajectory.system_prompt"@),
            text: Some(record.preview@),
            click: RowClick::SelectRecord(record.record_id),
            ..base
        },
        TrajectoryLedgerRowKind::ToolOnlyPlaceholder { parent_record_id, duration_ms, .. } =>
        LedgerRowModelView {
            duration: shown_duration(durations, duration_ms, no_timing),
            click: match parent_record_id {
                Some(id) => RowClick::SelectRecord(id),
                None => RowClick::Nothing,
            },
            ..base
        },
    }
}

fn record_text(record: &TrajectoryRowSummary) -> (r: String)
    ensures
        r@ == title_or_preview(*record),
{
    if !record.title.as_str().is_empty() {
        record.title.clone()
    } else {
        record.preview.clone()
    }
}

fn duration_if(shows: bool, ms: Option<i64>, no_timing: &str) -> (r: Option<String>)
    ensures
        opt_view(r) == shown_duration(shows, ms, no_timing@),
{
    if shows {
        Some(format_duration_or(ms, no_timing))
    } else {
        None
    }
}

/// What a row of the ledger looks like. `no_timing` is said of a duration that is not known.
pub fn render_prepared_ledger_row(
    row: &TrajectoryLedgerRow,
    selected: bool,
    durations: bool,
    no_timing: &str,
) -> (r: LedgerRowModel)
    ensures
        r@ == ledger_row_model(row@, selected, durations, no_timing@),
{
    let mut r = LedgerRowModel {
        element_id: concat("trajectory-row-", row.key.as_str()),
        selected,
        indent: row.depth,
        fold: None,
        badge: Label::Message("trajectory.tool_placeholder"),
        text: None,
        count: None,
        status: None,
        duration: None,
        click: RowClick::Nothing,
    };
    match &row.kind {
        TrajectoryLedgerRowKind::TurnDivider {
            turn_count,
            collapsed,
            record_count,
            total_duration_ms,
        } => {
            r.fold =
            Some(
                if *collapsed {
                    ("▶", Label::Message("trajectory.collapsed"))
                } else {
                    ("▼", Label::Message("trajectory.expanded"))
                },
            );
            r.badge =
            Label::MessageWith {
                key: "trajectory.turn_divider",
                name: "turn",
                value: decimal_text(*turn_count as u64),
            };
            r.count = Some(*record_count);
            r.duration =
            duration_if(durations && total_duration_ms.is_some(), *total_duration_ms, no_timing);
            r.click = RowClick::ToggleTurn(*turn_count);
        },
        TrajectoryLedgerRowKind::StepRequest { record, children_count } => {
            r.badge =
            Label::MessageWith {
                key: "trajectory.step",
                name: "step",
                value: decimal_text(record.step as u64),
            };
            r.text = Some(record_text(record));
            r.count =
            if *children_count > 0 {
                Some(*children_count)
            } else {
                None
            };
            r.duration = duration_if(durations, record.duration_ms, no_timing);
            r.click = RowClick::SelectRecord(record.record_id);
        },
        TrajectoryLedgerRowKind::Assistant { record } => {
            r.badge = Label::Message("trajectory.assistant_label");
            r.text = Some(record.preview.clone());
            r.duration = duration_if(durations, record.duration_ms, no_timing);
            r.click = RowClick::SelectRecord(record.record_id);
        },
        TrajectoryLedgerRowKind::Tool { record } => {
            r.badge = Label::Message("trajectory.tool_label");
            r.text = Some(record_text(record));
            let tone = match record.status {
                TrajectoryStatus::Completed => StatusTone::Secondary,
                TrajectoryStatus::Failed => StatusTone::Accent,
                _ => StatusTone::Tertiary,
            };
            r.status = Some((record.status, tone));
            r.duration = duration_if(durations, record.duration_ms, no_timing);
            r.click = RowClick::SelectRecord(record.record_id);
        },
        TrajectoryLedgerRowKind::Context { record } => {
            r.badge = Label::Message("trajectory.context_steering");
            r.text = Some(record_text(record));
            r.click = RowClick::SelectRecord(record.record_id);
        },
        TrajectoryLedgerRowKind::System { record } => {
            r.badge = Label::Message("trajectory.system_prompt");
            r.text = Some(record.preview.clone());
            r.click = RowClick::SelectRecord(record.record_id);
        },
        TrajectoryLedgerRowKind::ToolOnlyPlaceholder { parent_record_id, duration_ms, .. } => {
            r.duration = duration_if(durations, *duration_ms, no_timing);
            r.click =
            match *parent_record_id {
                Some(id) => RowClick::SelectRecord(id),
                None => RowClick::Nothing,
            };
        },
    }
    r
}

impl TrajectorySessionState {
    /// What the row at `index` looks like, where there is one. `no_timing` is said of a duration that is
    /// not known.
    pub fn render_trajectory_ledger_row(&self, index: usize, no_timing: &str) -> (r: Option<
        LedgerRowModel,
    >)
        ensures
            match r {
                Some(model) => index < self@.rows.len() && model@ == ledger_row_model(
                    self@.rows[index as int],
                    self@.selected_row_index == Some(index),
                    self@.duration_projection,
                    no_timing@,
                ),
                None => index >= self@.rows.len(),
            },
    {
        if index >= self.ledger_rows.len() {
            return None;
        }
        let selected = match self.selected_row_index {
            Some(i) => i == index,
            None => false,
        };
        assert(self@.rows[index as int] == self.ledger_rows@[index as int]@);
        Some(
            render_prepared_ledger_row(
                &self.ledger_rows[index],
                selected,
                self.duration_projection,
                no_timing,
            ),
        )
    }

    /// Does what a click on a row does.
    pub fn click_row(&mut self, click: RowClick)
        ensures
            final(self)@ == (match click {
                RowClick::ToggleTurn(turn) => fold_flipped(old(self)@, turn),
                RowClick::SelectRecord(id) => record_selected(old(self)@, id),
                RowClick::Nothing => old(self)@,
            }),
    {
        match click {
            RowClick::ToggleTurn(turn) => self.toggle_turn_fold(turn),
            RowClick::SelectRecord(id) => self.select_record(id),
            RowClick::Nothing => {},
        }
    }
}

/// Escape closes the details first, clears the search next, and then means nothing.
pub proof fn escape_closes_then_clears(s: StateView, stepped: Option<usize>)
    requires
        s.inspector_open,
        s.search_query.len() > 0,
    ensures
        ({
            let first = list_key(s, "escape"@, stepped);
            let second = list_key(first.0, "escape"@, stepped);
            let third = list_key(second.0, "escape"@, stepped);
            &&& first.1 == ListKeyOutcome::Handled
            &&& !first.0.inspector_open
            &&& first.0.search_query == s.search_query
            &&& second.1 == ListKeyOutcome::SearchCleared
            &&& second.0.search_query.len() == 0
            &&& third == (second.0, ListKeyOutcome::Ignored)
        }),
{
}

/// The left key folds a selected turn that is not folded, and the right key unfolds it again.
pub proof fn right_undoes_left(s: StateView, turn: u32)
    requires
        crate::trajectory::state::consistent(s),
        s.selected_record_id is None,
        s.selected_row_index is Some,
        s.rows[s.selected_row_index->0 as int].kind matches TrajectoryLedgerRowKind::TurnDivider {
            turn_count,
            collapsed,
            ..
        } && turn_count == turn && !collapsed,
    ensures
        ({
            let (folded, outcome) = turn_folded(s, false);
            &&& outcome == ListKeyOutcome::Handled
            &&& folded == fold_flipped(s, turn)
            &&& fold_flipped(folded, turn).rows == s.rows
        }),
{
    crate::trajectory::state_laws::flipping_twice_shows_the_same(s, turn);
}

} // verus!
