//! What the conversation keeps of each session that was looked at, and what it
//! does with measured rows and new projections.
use crate::conversation::ConversationBlockKind;
use crate::intent::RowMeasurement;
use crate::replay_frames::{field_pairs, field_text, trace_line, TraceField};
use crate::text::{contains_text, decimal, decimal_text, same_text, text_contains, texts};
use vstd::prelude::*;

verus! {

/// How the text of a row is shown while it arrives.
#[derive(Debug, Clone, Copy, PartialEq, Eq, Structural)]
pub enum StreamingTextPhase {
    StreamingPlainText,
    SettlingMarkdown,
    FinalMarkdown,
}

impl StreamingTextPhase {
    /// Whether the text is shown as Markdown: not while it still streams.
    pub fn shows_markdown(self) -> (markdown: bool)
        ensures
            markdown == !(self is StreamingPlainText),
    {
        match self {
            StreamingTextPhase::StreamingPlainText => false,
            StreamingTextPhase::SettlingMarkdown | StreamingTextPhase::FinalMarkdown => true,
        }
    }
}

/// How a trace names the phase of a Markdown view, by the key of its state.
pub fn markdown_trace_phase(state_key: &str) -> (phase: &'static str)
    ensures
        phase@ == trace_phase(state_key@),
{
    if text_contains(state_key, ":final:") {
        "final"
    } else {
        "settling"
    }
}

/// The phase of a Markdown view as a trace names it.
pub open spec fn trace_phase(state_key: Seq<char>) -> Seq<char> {
    if contains_text(state_key, ":final:"@) {
        "final"@
    } else {
        "settling"@
    }
}

/// The fields of the trace line of a Markdown view.
pub open spec fn markdown_fields(state_key: Seq<char>, bytes: usize, micros: u128) -> Seq<
    (Seq<char>, Seq<char>),
> {
    seq![
        ("state_key"@, state_key),
        ("phase"@, trace_phase(state_key)),
        ("bytes"@, decimal(bytes as nat)),
        ("markdown_parse_to_layout_us"@, decimal(micros as nat)),
    ]
}

/// Writes the trace line of a Markdown view that was laid out.
pub fn markdown_trace_line(state_key: &str, bytes: usize, micros: u128) -> (line: String)
    ensures
        line@ == "desktop_trace\tmarkdown_parse_complete"@ + field_text(
            markdown_fields(state_key@, bytes, micros),
        ),
{
    let fields: Vec<TraceField> = vec![
        TraceField { name: "state_key", value: state_key.to_owned() },
        TraceField { name: "phase", value: markdown_trace_phase(state_key).to_owned() },
        TraceField { name: "bytes", value: decimal_text(bytes as u128) },
        TraceField { name: "markdown_parse_to_layout_us", value: decimal_text(micros) },
    ];
    assert(field_pairs(fields@) =~= markdown_fields(state_key@, bytes, micros));
    trace_line("desktop_trace\tmarkdown_parse_complete", &fields)
}

/// How many sessions the conversation keeps the view of.
pub const MAX_SESSION_VIEW_STATES: usize = 256;

/// What is kept of a session that was left. Viewports and scroll positions are
/// the caller's.
#[derive(Debug, PartialEq, Eq)]
pub struct KeptView<V, T> {
    pub session_id: String,
    pub viewport: V,
    pub scroll_top: T,
    pub expanded_details: Vec<String>,
}

/// The view of the session that is looked at, and those that were left.
#[derive(Debug, PartialEq, Eq)]
pub struct SessionViews<V, T> {
    pub viewport: V,
    pub expanded_details: Vec<String>,
    pub pending_scroll_restore: Option<T>,
    pub kept: Vec<KeptView<V, T>>,
}

/// The place of the first kept view of a session, or the length of the list.
pub open spec fn kept_position<V, T>(kept: Seq<KeptView<V, T>>, session_id: Seq<char>) -> nat
    decreases kept.len(),
{
    if kept.len() == 0 {
        0
    } else if kept[0].session_id@ == session_id {
        0
    } else {
        1 + kept_position(kept.skip(1), session_id)
    }
}

/// The kept views once there is room for one more session.
pub open spec fn with_room<V, T>(kept: Seq<KeptView<V, T>>, session_id: Seq<char>) -> Seq<
    KeptView<V, T>,
> {
    if kept.len() >= MAX_SESSION_VIEW_STATES && kept_position(kept, session_id) == kept.len() {
        kept.skip(1)
    } else {
        kept
    }
}

/// The kept views with one put in, in place of an earlier one of its session.
pub open spec fn with_kept<V, T>(kept: Seq<KeptView<V, T>>, entry: KeptView<V, T>) -> Seq<
    KeptView<V, T>,
> {
    let at = kept_position(kept, entry.session_id@);
    if at < kept.len() {
        kept.update(at as int, entry)
    } else {
        kept.push(entry)
    }
}

fn find_kept<V, T>(kept: &Vec<KeptView<V, T>>, session_id: &str) -> (found: Option<usize>)
    ensures
        found is Some <==> kept_position(kept@, session_id@) < kept@.len(),
        found is Some ==> found->0 == kept_position(kept@, session_id@),
        found is None ==> kept_position(kept@, session_id@) == kept@.len(),
{
    let mut index: usize = 0;
    assert(kept@.skip(0) =~= kept@);
    while index < kept.len()
        invariant
            index <= kept@.len(),
            kept_position(kept@, session_id@) == index + kept_position(
                kept@.skip(index as int),
                session_id@,
            ),
        decreases kept@.len() - index,
    {
        let ghost rest = kept@.skip(index as int);
        assert(rest[0] == kept@[index as int]);
        assert(rest.skip(1) =~= kept@.skip(index as int + 1));
        if same_text(kept[index].session_id.as_str(), session_id) {
            return Some(index);
        }
        index = index + 1;
    }
    None
}

/// The kept views once the session that was looked at is left.
pub open spec fn left_behind<V, T>(
    views: SessionViews<V, T>,
    previous_session_id: String,
    scroll_top: T,
) -> Seq<KeptView<V, T>> {
    with_kept(
        with_room(views.kept@, previous_session_id@),
        KeptView {
            session_id: previous_session_id,
            viewport: views.viewport,
            scroll_top,
            expanded_details: views.expanded_details,
        },
    )
}

/// Whether views are those after a switch from one session to another: the
/// left one is kept, and the entered one is as it was left, or fresh.
pub open spec fn is_switched<V, T>(
    before: SessionViews<V, T>,
    after: SessionViews<V, T>,
    previous_session_id: String,
    next_session_id: Seq<char>,
    scroll_top: T,
    fresh: V,
    start: T,
) -> bool {
    let kept = left_behind(before, previous_session_id, scroll_top);
    let at = kept_position(kept, next_session_id);
    if at < kept.len() {
        &&& after.viewport == kept[at as int].viewport
        &&& after.expanded_details == kept[at as int].expanded_details
        &&& after.pending_scroll_restore == Some(kept[at as int].scroll_top)
        &&& after.kept@ == kept.remove(at as int)
    } else {
        &&& after.viewport == fresh
        &&& after.expanded_details@.len() == 0
        &&& after.pending_scroll_restore == Some(start)
        &&& after.kept@ == kept
    }
}

/// Switches from one session to another. A session that was looked at before
/// comes back as it was left, another one begins with the fresh viewport at the
/// start. Beyond the limit the view that was kept longest is forgotten.
pub fn reconcile_session_view_state<V, T>(
    views: SessionViews<V, T>,
    previous_session_id: String,
    next_session_id: &str,
    scroll_top: T,
    fresh: V,
    start: T,
) -> (switched: (SessionViews<V, T>, bool))
    ensures
        switched.1 == (previous_session_id@ != next_session_id@),
        !switched.1 ==> switched.0 == views,
        switched.1 ==> is_switched(
            views,
            switched.0,
            previous_session_id,
            next_session_id@,
            scroll_top,
            fresh,
            start,
        ),
        kept_once(views.kept@) ==> kept_once(switched.0.kept@),
{
    if same_text(previous_session_id.as_str(), next_session_id) {
        return (views, false);
    }
    let mut kept = views.kept;
    let known = find_kept(&kept, previous_session_id.as_str());
    if kept.len() >= MAX_SESSION_VIEW_STATES && known.is_none() {
        let ghost full = kept@;
        kept.remove(0);
        assert(kept@ =~= full.skip(1));
    }
    assert(kept@ == with_room(views.kept@, previous_session_id@));
    let place = find_kept(&kept, previous_session_id.as_str());
    let entry = KeptView {
        session_id: previous_session_id,
        viewport: views.viewport,
        scroll_top,
        expanded_details: views.expanded_details,
    };
    match place {
        Some(at) => kept.set(at, entry),
        None => kept.push(entry),
    }
    let ghost stored = kept@;
    assert(stored =~= left_behind(views, previous_session_id, scroll_top));
    let entered = match find_kept(&kept, next_session_id) {
        Some(at) => {
            let entered = kept.remove(at);
            assert(kept@ =~= stored.remove(at as int));
            SessionViews {
                viewport: entered.viewport,
                expanded_details: entered.expanded_details,
                pending_scroll_restore: Some(entered.scroll_top),
                kept,
            }
        },
        None => SessionViews {
            viewport: fresh,
            expanded_details: Vec::new(),
            pending_scroll_restore: Some(start),
            kept,
        },
    };
    proof {
        if kept_once(views.kept@) {
            law_switch_keeps_each_session_once(
                views,
                entered,
                previous_session_id,
                next_session_id@,
                scroll_top,
                fresh,
                start,
            );
        }
    }
    (entered, true)
}

proof fn lemma_kept_position<V, T>(kept: Seq<KeptView<V, T>>, session_id: Seq<char>)
    ensures
        kept_position(kept, session_id) <= kept.len(),
        forall|i: int|
            0 <= i < kept_position(kept, session_id) ==> (#[trigger] kept[i]).session_id@
                != session_id,
        kept_position(kept, session_id) < kept.len() ==> kept[kept_position(
            kept,
            session_id,
        ) as int].session_id@ == session_id,
    decreases kept.len(),
{
    if kept.len() > 0 && kept[0].session_id@ != session_id {
        let rest = kept.skip(1);
        lemma_kept_position(rest, session_id);
        assert forall|i: int| 0 <= i < kept_position(kept, session_id) implies (
        #[trigger] kept[i]).session_id@ != session_id by {
            if i > 0 {
                assert(rest[i - 1] == kept[i]);
            }
        }
        let at = kept_position(rest, session_id);
        if at < rest.len() {
            assert(rest[at as int] == kept[at as int + 1]);
        }
    }
}

proof fn lemma_first_is_position<V, T>(
    kept: Seq<KeptView<V, T>>,
    session_id: Seq<char>,
    at: int,
)
    requires
        0 <= at < kept.len(),
        kept[at].session_id@ == session_id,
        forall|i: int| 0 <= i < at ==> (#[trigger] kept[i]).session_id@ != session_id,
    ensures
        kept_position(kept, session_id) == at,
{
    lemma_kept_position(kept, session_id);
    let found = kept_position(kept, session_id) as int;
    if found < at {
        assert(kept[found].session_id@ != session_id);
    }
    if found > at {
        assert(kept[at].session_id@ != session_id);
    }
}

/// Whether no session is kept twice.
pub open spec fn kept_once<V, T>(kept: Seq<KeptView<V, T>>) -> bool {
    forall|i: int, j: int|
        0 <= i < j < kept.len() ==> (#[trigger] kept[i]).session_id@ != (
        #[trigger] kept[j]).session_id@
}

/// Whether a session is kept, with what was left of it.
pub open spec fn keeps<V, T>(kept: Seq<KeptView<V, T>>, entry: KeptView<V, T>) -> bool {
    let at = kept_position(kept, entry.session_id@);
    at < kept.len() && kept[at as int] == entry
}

/// Whether a session is not kept.
pub open spec fn forgets<V, T>(kept: Seq<KeptView<V, T>>, session_id: Seq<char>) -> bool {
    kept_position(kept, session_id) == kept.len()
}

/// No more views are kept than the limit allows.
pub proof fn law_kept_views_stay_bounded<V, T>(
    before: SessionViews<V, T>,
    after: SessionViews<V, T>,
    previous_session_id: String,
    next_session_id: Seq<char>,
    scroll_top: T,
    fresh: V,
    start: T,
)
    requires
        before.kept@.len() <= MAX_SESSION_VIEW_STATES,
        is_switched(
            before,
            after,
            previous_session_id,
            next_session_id,
            scroll_top,
            fresh,
            start,
        ),
    ensures
        after.kept@.len() <= MAX_SESSION_VIEW_STATES,
{
    lemma_kept_position(before.kept@, previous_session_id@);
    lemma_kept_position(with_room(before.kept@, previous_session_id@), previous_session_id@);
}

/// What is kept when a session is left is kept once, where all before it was.
proof fn lemma_left_behind_once<V, T>(
    views: SessionViews<V, T>,
    previous_session_id: String,
    scroll_top: T,
)
    requires
        kept_once(views.kept@),
    ensures
        kept_once(left_behind(views, previous_session_id, scroll_top)),
        keeps(
            left_behind(views, previous_session_id, scroll_top),
            KeptView {
                session_id: previous_session_id,
                viewport: views.viewport,
                scroll_top,
                expanded_details: views.expanded_details,
            },
        ),
{
    let id = previous_session_id@;
    let roomy = with_room(views.kept@, id);
    let kept = left_behind(views, previous_session_id, scroll_top);
    lemma_kept_position(roomy, id);
    let at = kept_position(roomy, id) as int;
    assert forall|i: int, j: int| 0 <= i < j < roomy.len() implies (
    #[trigger] roomy[i]).session_id@ != (#[trigger] roomy[j]).session_id@ by {
        if roomy != views.kept@ {
            assert(roomy[i] == views.kept@[i + 1]);
            assert(roomy[j] == views.kept@[j + 1]);
        }
    }
    assert forall|i: int, j: int| 0 <= i < j < kept.len() implies (
    #[trigger] kept[i]).session_id@ != (#[trigger] kept[j]).session_id@ by {
        if at < roomy.len() {
            assert(roomy[i].session_id@ != roomy[j].session_id@);
        } else if j == at {
            assert(kept[i] == roomy[i]);
        } else {
            assert(kept[i] == roomy[i]);
            assert(kept[j] == roomy[j]);
        }
    }
    assert forall|i: int| 0 <= i < at implies (#[trigger] kept[i]).session_id@ != id by {
        assert(kept[i] == roomy[i]);
    }
    lemma_first_is_position(kept, id, at);
}

/// A switch leaves no session kept twice: the one that was left is kept as it
/// was left, and the one that was entered is kept no more.
pub proof fn law_switch_keeps_each_session_once<V, T>(
    before: SessionViews<V, T>,
    after: SessionViews<V, T>,
    previous_session_id: String,
    next_session_id: Seq<char>,
    scroll_top: T,
    fresh: V,
    start: T,
)
    requires
        kept_once(before.kept@),
        previous_session_id@ != next_session_id,
        is_switched(
            before,
            after,
            previous_session_id,
            next_session_id,
            scroll_top,
            fresh,
            start,
        ),
    ensures
        kept_once(after.kept@),
        keeps(
            after.kept@,
            KeptView {
                session_id: previous_session_id,
                viewport: before.viewport,
                scroll_top,
                expanded_details: before.expanded_details,
            },
        ),
        forgets(after.kept@, next_session_id),
{
    let entry = KeptView {
        session_id: previous_session_id,
        viewport: before.viewport,
        scroll_top,
        expanded_details: before.expanded_details,
    };
    let kept = left_behind(before, previous_session_id, scroll_top);
    lemma_left_behind_once(before, previous_session_id, scroll_top);
    lemma_kept_position(kept, previous_session_id@);
    lemma_kept_position(kept, next_session_id);
    lemma_kept_position(after.kept@, next_session_id);
    let left = kept_position(kept, previous_session_id@) as int;
    let entered = kept_position(kept, next_session_id) as int;
    if entered < kept.len() {
        assert forall|i: int, j: int| 0 <= i < j < after.kept@.len() implies (
        #[trigger] after.kept@[i]).session_id@ != (#[trigger] after.kept@[j]).session_id@ by {
            let first = if i < entered { i } else { i + 1 };
            let second = if j < entered { j } else { j + 1 };
            assert(after.kept@[i] == kept[first]);
            assert(after.kept@[j] == kept[second]);
        }
        let found = kept_position(after.kept@, next_session_id) as int;
        if found < after.kept@.len() {
            let there = if found < entered { found } else { found + 1 };
            assert(after.kept@[found] == kept[there]);
            assert(kept[entered].session_id@ == next_session_id);
            assert(false);
        }
        let own = if left < entered { left } else { left - 1 };
        assert(after.kept@[own] == kept[left]);
        assert forall|i: int| 0 <= i < own implies (#[trigger] after.kept@[i]).session_id@
            != previous_session_id@ by {
            assert(after.kept@[i].session_id@ != after.kept@[own].session_id@);
        }
        lemma_first_is_position(after.kept@, previous_session_id@, own);
    }
}

/// Who leaves a session and comes back finds its viewport, its open details and
/// its scroll position as they were, whatever became of the view while away, as
/// long as nothing had to be forgotten on the way back. Then the other session
/// is kept, and the one that was entered again is not.
pub proof fn law_return_restores_the_view<V, T>(
    home: SessionViews<V, T>,
    entered: SessionViews<V, T>,
    away: SessionViews<V, T>,
    back: SessionViews<V, T>,
    session_id: String,
    other_id: String,
    scroll_top: T,
    other_scroll_top: T,
    fresh: V,
    start: T,
)
    requires
        session_id@ != other_id@,
        kept_once(home.kept@),
        is_switched(home, entered, session_id, other_id@, scroll_top, fresh, start),
        away.kept@ == entered.kept@,
        with_room(away.kept@, other_id@) == away.kept@,
        is_switched(away, back, other_id, session_id@, other_scroll_top, fresh, start),
    ensures
        back.viewport == home.viewport,
        back.expanded_details == home.expanded_details,
        back.pending_scroll_restore == Some(scroll_top),
        keeps(
            back.kept@,
            KeptView {
                session_id: other_id,
                viewport: away.viewport,
                scroll_top: other_scroll_top,
                expanded_details: away.expanded_details,
            },
        ),
        forgets(back.kept@, session_id@),
        kept_once(back.kept@),
{
    law_switch_keeps_each_session_once(
        home,
        entered,
        session_id,
        other_id@,
        scroll_top,
        fresh,
        start,
    );
    law_switch_keeps_each_session_once(
        away,
        back,
        other_id,
        session_id@,
        other_scroll_top,
        fresh,
        start,
    );
    // The other session is left again: the own view stays where it is.
    let own = kept_position(away.kept@, session_id@) as int;
    lemma_kept_position(away.kept@, session_id@);
    lemma_kept_position(away.kept@, other_id@);
    let kept = left_behind(away, other_id, other_scroll_top);
    assert(kept[own] == away.kept@[own]);
    assert forall|i: int| 0 <= i < own implies (#[trigger] kept[i]).session_id@ != session_id@ by {
        assert(kept[i] == away.kept@[i]);
    }
    lemma_first_is_position(kept, session_id@, own);
}

/// How the height of a row is found.
#[derive(Debug, Clone, Copy, PartialEq, Eq, Structural)]
pub enum RowHeightRule {
    /// The estimate of the whole row.
    Estimated,
    /// The height of the text alone, with a line for the details, up to the
    /// limit of a preview.
    CollapsedText,
    /// The height of an empty row, with a line for the details, up to the limit
    /// of a preview.
    CollapsedEmpty,
}

/// Decides how the height of a row is found: closed details are not counted.
pub fn row_target_height(
    kind: ConversationBlockKind,
    expanded: bool,
    has_text: bool,
    has_detail: bool,
) -> (rule: RowHeightRule)
    ensures
        rule == height_rule(kind, expanded, has_text, has_detail),
        rule == (if expanded {
            RowHeightRule::Estimated
        } else if kind is Assistant && has_detail {
            RowHeightRule::CollapsedText
        } else if kind is Tool && (has_text || has_detail) {
            RowHeightRule::CollapsedEmpty
        } else {
            RowHeightRule::Estimated
        }),
{
    if expanded {
        return RowHeightRule::Estimated;
    }
    match kind {
        ConversationBlockKind::Assistant => if has_detail {
            RowHeightRule::CollapsedText
        } else {
            RowHeightRule::Estimated
        },
        ConversationBlockKind::Tool => if has_text || has_detail {
            RowHeightRule::CollapsedEmpty
        } else {
            RowHeightRule::Estimated
        },
        _ => RowHeightRule::Estimated,
    }
}

/// Whether the details of a row are open.
pub fn details_are_expanded(expanded_details: &Vec<String>, row_id: &str) -> (expanded: bool)
    ensures
        expanded == texts(expanded_details@).contains(row_id@),
{
    let mut index: usize = 0;
    while index < expanded_details.len()
        invariant
            index <= expanded_details@.len(),
            forall|i: int| 0 <= i < index ==> (#[trigger] expanded_details@[i])@ != row_id@,
        decreases expanded_details@.len() - index,
    {
        if same_text(expanded_details[index].as_str(), row_id) {
            assert(texts(expanded_details@)[index as int] == row_id@);
            return true;
        }
        index = index + 1;
    }
    assert(!texts(expanded_details@).contains(row_id@)) by {
        if texts(expanded_details@).contains(row_id@) {
            let at = texts(expanded_details@).index_of(row_id@);
            assert(expanded_details@[at]@ == row_id@);
        }
    }
    false
}

/// A row as it is shown now.
#[derive(Debug, PartialEq, Eq)]
pub struct ShownRow {
    pub item_key: String,
    pub row_id: String,
    pub source_revision: u64,
    pub width_bucket: u32,
    pub text_phase: StreamingTextPhase,
    pub durable: bool,
}

/// What becomes of a measurement.
#[derive(Debug, Clone, Copy, PartialEq, Eq, Structural)]
pub enum MeasurementStep {
    /// The row is no longer shown.
    Unmounted,
    /// The row is shown otherwise than when it was measured.
    Stale,
    Accept { index: usize, durable: bool },
}

/// The place of the row that was measured, or the number of rows.
pub open spec fn row_position(rows: Seq<ShownRow>, item_key: Seq<char>) -> nat
    decreases rows.len(),
{
    if rows.len() == 0 {
        0
    } else if rows[0].item_key@ == item_key {
        0
    } else {
        1 + row_position(rows.skip(1), item_key)
    }
}

/// Whether a row is shown as it was measured.
pub open spec fn still_fits(
    row: ShownRow,
    expanded_details: Seq<String>,
    measurement: RowMeasurement,
) -> bool {
    &&& row.source_revision == measurement.source_revision
    &&& row.width_bucket == measurement.width_bucket
    &&& row.text_phase == measurement.text_phase
    &&& texts(expanded_details).contains(row.row_id@) == measurement.details_expanded
}

/// Decides on a measurement: it counts only for the row as it was measured.
pub fn submit_row_measurement(
    rows: &Vec<ShownRow>,
    expanded_details: &Vec<String>,
    measurement: &RowMeasurement,
) -> (step: MeasurementStep)
    ensures
        ({
            let at = row_position(rows@, measurement.item_key@);
            step == (if at >= rows@.len() {
                MeasurementStep::Unmounted
            } else if still_fits(rows@[at as int], expanded_details@, *measurement) {
                MeasurementStep::Accept { index: at as usize, durable: rows@[at as int].durable }
            } else {
                MeasurementStep::Stale
            })
        }),
{
    let mut index: usize = 0;
    assert(rows@.skip(0) =~= rows@);
    while index < rows.len()
        invariant
            index <= rows@.len(),
            row_position(rows@, measurement.item_key@) == index + row_position(
                rows@.skip(index as int),
                measurement.item_key@,
            ),
        decreases rows@.len() - index,
    {
        let ghost rest = rows@.skip(index as int);
        assert(rest[0] == rows@[index as int]);
        assert(rest.skip(1) =~= rows@.skip(index as int + 1));
        let row = &rows[index];
        if same_text(row.item_key.as_str(), measurement.item_key.as_str()) {
            let expanded = details_are_expanded(expanded_details, row.row_id.as_str());
            if row.source_revision == measurement.source_revision && row.width_bucket
                == measurement.width_bucket && row.text_phase == measurement.text_phase && expanded
                == measurement.details_expanded {
                return MeasurementStep::Accept { index, durable: row.durable };
            }
            return MeasurementStep::Stale;
        }
        index = index + 1;
    }
    MeasurementStep::Unmounted
}

/// What an accepted measurement moves.
#[derive(Debug, Clone, Copy, PartialEq, Eq, Structural)]
pub enum ScrollAdjustment {
    Nothing,
    AlignToBottom,
    KeepAnchor,
}

/// Decides what a measurement moves: who follows the latest output stays at the
/// end, who reads further up keeps the row at the top.
pub fn scroll_adjustment(height_changed: bool, follow_latest: bool) -> (adjustment: ScrollAdjustment)
    ensures
        adjustment == adjusted_scroll(height_changed, follow_latest),
        adjustment == (if !height_changed {
            ScrollAdjustment::Nothing
        } else if follow_latest {
            ScrollAdjustment::AlignToBottom
        } else {
            ScrollAdjustment::KeepAnchor
        }),
{
    if !height_changed {
        ScrollAdjustment::Nothing
    } else if follow_latest {
        ScrollAdjustment::AlignToBottom
    } else {
        ScrollAdjustment::KeepAnchor
    }
}

/// How the end of the conversation is brought into view.
#[derive(Debug, Clone, Copy, PartialEq, Eq, Structural)]
pub enum BottomAlignment {
    Top,
    /// By the sum of the heights, which are all known.
    ByHeights,
    ToRow(usize),
}

/// Decides how the end of the conversation is brought into view.
pub fn align_scroll_to_bottom(
    block_count: usize,
    viewport_is_known: bool,
    known_heights: usize,
) -> (alignment: BottomAlignment)
    ensures
        alignment == bottom_of(block_count, viewport_is_known, known_heights),
        alignment == (if block_count == 0 {
            BottomAlignment::Top
        } else if viewport_is_known && known_heights == block_count {
            BottomAlignment::ByHeights
        } else {
            BottomAlignment::ToRow((block_count - 1) as usize)
        }),
{
    if block_count == 0 {
        BottomAlignment::Top
    } else if viewport_is_known && known_heights == block_count {
        BottomAlignment::ByHeights
    } else {
        BottomAlignment::ToRow(block_count - 1)
    }
}

/// What a change of the projection touched.
#[derive(Debug, Clone, Copy, PartialEq, Eq, Structural)]
pub struct ProjectionDelta {
    pub conversation: bool,
    pub tools: bool,
}

/// How the conversation follows a projection.
#[derive(Debug, Clone, Copy, PartialEq, Eq, Structural)]
pub enum ConversationRefresh {
    Nothing,
    Hydration,
    Content,
}

/// What a new projection sets off.
#[derive(Debug, Clone, Copy, PartialEq, Eq, Structural)]
pub struct ProjectionPlan {
    /// The submitted draft has become part of the transcript.
    pub settles_submission: bool,
    pub refresh: ConversationRefresh,
    pub composer_needs_sync: bool,
}

/// Decides what a new projection sets off. A draft settles only with a whole
/// new projection, once its prompt is complete and nothing runs any more.
pub fn reconcile_projection(
    replaced: bool,
    delta: Option<ProjectionDelta>,
    completes_submitted_prompt: bool,
    active_operation_after: bool,
    draft_submitted: bool,
) -> (plan: ProjectionPlan)
    ensures
        plan.settles_submission == (replaced && completes_submitted_prompt
            && !active_operation_after && draft_submitted),
        plan.composer_needs_sync == plan.settles_submission,
        plan.refresh == projection_refresh(replaced, delta),
        plan.settles_submission == settles_draft(
            replaced,
            completes_submitted_prompt,
            active_operation_after,
            draft_submitted,
        ),
        plan.refresh == (if replaced {
            ConversationRefresh::Hydration
        } else if delta is Some && (delta->0.conversation || delta->0.tools) {
            ConversationRefresh::Content
        } else {
            ConversationRefresh::Nothing
        }),
{
    let settles = replaced && completes_submitted_prompt && !active_operation_after
        && draft_submitted;
    let touched = match delta {
        Some(delta) => delta.conversation || delta.tools,
        None => false,
    };
    ProjectionPlan {
        settles_submission: settles,
        refresh: if replaced {
            ConversationRefresh::Hydration
        } else if touched {
            ConversationRefresh::Content
        } else {
            ConversationRefresh::Nothing
        },
        composer_needs_sync: settles,
    }
}

/// The phase of a document is told by its key: final where the key says so anywhere.
pub proof fn law_phases_are_told_by_the_key(front: Seq<char>, back: Seq<char>, key: Seq<char>)
    ensures
        trace_phase(front + ":final:"@ + back) == "final"@,
        (forall|at: int|
            0 <= at && at + ":final:"@.len() <= key.len() ==> #[trigger] key.subrange(
                at,
                at + ":final:"@.len(),
            ) != ":final:"@) ==> trace_phase(key) == "settling"@,
{
    crate::text::law_text_is_found_anywhere(key, ":final:"@);
    let whole = front + ":final:"@ + back;
    assert(contains_text(whole, ":final:"@));
    if contains_text(key, ":final:"@) {
        let at = choose|at: int| crate::text::occurs_at(key, ":final:"@, at);
        assert(key.subrange(at, at + ":final:"@.len()) == ":final:"@);
    }
}

/// A measured row is found at its first place, and nowhere where it is not shown.
pub proof fn law_measured_rows_are_found(rows: Seq<ShownRow>, item_key: Seq<char>)
    ensures
        row_position(rows, item_key) <= rows.len(),
        row_position(rows, item_key) < rows.len() ==> rows[row_position(
            rows,
            item_key,
        ) as int].item_key@ == item_key,
        forall|i: int|
            0 <= i < row_position(rows, item_key) ==> (#[trigger] rows[i]).item_key@ != item_key,
    decreases rows.len(),
{
    if rows.len() > 0 && rows[0].item_key@ != item_key {
        let rest = rows.skip(1);
        law_measured_rows_are_found(rest, item_key);
        let at = row_position(rows, item_key);
        assert forall|i: int| 0 <= i < at implies (#[trigger] rows[i]).item_key@ != item_key by {
            if i > 0 {
                assert(rest[i - 1] == rows[i]);
            }
        }
        if at < rows.len() {
            assert(rest[at - 1] == rows[at as int]);
        }
    }
}

/// A measurement counts only for the row as it is shown: the same text, the same width,
/// the same phase, and unfolded alike. Any difference makes it stale.
pub proof fn law_measurements_count_for_what_is_shown(
    row: ShownRow,
    expanded_details: Seq<String>,
    measurement: RowMeasurement,
)
    ensures
        row.source_revision != measurement.source_revision ==> !still_fits(
            row,
            expanded_details,
            measurement,
        ),
        row.width_bucket != measurement.width_bucket ==> !still_fits(
            row,
            expanded_details,
            measurement,
        ),
        row.text_phase != measurement.text_phase ==> !still_fits(
            row,
            expanded_details,
            measurement,
        ),
        measurement.details_expanded && (forall|i: int|
            0 <= i < expanded_details.len() ==> (#[trigger] expanded_details[i])@ != row.row_id@)
            ==> !still_fits(row, expanded_details, measurement),
        !measurement.details_expanded && (exists|i: int|
            0 <= i < expanded_details.len() && (#[trigger] expanded_details[i])@ == row.row_id@)
            ==> !still_fits(row, expanded_details, measurement),
        row.source_revision == measurement.source_revision && row.width_bucket
            == measurement.width_bucket && row.text_phase == measurement.text_phase
            && expanded_details.len() == 0 && !measurement.details_expanded ==> still_fits(
            row,
            expanded_details,
            measurement,
        ),
{
    let names = texts(expanded_details);
    if exists|i: int|
        0 <= i < expanded_details.len() && (#[trigger] expanded_details[i])@ == row.row_id@ {
        let i = choose|i: int|
            0 <= i < expanded_details.len() && (#[trigger] expanded_details[i])@ == row.row_id@;
        assert(names[i] == row.row_id@);
    }
    if names.contains(row.row_id@) {
        let i = names.index_of(row.row_id@);
        assert(expanded_details[i]@ == row.row_id@);
    }
}

/// Leaving a session keeps its view as it was left, and only the view of another session
/// may go for it, where there is no room.
pub proof fn law_left_views_are_kept<V, T>(
    views: SessionViews<V, T>,
    previous_session_id: String,
    scroll_top: T,
)
    ensures
        ({
            let kept = left_behind(views, previous_session_id, scroll_top);
            let at = kept_position(kept, previous_session_id@);
            &&& at < kept.len()
            &&& kept[at as int].session_id == previous_session_id
            &&& kept[at as int].viewport == views.viewport
            &&& kept[at as int].scroll_top == scroll_top
            &&& kept[at as int].expanded_details == views.expanded_details
        }),
{
    let room = with_room(views.kept@, previous_session_id@);
    let entry = KeptView {
        session_id: previous_session_id,
        viewport: views.viewport,
        scroll_top,
        expanded_details: views.expanded_details,
    };
    lemma_kept_where_put(room, entry);
}

proof fn lemma_kept_where_put<V, T>(kept: Seq<KeptView<V, T>>, entry: KeptView<V, T>)
    ensures
        ({
            let after = with_kept(kept, entry);
            let at = kept_position(after, entry.session_id@);
            at < after.len() && after[at as int] == entry
        }),
    decreases kept.len(),
{
    let after = with_kept(kept, entry);
    if kept.len() == 0 {
        assert(after[0] == entry);
    } else if kept[0].session_id@ == entry.session_id@ {
        assert(after[0] == entry);
    } else {
        let rest = kept.skip(1);
        lemma_kept_where_put(rest, entry);
        assert(after[0] == kept[0]);
        assert(after.skip(1) =~= with_kept(rest, entry));
        let at = kept_position(with_kept(rest, entry), entry.session_id@);
        assert(after.skip(1)[at as int] == after[at as int + 1]);
    }
}

/// A switch shows the view of the next session as it was left, and a fresh one at the
/// start where there was none.
pub proof fn law_switch_shows_the_view_of_the_next_session<V, T>(
    before: SessionViews<V, T>,
    after: SessionViews<V, T>,
    previous_session_id: String,
    next_session_id: Seq<char>,
    scroll_top: T,
    fresh: V,
    start: T,
)
    requires
        is_switched(
            before,
            after,
            previous_session_id,
            next_session_id,
            scroll_top,
            fresh,
            start,
        ),
    ensures
        ({
            let kept = left_behind(before, previous_session_id, scroll_top);
            let at = kept_position(kept, next_session_id);
            &&& at < kept.len() ==> after.viewport == kept[at as int].viewport
                && after.expanded_details == kept[at as int].expanded_details
                && after.pending_scroll_restore == Some(kept[at as int].scroll_top)
                && after.kept@.len() == kept.len() - 1
            &&& at >= kept.len() ==> after.viewport == fresh && after.expanded_details@.len() == 0
                && after.pending_scroll_restore == Some(start) && after.kept@ == kept
        }),
{
}

/// The views of 256 left sessions are kept at most.
pub proof fn law_kept_views_have_a_size()
    ensures
        MAX_SESSION_VIEW_STATES == 256,
{
}

/// What of the conversation a projection refreshes.
pub open spec fn projection_refresh(
    replaced: bool,
    delta: Option<ProjectionDelta>,
) -> ConversationRefresh {
    if replaced {
        ConversationRefresh::Hydration
    } else {
        match delta {
            Some(delta) => if delta.conversation || delta.tools {
                ConversationRefresh::Content
            } else {
                ConversationRefresh::Nothing
            },
            None => ConversationRefresh::Nothing,
        }
    }
}

/// Whether a projection settles the draft that was submitted.
pub open spec fn settles_draft(
    replaced: bool,
    completes_submitted_prompt: bool,
    active_operation_after: bool,
    draft_submitted: bool,
) -> bool {
    replaced && completes_submitted_prompt && !active_operation_after && draft_submitted
}

/// A new projection is taken in whole, a change of the conversation or its tools row by
/// row, and nothing is refreshed where neither changed.
pub proof fn law_projections_refresh_what_changed(replaced: bool, delta: Option<ProjectionDelta>)
    ensures
        projection_refresh(replaced, delta) is Hydration <==> replaced,
        projection_refresh(replaced, delta) is Content <==> !replaced && delta is Some && (
        delta->0.conversation || delta->0.tools),
        projection_refresh(replaced, None) is Nothing <==> !replaced,
{
}

/// A submitted draft is settled only by a new projection that completes its prompt and
/// leaves nothing running.
pub proof fn law_drafts_settle_with_their_prompt(completes: bool, active: bool, submitted: bool)
    ensures
        !settles_draft(false, completes, active, submitted),
        !settles_draft(true, false, active, submitted),
        !settles_draft(true, completes, true, submitted),
        !settles_draft(true, completes, active, false),
        settles_draft(true, true, false, true),
{
}

/// How the scroll position answers a change of the rows.
pub open spec fn adjusted_scroll(height_changed: bool, follow_latest: bool) -> ScrollAdjustment {
    match (height_changed, follow_latest) {
        (false, _) => ScrollAdjustment::Nothing,
        (true, true) => ScrollAdjustment::AlignToBottom,
        (true, false) => ScrollAdjustment::KeepAnchor,
    }
}

/// How the end of the conversation is brought into view.
pub open spec fn bottom_of(
    block_count: usize,
    viewport_is_known: bool,
    known_heights: usize,
) -> BottomAlignment {
    if block_count == 0 {
        BottomAlignment::Top
    } else if viewport_is_known && known_heights == block_count {
        BottomAlignment::ByHeights
    } else {
        BottomAlignment::ToRow((block_count - 1) as usize)
    }
}

/// A reader who follows the latest row stays at the end, and another stays where they
/// read; nothing moves while no height changes. The end is the last row.
pub proof fn law_readers_stay_where_they_read(
    changed: bool,
    follow: bool,
    block_count: usize,
    viewport_is_known: bool,
    known_heights: usize,
)
    ensures
        adjusted_scroll(changed, follow) is Nothing <==> !changed,
        adjusted_scroll(changed, follow) is AlignToBottom <==> changed && follow,
        adjusted_scroll(changed, follow) is KeepAnchor <==> changed && !follow,
        ({
            let bottom = bottom_of(block_count, viewport_is_known, known_heights);
            &&& bottom is Top <==> block_count == 0
            &&& bottom is ByHeights ==> viewport_is_known && known_heights == block_count
            &&& bottom is ToRow ==> bottom->ToRow_0 + 1 == block_count
            &&& bottom is ToRow <==> block_count > 0 && (!viewport_is_known || known_heights
                != block_count)
        }),
{
}

/// How the height of a row is told.
pub open spec fn height_rule(
    kind: ConversationBlockKind,
    expanded: bool,
    has_text: bool,
    has_detail: bool,
) -> RowHeightRule {
    if !expanded && kind is Assistant && has_detail {
        RowHeightRule::CollapsedText
    } else if !expanded && kind is Tool && (has_text || has_detail) {
        RowHeightRule::CollapsedEmpty
    } else {
        RowHeightRule::Estimated
    }
}

/// Only what is closed is measured as closed: an answer keeps its text, a tool none of
/// it.
pub proof fn law_closed_rows_are_measured_closed(
    kind: ConversationBlockKind,
    expanded: bool,
    has_text: bool,
    has_detail: bool,
)
    ensures
        ({
            let rule = height_rule(kind, expanded, has_text, has_detail);
            &&& rule is CollapsedText <==> !expanded && kind is Assistant && has_detail
            &&& rule is CollapsedEmpty <==> !expanded && kind is Tool && (has_text || has_detail)
            &&& expanded ==> rule is Estimated
        }),
{
}

} // verus!
