//! The laws of the dashboard core, proved over the transitions of
//! [`crate::model`]: the buffer stays bounded and evicts only the
//! oldest record, the selection stays on its logical entry across any
//! number of insertions until that entry is evicted, navigation stays
//! in bounds, an invalid filter pattern degrades to a permissive
//! filter, and keys pressed while editing never touch the buffer or
//! the selection.

use vstd::prelude::*;

use crate::filter::accepts;
use crate::filter::regex_compiles;
use crate::model::add_log_model;
use crate::model::handle_key_model;
use crate::model::select_next_model;
use crate::model::select_previous_model;
use crate::model::set_filter_model;
use crate::model::wf_model;
use crate::model::InputMode;
use crate::model::Key;
use crate::model::StateView;
use crate::model::MAX_LOGS;
use crate::types::LogView;

verus! {

/// The state after admitting a whole sequence of records, first
/// element first.
pub open spec fn add_logs_model(m: StateView, entries: Seq<LogView>) -> StateView
    decreases entries.len(),
{
    if entries.len() == 0 {
        m
    } else {
        add_logs_model(add_log_model(m, entries[0]), entries.drop_first())
    }
}

/// One admission preserves well-formedness.
pub proof fn lemma_add_log_wf(m: StateView, e: LogView)
    requires
        wf_model(m),
    ensures
        wf_model(add_log_model(m, e)),
{
}

/// Bounded buffer: admitting any sequence of records never takes the
/// buffer over its capacity.
pub proof fn lemma_buffer_bounded(m: StateView, entries: Seq<LogView>)
    requires
        wf_model(m),
    ensures
        wf_model(add_logs_model(m, entries)),
        add_logs_model(m, entries).logs.len() <= MAX_LOGS,
    decreases entries.len(),
{
    if entries.len() > 0 {
        lemma_add_log_wf(m, entries[0]);
        lemma_buffer_bounded(add_log_model(m, entries[0]), entries.drop_first());
    }
}

/// Eviction removes exactly the oldest record still present: below
/// capacity an admission only prepends; at capacity it prepends and
/// drops the last (oldest) entry, keeping every other entry in order.
pub proof fn lemma_eviction_removes_oldest(m: StateView, e: LogView)
    requires
        wf_model(m),
    ensures
        m.logs.len() < MAX_LOGS ==> add_log_model(m, e).logs == seq![e] + m.logs,
        m.logs.len() == MAX_LOGS ==> add_log_model(m, e).logs == seq![e] + m.logs.drop_last(),
{
    if m.logs.len() < MAX_LOGS {
        assert(add_log_model(m, e).logs =~= seq![e] + m.logs);
    } else {
        assert(add_log_model(m, e).logs =~= seq![e] + m.logs.drop_last());
    }
}

/// One admission moves a selection with its entry, or clamps it to the
/// last index when its entry was the one evicted.
pub proof fn lemma_add_log_selection(m: StateView, e: LogView)
    requires
        wf_model(m),
        m.selected is Some,
    ensures
        ({
            let m1 = add_log_model(m, e);
            let i = m.selected->Some_0;
            &&& m1.selected is Some
            &&& i + 1 < MAX_LOGS ==> m1.selected == Some(i + 1) && m1.logs[i + 1] == m.logs[i]
            &&& i + 1 >= MAX_LOGS ==> m1.selected == Some(m1.logs.len() - 1)
                && m1.logs.len() == MAX_LOGS
        }),
{
}

/// Selection stability: with a selection on the logical entry at index
/// `i`, admitting any sequence of `k` further records leaves the
/// selection on that same entry (now at index `i + k`) as long as it
/// has not been evicted; once it has been (`i + k` past the capacity),
/// the selection sits clamped on the last, oldest index.
pub proof fn lemma_selection_stable(m: StateView, entries: Seq<LogView>)
    requires
        wf_model(m),
        m.selected is Some,
    ensures
        ({
            let m2 = add_logs_model(m, entries);
            let i = m.selected->Some_0;
            let k = entries.len() as int;
            &&& m2.selected is Some
            &&& i + k < MAX_LOGS ==> m2.selected == Some(i + k) && m2.logs[i + k] == m.logs[i]
            &&& i + k >= MAX_LOGS ==> m2.selected == Some(m2.logs.len() - 1)
                && m2.logs.len() == MAX_LOGS
        }),
    decreases entries.len(),
{
    if entries.len() > 0 {
        let m1 = add_log_model(m, entries[0]);
        lemma_add_log_wf(m, entries[0]);
        lemma_add_log_selection(m, entries[0]);
        lemma_selection_stable(m1, entries.drop_first());
    }
}

/// Navigation bounds: moving the selection in either direction keeps
/// it a valid index — never negative, never past the last entry — and
/// both moves are no-ops on an empty buffer.
pub proof fn lemma_navigation_bounds(m: StateView)
    requires
        wf_model(m),
    ensures
        wf_model(select_next_model(m)),
        wf_model(select_previous_model(m)),
        select_next_model(m).selected matches Some(i) ==> 0 <= i < m.logs.len(),
        select_previous_model(m).selected matches Some(i) ==> 0 <= i < m.logs.len(),
        m.logs.len() == 0 ==> select_next_model(m) == m && select_previous_model(m) == m,
{
}

/// Filter fallback: committing an empty or invalid pattern leaves a
/// filter state that accepts every subject — not an error state and
/// not the previously active filter.
pub proof fn lemma_filter_fallback(m: StateView, text: Seq<char>, subject: Seq<char>)
    ensures
        text.len() == 0 || !regex_compiles(text) ==> set_filter_model(m, text).filter is None
            && accepts(set_filter_model(m, text).filter, subject),
{
}

/// Mode isolation: while in editing mode, no key press mutates the log
/// buffer, the selection, or the stats snapshot.
pub proof fn lemma_mode_isolation(m: StateView, k: Key)
    requires
        m.mode == InputMode::Editing,
    ensures
        handle_key_model(m, k).logs == m.logs,
        handle_key_model(m, k).selected == m.selected,
        handle_key_model(m, k).stats == m.stats,
{
}

} // verus!
