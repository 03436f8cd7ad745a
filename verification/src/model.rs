//! The mathematical model of the dashboard state and of every operation
//! on it. Each executable method of [`crate::state::AppState`] promises
//! in its `ensures` that the new state's view equals the corresponding
//! transition applied to the old view; the laws in [`crate::laws`] are
//! proved purely over these transitions.

use vstd::prelude::*;

use crate::filter::accepts;
use crate::filter::regex_compiles;
use crate::types::subject_of;
use crate::types::LogView;
use crate::types::StatsView;

verus! {

/// Capacity bound of the log buffer.
pub const MAX_LOGS: usize = 500;

/// Interaction mode: navigating the buffer, or editing the filter text.
#[derive(Debug, Clone, Copy, PartialEq, Eq, Structural)]
pub enum InputMode {
    Normal,
    Editing,
}

/// A key press, already decoded from the terminal's event type.
#[derive(Debug, Clone, Copy, PartialEq, Eq, Structural)]
pub enum Key {
    Char(char),
    Up,
    Down,
    Esc,
    Enter,
    Backspace,
    Other,
}

/// What the event loop must do after a key press is applied: nothing
/// further, stop, or copy the selected record's message to the
/// clipboard sink.
#[derive(Debug, Clone, Copy, PartialEq, Eq, Structural)]
pub enum KeyAction {
    NoOp,
    Quit,
    CopySelected,
}

/// Mathematical view of the whole dashboard state. `logs` is newest
/// first; `filter` holds the pattern of the compiled matcher when one
/// is present.
#[verifier::ext_equal]
pub struct StateView {
    pub logs: Seq<LogView>,
    pub stats: Option<StatsView>,
    pub selected: Option<int>,
    pub filter_text: Seq<char>,
    pub filter: Option<Seq<char>>,
    pub editing_text: Seq<char>,
    pub mode: InputMode,
}

/// Well-formedness: the buffer respects its capacity and a selection,
/// when present, is a valid index.
pub open spec fn wf_model(m: StateView) -> bool {
    &&& m.logs.len() <= MAX_LOGS
    &&& (m.selected matches Some(i) ==> 0 <= i < m.logs.len())
}

/// The state at process start: everything empty, no selection, no
/// filter, normal mode.
pub open spec fn init_model() -> StateView {
    StateView {
        logs: Seq::empty(),
        stats: None,
        selected: None,
        filter_text: Seq::empty(),
        filter: None,
        editing_text: Seq::empty(),
        mode: InputMode::Normal,
    }
}

/// Admitting a record: prepend it, shift the selection with the entry
/// it points at, evict the oldest record when over capacity and clamp
/// the selection to the last index when the eviction removed its entry.
pub open spec fn add_log_model(m: StateView, e: LogView) -> StateView {
    let grown = seq![e] + m.logs;
    let shifted = match m.selected {
        None => None,
        Some(i) => Some(i + 1),
    };
    if grown.len() > MAX_LOGS {
        let trimmed = grown.drop_last();
        StateView {
            logs: trimmed,
            selected: match shifted {
                None => None,
                Some(i) => if i >= trimmed.len() {
                    Some(trimmed.len() - 1)
                } else {
                    Some(i)
                },
            },
            ..m
        }
    } else {
        StateView { logs: grown, selected: shifted, ..m }
    }
}

/// Moving the selection toward older entries: selects the newest entry
/// when nothing is selected, clamps at the last index, does nothing on
/// an empty buffer.
pub open spec fn select_next_model(m: StateView) -> StateView {
    if m.logs.len() == 0 {
        m
    } else {
        let i = match m.selected {
            None => 0,
            Some(i) => if i >= m.logs.len() - 1 {
                i
            } else {
                i + 1
            },
        };
        StateView { selected: Some(i), ..m }
    }
}

/// Moving the selection toward newer entries: saturates at index 0,
/// does nothing on an empty buffer or without a selection.
pub open spec fn select_previous_model(m: StateView) -> StateView {
    if m.logs.len() == 0 {
        m
    } else {
        match m.selected {
            None => m,
            Some(i) => StateView {
                selected: Some(if i <= 0 { 0 } else { i - 1 }),
                ..m
            },
        }
    }
}

/// Clearing the selection, returning the view to tracking the newest
/// entry.
pub open spec fn unselect_model(m: StateView) -> StateView {
    StateView { selected: None, ..m }
}

/// Replacing the stats snapshot wholesale.
pub open spec fn update_stats_model(m: StateView, s: StatsView) -> StateView {
    StateView { stats: Some(s), ..m }
}

/// Committing a filter text: a matcher is present afterwards exactly
/// when the text is non-empty and compiles; an empty or invalid pattern
/// leaves the filter permissive.
pub open spec fn set_filter_model(m: StateView, text: Seq<char>) -> StateView {
    StateView {
        filter_text: text,
        filter: if text.len() > 0 && regex_compiles(text) {
            Some(text)
        } else {
            None
        },
        ..m
    }
}

/// Entering editing mode with the committed filter text as the initial
/// edit buffer.
pub open spec fn start_editing_model(m: StateView) -> StateView {
    StateView { editing_text: m.filter_text, mode: InputMode::Editing, ..m }
}

/// Committing the edit buffer as the new filter and returning to normal
/// mode.
pub open spec fn submit_editing_model(m: StateView) -> StateView {
    let committed = set_filter_model(m, m.editing_text);
    StateView { editing_text: Seq::empty(), mode: InputMode::Normal, ..committed }
}

/// Discarding the edit buffer and returning to normal mode; the
/// committed filter is untouched.
pub open spec fn cancel_editing_model(m: StateView) -> StateView {
    StateView { editing_text: Seq::empty(), mode: InputMode::Normal, ..m }
}

/// Appending one character to the edit buffer.
pub open spec fn insert_char_model(m: StateView, c: char) -> StateView {
    StateView { editing_text: m.editing_text.push(c), ..m }
}

/// Removing the last character of the edit buffer, if any.
pub open spec fn delete_char_model(m: StateView) -> StateView {
    StateView {
        editing_text: if m.editing_text.len() == 0 {
            m.editing_text
        } else {
            m.editing_text.drop_last()
        },
        ..m
    }
}

/// Ingesting a record from the log channel: admitted exactly when the
/// current filter accepts its match subject.
pub open spec fn ingest_log_model(m: StateView, e: LogView) -> StateView {
    if accepts(m.filter, subject_of(e)) {
        add_log_model(m, e)
    } else {
        m
    }
}

/// Ingesting a stats payload: the first element replaces the snapshot,
/// the rest is discarded; an empty payload changes nothing.
pub open spec fn ingest_stats_model(m: StateView, list: Seq<StatsView>) -> StateView {
    if list.len() > 0 {
        update_stats_model(m, list[0])
    } else {
        m
    }
}

/// The state after one key press: navigation, unselect and
/// enter-editing work in normal mode; edit, submit and cancel work in
/// editing mode; everything else leaves the state unchanged.
pub open spec fn handle_key_model(m: StateView, k: Key) -> StateView {
    match m.mode {
        InputMode::Normal => match k {
            Key::Up => select_previous_model(m),
            Key::Down => select_next_model(m),
            Key::Esc => unselect_model(m),
            Key::Char(c) => if c == 'k' {
                select_previous_model(m)
            } else if c == 'j' {
                select_next_model(m)
            } else if c == 'i' {
                start_editing_model(m)
            } else {
                m
            },
            _ => m,
        },
        InputMode::Editing => match k {
            Key::Esc => cancel_editing_model(m),
            Key::Enter => submit_editing_model(m),
            Key::Backspace => delete_char_model(m),
            Key::Char(c) => insert_char_model(m, c),
            _ => m,
        },
    }
}

/// The action a key press asks of the event loop: quit and copy exist
/// only in normal mode.
pub open spec fn key_action_model(m: StateView, k: Key) -> KeyAction {
    match m.mode {
        InputMode::Normal => match k {
            Key::Char(c) => if c == 'q' {
                KeyAction::Quit
            } else if c == 'c' {
                KeyAction::CopySelected
            } else {
                KeyAction::NoOp
            },
            _ => KeyAction::NoOp,
        },
        InputMode::Editing => KeyAction::NoOp,
    }
}

} // verus!
