//! The single shared mutable object of the dashboard and every
//! operation that mutates it. Each method's `ensures` ties the new
//! state's view to the corresponding transition of [`crate::model`].

use vstd::prelude::*;
use vstd::string::StringExecFns;

use std::collections::VecDeque;

use crate::filter::regex_is_match;
use crate::filter::regex_new;
use crate::filter::regex_source;
use crate::model::add_log_model;
use crate::model::cancel_editing_model;
use crate::model::delete_char_model;
use crate::model::handle_key_model;
use crate::model::ingest_log_model;
use crate::model::ingest_stats_model;
use crate::model::init_model;
use crate::model::insert_char_model;
use crate::model::key_action_model;
use crate::model::select_next_model;
use crate::model::select_previous_model;
use crate::model::set_filter_model;
use crate::model::start_editing_model;
use crate::model::submit_editing_model;
use crate::model::unselect_model;
use crate::model::update_stats_model;
use crate::model::wf_model;
use crate::model::InputMode;
use crate::model::Key;
use crate::model::KeyAction;
use crate::model::StateView;
use crate::model::MAX_LOGS;
use crate::types::AggregatedStats;
use crate::types::LogEntry;

verus! {

/// Relies on `String::push`: appends the given char to the end of the
/// string.
pub assume_specification[ String::push ](s: &mut String, ch: char)
    ensures
        final(s)@ == old(s)@.push(ch),
;

/// Relies on `String::pop`: removes and returns the last char, or
/// returns None and leaves the string unchanged when it is empty.
pub assume_specification[ String::pop ](s: &mut String) -> (r: Option<char>)
    ensures
        old(s)@.len() == 0 ==> r is None && final(s)@ == old(s)@,
        old(s)@.len() > 0 ==> r == Some(old(s)@.last()) && final(s)@ == old(s)@.drop_last(),
;

/// The whole dashboard state: the bounded newest-first log buffer with
/// its selection, the latest stats snapshot, the committed filter and
/// its compiled matcher, and the input-mode state machine's fields.
#[derive(Debug)]
pub struct AppState {
    pub logs: VecDeque<LogEntry>,
    pub latest_stats: Option<AggregatedStats>,
    pub selected_log_index: Option<usize>,
    pub filter_text: String,
    pub filter_regex: Option<regex::Regex>,
    pub editing_text: String,
    pub input_mode: InputMode,
}

impl View for AppState {
    type V = StateView;

    open spec fn view(&self) -> StateView {
        StateView {
            logs: self.logs@.map_values(|e: LogEntry| e@),
            stats: match self.latest_stats {
                Some(s) => Some(s@),
                None => None,
            },
            selected: match self.selected_log_index {
                Some(i) => Some(i as int),
                None => None,
            },
            filter_text: self.filter_text@,
            filter: match self.filter_regex {
                Some(re) => Some(regex_source(re)),
                None => None,
            },
            editing_text: self.editing_text@,
            mode: self.input_mode,
        }
    }
}

impl AppState {
    /// Well-formedness carried by every method: capacity respected,
    /// selection a valid index.
    pub open spec fn wf(&self) -> bool {
        wf_model(self@)
    }

    /// The initial state: empty buffer, no stats, no selection, no
    /// filter, normal mode.
    pub fn new() -> (s: Self)
        ensures
            s.wf(),
            s@ == init_model(),
    {
        let s = AppState {
            logs: VecDeque::with_capacity(MAX_LOGS),
            latest_stats: None,
            selected_log_index: None,
            filter_text: String::new(),
            filter_regex: None,
            editing_text: String::new(),
            input_mode: InputMode::Normal,
        };
        proof {
            assert(s@ =~= init_model());
        }
        s
    }

    /// Admits a record at the front of the buffer, shifting the
    /// selection with its entry, evicting the oldest record when over
    /// capacity and clamping the selection when its entry was evicted.
    pub fn add_log(&mut self, entry: LogEntry)
        requires
            old(self).wf(),
        ensures
            final(self).wf(),
            final(self)@ == add_log_model(old(self)@, entry@),
    {
        let ghost m = old(self)@;
        let ghost e = entry@;
        self.logs.push_front(entry);
        proof {
            assert(self.logs@.map_values(|x: LogEntry| x@) =~= seq![e] + m.logs);
        }
        if let Some(i) = self.selected_log_index {
            self.selected_log_index = Some(i + 1);
        }
        if self.logs.len() > MAX_LOGS {
            let ghost grown = self.logs@.map_values(|x: LogEntry| x@);
            self.logs.pop_back();
            proof {
                assert(self.logs@.map_values(|x: LogEntry| x@) =~= grown.drop_last());
            }
            if let Some(i) = self.selected_log_index {
                if i >= self.logs.len() {
                    self.selected_log_index = Some(self.logs.len() - 1);
                }
            }
        }
        proof {
            assert(self@ =~= add_log_model(m, e));
        }
    }

    /// Replaces the stats snapshot wholesale; nothing else changes.
    pub fn update_stats(&mut self, stats: AggregatedStats)
        requires
            old(self).wf(),
        ensures
            final(self).wf(),
            final(self)@ == update_stats_model(old(self)@, stats@),
    {
        let ghost m = old(self)@;
        self.latest_stats = Some(stats);
        proof {
            assert(self@ =~= update_stats_model(m, self.latest_stats->Some_0@));
        }
    }

    /// Moves the selection one entry toward older records, selecting
    /// the newest when nothing is selected; no-op on an empty buffer.
    pub fn select_next_log(&mut self)
        requires
            old(self).wf(),
        ensures
            final(self).wf(),
            final(self)@ == select_next_model(old(self)@),
    {
        let ghost m = old(self)@;
        if self.logs.len() == 0 {
            return ;
        }

        let i: usize = match self.selected_log_index {
            None => 0,
            Some(i) => {
                if i >= self.logs.len() - 1 {
                    i
                } else {
                    i + 1
                }
            },
        };
        self.selected_log_index = Some(i);
        proof {
            assert(self@ =~= select_next_model(m));
        }
    }

    /// Moves the selection one entry toward newer records, saturating
    /// at the newest; no-op on an empty buffer or without a selection.
    pub fn select_previous_log(&mut self)
        requires
            old(self).wf(),
        ensures
            final(self).wf(),
            final(self)@ == select_previous_model(old(self)@),
    {
        let ghost m = old(self)@;
        if self.logs.len() == 0 {
            return ;
        }

        if let Some(i) = self.selected_log_index {
            self.selected_log_index = Some(if i == 0 {
                0
            } else {
                i - 1
            });
        }
        proof {
            assert(self@ =~= select_previous_model(m));
        }
    }

    /// Clears the selection unconditionally.
    pub fn unselect_log(&mut self)
        requires
            old(self).wf(),
        ensures
            final(self).wf(),
            final(self)@ == unselect_model(old(self)@),
    {
        let ghost m = old(self)@;
        self.selected_log_index = None;
        proof {
            assert(self@ =~= unselect_model(m));
        }
    }

    /// Commits a filter text: compiles it when non-empty; an empty or
    /// invalid pattern leaves the filter permissive.
    pub fn set_filter(&mut self, text: String)
        requires
            old(self).wf(),
        ensures
            final(self).wf(),
            final(self)@ == set_filter_model(old(self)@, text@),
    {
        let ghost m = old(self)@;
        self.filter_text = text.clone();
        if text.as_str().is_empty() {
            self.filter_regex = None;
        } else {
            self.filter_regex = regex_new(text.as_str());
        }
        proof {
            assert(self@ =~= set_filter_model(m, text@));
        }
    }

    /// Enters editing mode with the committed filter text as the edit
    /// buffer.
    pub fn start_editing(&mut self)
        requires
            old(self).wf(),
        ensures
            final(self).wf(),
            final(self)@ == start_editing_model(old(self)@),
    {
        let ghost m = old(self)@;
        self.editing_text = self.filter_text.clone();
        self.input_mode = InputMode::Editing;
        proof {
            assert(self@ =~= start_editing_model(m));
        }
    }

    /// Commits the edit buffer as the new filter, clears it and returns
    /// to normal mode.
    pub fn submit_editing(&mut self)
        requires
            old(self).wf(),
        ensures
            final(self).wf(),
            final(self)@ == submit_editing_model(old(self)@),
    {
        let ghost m = old(self)@;
        let text = self.editing_text.clone();
        self.set_filter(text);
        self.editing_text = String::new();
        self.input_mode = InputMode::Normal;
        proof {
            assert(self@ =~= submit_editing_model(m));
        }
    }

    /// Discards the edit buffer and returns to normal mode; the
    /// committed filter is untouched.
    pub fn cancel_editing(&mut self)
        requires
            old(self).wf(),
        ensures
            final(self).wf(),
            final(self)@ == cancel_editing_model(old(self)@),
    {
        let ghost m = old(self)@;
        self.editing_text = String::new();
        self.input_mode = InputMode::Normal;
        proof {
            assert(self@ =~= cancel_editing_model(m));
        }
    }

    /// Appends one character to the edit buffer.
    pub fn insert_char(&mut self, c: char)
        requires
            old(self).wf(),
        ensures
            final(self).wf(),
            final(self)@ == insert_char_model(old(self)@, c),
    {
        let ghost m = old(self)@;
        self.editing_text.push(c);
        proof {
            assert(self@ =~= insert_char_model(m, c));
        }
    }

    /// Removes the last character of the edit buffer, if any.
    pub fn delete_char(&mut self)
        requires
            old(self).wf(),
        ensures
            final(self).wf(),
            final(self)@ == delete_char_model(old(self)@),
    {
        let ghost m = old(self)@;
        let _ = self.editing_text.pop();
        proof {
            assert(self@ =~= delete_char_model(m));
        }
    }

    /// The message of the selected record, present exactly when a
    /// selection exists.
    pub fn selected_message(&self) -> (r: Option<String>)
        requires
            self.wf(),
        ensures
            match self@.selected {
                None => r is None,
                Some(i) => r matches Some(msg) && msg@ == self@.logs[i].message,
            },
    {
        match self.selected_log_index {
            None => None,
            Some(i) => Some(self.logs[i].message.clone()),
        }
    }

    /// Ingests a record from the log channel: admitted exactly when the
    /// current filter accepts its match subject.
    pub fn ingest_log(&mut self, entry: LogEntry)
        requires
            old(self).wf(),
        ensures
            final(self).wf(),
            final(self)@ == ingest_log_model(old(self)@, entry@),
    {
        let subject = entry.match_subject();
        let should_add = match &self.filter_regex {
            Some(re) => regex_is_match(re, subject.as_str()),
            None => true,
        };
        if should_add {
            self.add_log(entry);
        }
    }

    /// Ingests a stats payload: the first element replaces the
    /// snapshot, the rest is discarded; an empty payload changes
    /// nothing.
    pub fn ingest_stats(&mut self, stats: Vec<AggregatedStats>)
        requires
            old(self).wf(),
        ensures
            final(self).wf(),
            final(self)@ == ingest_stats_model(
                old(self)@,
                stats@.map_values(|s: AggregatedStats| s@),
            ),
    {
        let mut stats = stats;
        if stats.len() > 0 {
            let first = stats.remove(0);
            self.update_stats(first);
        }
    }

    /// Applies one key press: dispatches through the input mode,
    /// mutates the state as the model says, and reports whether the
    /// event loop must quit or copy the selected message.
    pub fn handle_key(&mut self, key: Key) -> (act: KeyAction)
        requires
            old(self).wf(),
        ensures
            final(self).wf(),
            final(self)@ == handle_key_model(old(self)@, key),
            act == key_action_model(old(self)@, key),
    {
        match self.input_mode {
            InputMode::Normal => match key {
                Key::Char(c) => {
                    if c == 'q' {
                        KeyAction::Quit
                    } else if c == 'k' {
                        self.select_previous_log();
                        KeyAction::NoOp
                    } else if c == 'j' {
                        self.select_next_log();
                        KeyAction::NoOp
                    } else if c == 'i' {
                        self.start_editing();
                        KeyAction::NoOp
                    } else if c == 'c' {
                        KeyAction::CopySelected
                    } else {
                        KeyAction::NoOp
                    }
                },
                Key::Up => {
                    self.select_previous_log();
                    KeyAction::NoOp
                },
                Key::Down => {
                    self.select_next_log();
                    KeyAction::NoOp
                },
                Key::Esc => {
                    self.unselect_log();
                    KeyAction::NoOp
                },
                _ => KeyAction::NoOp,
            },
            InputMode::Editing => match key {
                Key::Esc => {
                    self.cancel_editing();
                    KeyAction::NoOp
                },
                Key::Enter => {
                    self.submit_editing();
                    KeyAction::NoOp
                },
                Key::Backspace => {
                    self.delete_char();
                    KeyAction::NoOp
                },
                Key::Char(c) => {
                    self.insert_char(c);
                    KeyAction::NoOp
                },
                _ => KeyAction::NoOp,
            },
        }
    }
}

} // verus!
