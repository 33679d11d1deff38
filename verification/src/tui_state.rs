use vstd::prelude::*;
use std::collections::VecDeque;
use vstd::string::StringExecFns;
use crate::i18n::Language;
use crate::monitor::{MonitorData, MonitorUpdate};
use crate::text::{append_chars, chars_of_str, string_of_chars};

verus! {

/// The terminal front-end's panels.
#[derive(Clone, Copy, PartialEq, Eq, Structural, Debug)]
pub enum Panel {
    Network,
    Usage,
    History,
}

/// The panel after this one, cycling.
pub open spec fn next_panel_spec(p: Panel) -> Panel {
    match p {
        Panel::Network => Panel::Usage,
        Panel::Usage => Panel::History,
        Panel::History => Panel::Network,
    }
}

/// Rows selectable in each panel.
pub open spec fn panel_max_index(p: Panel) -> int {
    match p {
        Panel::Network => 3,
        Panel::Usage => 6,
        Panel::History => 10,
    }
}

/// The language cycled by one.
pub open spec fn next_language_spec(l: Language) -> Language {
    match l {
        Language::English => Language::Chinese,
        Language::Chinese => Language::Japanese,
        Language::Japanese => Language::English,
    }
}

/// The snapshot carried by the last data update of a batch, if any.
pub open spec fn last_data_update(us: Seq<MonitorUpdate>) -> Option<MonitorData>
    decreases us.len(),
{
    if us.len() == 0 {
        None
    } else {
        match us.last() {
            MonitorUpdate::DataUpdate(d) => Some(d),
            _ => last_data_update(us.drop_last()),
        }
    }
}

/// The status ring holds the last five messages.
pub open spec fn push_status(msgs: Seq<Seq<char>>, m: Seq<char>) -> Seq<Seq<char>> {
    if msgs.len() >= 5 {
        msgs.drop_first().push(m)
    } else {
        msgs.push(m)
    }
}

/// The status ring after a batch's first `n` updates: plain status texts, and
/// error texts behind an `Error: ` mark.
pub open spec fn apply_status_updates(
    msgs: Seq<Seq<char>>,
    us: Seq<MonitorUpdate>,
    n: int,
) -> Seq<Seq<char>>
    decreases n,
{
    if n <= 0 {
        msgs
    } else {
        let prev = apply_status_updates(msgs, us, n - 1);
        match us[n - 1] {
            MonitorUpdate::StatusMessage(s) => push_status(prev, s@),
            MonitorUpdate::ErrorMessage(s) => push_status(prev, "Error: "@ + s@),
            _ => prev,
        }
    }
}

/// The terminal front-end's state: the latest snapshot, panel navigation, the
/// chosen language, and a short ring of status messages.
pub struct TuiApp {
    pub monitor_data: MonitorData,
    pub selected_panel: Panel,
    pub selected_index: usize,
    pub current_language: Language,
    pub status_messages: VecDeque<String>,
}

impl TuiApp {
    pub fn new(lang: Language) -> (r: TuiApp)
        ensures
            crate::monitor::is_empty_monitor_data(r.monitor_data),
            r.selected_panel == Panel::Network,
            r.selected_index == 0,
            r.current_language == lang,
            r.status_messages@ == Seq::<String>::empty(),
    {
        TuiApp {
            monitor_data: MonitorData::default(),
            selected_panel: Panel::Network,
            selected_index: 0,
            current_language: lang,
            status_messages: VecDeque::new(),
        }
    }

    fn add_status_message(&mut self, msg: String)
        ensures
            final(self).status_messages.deep_view() == push_status(
                old(self).status_messages.deep_view(),
                msg@,
            ),
            final(self).monitor_data == old(self).monitor_data,
            final(self).selected_panel == old(self).selected_panel,
            final(self).selected_index == old(self).selected_index,
            final(self).current_language == old(self).current_language,
    {
        proof {
            assert(self.status_messages.deep_view().len() == self.status_messages@.len());
        }
        if self.status_messages.len() >= 5 {
            let _ = self.status_messages.pop_front();
            proof {
                assert(self.status_messages.deep_view() =~~= old(
                    self,
                ).status_messages.deep_view().drop_first());
            }
        }
        let ghost mid = self.status_messages.deep_view();
        self.status_messages.push_back(msg);
        proof {
            assert(self.status_messages.deep_view() =~~= mid.push(msg@));
        }
    }

    /// Drain a batch of updates into the state: the last snapshot wins, and
    /// status and error texts join the message ring.
    pub fn update_monitor_data(&mut self, updates: Vec<MonitorUpdate>)
        ensures
            final(self).monitor_data == (match last_data_update(updates@) {
                Some(d) => d,
                None => old(self).monitor_data,
            }),
            final(self).status_messages.deep_view() == apply_status_updates(
                old(self).status_messages.deep_view(),
                updates@,
                updates@.len() as int,
            ),
            final(self).selected_panel == old(self).selected_panel,
            final(self).selected_index == old(self).selected_index,
            final(self).current_language == old(self).current_language,
    {
        let ghost us = updates@;
        let mut updates = updates;
        let mut i: usize = 0;
        let n = updates.len();
        while i < n
            invariant
                n == us.len(),
                i <= n,
                updates@ =~= us.skip(i as int),
                self.monitor_data == (match last_data_update(us.subrange(0, i as int)) {
                    Some(d) => d,
                    None => old(self).monitor_data,
                }),
                self.status_messages.deep_view() == apply_status_updates(
                    old(self).status_messages.deep_view(),
                    us,
                    i as int,
                ),
                self.selected_panel == old(self).selected_panel,
                self.selected_index == old(self).selected_index,
                self.current_language == old(self).current_language,
            decreases n - i,
        {
            let u = updates.remove(0);
            proof {
                assert(us.skip(i as int)[0] == us[i as int]);
                assert(us.skip(i as int).drop_first() =~= us.skip(i as int + 1));
                lemma_last_data_update_step(us, i as int);
            }
            match u {
                MonitorUpdate::DataUpdate(d) => {
                    self.monitor_data = d;
                },
                MonitorUpdate::StatusMessage(s) => {
                    self.add_status_message(s);
                },
                MonitorUpdate::ErrorMessage(s) => {
                    let mut m = chars_of_str("Error: ");
                    let sv = chars_of_str(s.as_str());
                    append_chars(&mut m, &sv);
                    self.add_status_message(string_of_chars(&m));
                },
                MonitorUpdate::LanguageChanged => {},
            }
            i = i + 1;
        }
        proof {
            assert(us.subrange(0, n as int) =~= us);
        }
    }

    /// Move the selection to the next panel, back at its top.
    pub fn next_panel(&mut self)
        ensures
            final(self).selected_panel == next_panel_spec(old(self).selected_panel),
            final(self).selected_index == 0,
            final(self).monitor_data == old(self).monitor_data,
            final(self).current_language == old(self).current_language,
            final(self).status_messages == old(self).status_messages,
    {
        self.selected_panel = match self.selected_panel {
            Panel::Network => Panel::Usage,
            Panel::Usage => Panel::History,
            Panel::History => Panel::Network,
        };
        self.selected_index = 0;
    }

    pub fn on_up(&mut self)
        ensures
            final(self).selected_index == (if old(self).selected_index > 0 {
                old(self).selected_index - 1
            } else {
                0int
            }),
            final(self).selected_panel == old(self).selected_panel,
            final(self).monitor_data == old(self).monitor_data,
            final(self).current_language == old(self).current_language,
            final(self).status_messages == old(self).status_messages,
    {
        if self.selected_index > 0 {
            self.selected_index = self.selected_index - 1;
        }
    }

    pub fn on_down(&mut self)
        ensures
            final(self).selected_index == (if old(self).selected_index < panel_max_index(
                old(self).selected_panel,
            ) {
                old(self).selected_index + 1
            } else {
                old(self).selected_index as int
            }),
            final(self).selected_panel == old(self).selected_panel,
            final(self).monitor_data == old(self).monitor_data,
            final(self).current_language == old(self).current_language,
            final(self).status_messages == old(self).status_messages,
    {
        let max_index: usize = match self.selected_panel {
            Panel::Network => 3,
            Panel::Usage => 6,
            Panel::History => 10,
        };
        if self.selected_index < max_index {
            self.selected_index = self.selected_index + 1;
        }
    }

    /// Switch to the next language; the caller syncs its language store.
    pub fn cycle_language(&mut self) -> (lang: Language)
        ensures
            final(self).current_language == next_language_spec(old(self).current_language),
            lang == final(self).current_language,
            final(self).selected_panel == old(self).selected_panel,
            final(self).selected_index == old(self).selected_index,
            final(self).monitor_data == old(self).monitor_data,
            final(self).status_messages == old(self).status_messages,
    {
        self.current_language = match self.current_language {
            Language::English => Language::Chinese,
            Language::Chinese => Language::Japanese,
            Language::Japanese => Language::English,
        };
        self.current_language
    }
}

proof fn lemma_last_data_update_step(us: Seq<MonitorUpdate>, i: int)
    requires
        0 <= i < us.len(),
    ensures
        last_data_update(us.subrange(0, i + 1)) == (match us[i] {
            MonitorUpdate::DataUpdate(d) => Some(d),
            _ => last_data_update(us.subrange(0, i)),
        }),
{
    let a = us.subrange(0, i + 1);
    assert(a.last() == us[i]);
    assert(a.drop_last() =~= us.subrange(0, i));
}

} // verus!
