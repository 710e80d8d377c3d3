//! The order in which icon extraction tries each candidate source. For each
//! candidate: the icon resource at its index, or else the shell's large
//! icon; that icon encoded; then the shell's small icon, encoded. The first
//! successful encoding ends the search. The caller performs each action and
//! reports what came of it.

use vstd::prelude::*;

verus! {

#[derive(Debug, Clone, Copy, PartialEq, Eq)]
pub enum SearchPhase {
    /// Extracting the icon resource of the current candidate.
    Resource,
    /// Asking the shell for the current candidate's large icon.
    ShellLarge,
    /// Encoding the icon found by one of the two steps above.
    EncodeFirst,
    /// Asking the shell for the current candidate's small icon.
    ShellSmall,
    /// Encoding the small icon.
    EncodeSecond,
    /// Finished.
    Done,
}

/// What came of the last action.
#[derive(Debug, PartialEq, Eq)]
pub enum IconEvent {
    /// An extraction or shell lookup produced a usable icon, or not.
    Found(bool),
    /// Encoding the icon produced this data URL, or failed.
    Encoded(Option<String>),
}

/// What the caller does next.
#[derive(Debug, PartialEq, Eq)]
pub enum IconAction {
    ExtractResource { source: String, index: i32 },
    ShellIcon { source: String, large: bool },
    Encode,
    Finish(Result<String, String>),
}

/// The state of one icon search.
pub struct IconSearch {
    candidates: Vec<(String, i32)>,
    current: usize,
    phase: SearchPhase,
}

pub open spec fn icon_not_found_message() -> Seq<char> {
    "提取图标失败，可能是图标资源不存在或不可读取"@
}

/// Whether the event counts as success in the given phase.
pub open spec fn event_succeeds(phase: SearchPhase, event: IconEvent) -> bool {
    match phase {
        SearchPhase::Resource | SearchPhase::ShellLarge | SearchPhase::ShellSmall => event
            == IconEvent::Found(true),
        SearchPhase::EncodeFirst | SearchPhase::EncodeSecond => event matches IconEvent::Encoded(
            Some(_),
        ),
        SearchPhase::Done => false,
    }
}

/// Moving on to the next candidate, or finishing when there is none.
pub open spec fn advance(current: int, len: int) -> (SearchPhase, int) {
    if current + 1 < len {
        (SearchPhase::Resource, current + 1)
    } else {
        (SearchPhase::Done, current)
    }
}

/// The phase and candidate after an event.
pub open spec fn next_state(phase: SearchPhase, current: int, len: int, success: bool) -> (
    SearchPhase,
    int,
) {
    match phase {
        SearchPhase::Resource => if success {
            (SearchPhase::EncodeFirst, current)
        } else {
            (SearchPhase::ShellLarge, current)
        },
        SearchPhase::ShellLarge => if success {
            (SearchPhase::EncodeFirst, current)
        } else {
            (SearchPhase::ShellSmall, current)
        },
        SearchPhase::EncodeFirst => if success {
            (SearchPhase::Done, current)
        } else {
            (SearchPhase::ShellSmall, current)
        },
        SearchPhase::ShellSmall => if success {
            (SearchPhase::EncodeSecond, current)
        } else {
            advance(current, len)
        },
        SearchPhase::EncodeSecond => if success {
            (SearchPhase::Done, current)
        } else {
            advance(current, len)
        },
        SearchPhase::Done => (SearchPhase::Done, current),
    }
}

/// The data URL that the event reports, when it ends the search.
pub open spec fn finishing_url(phase: SearchPhase, event: IconEvent) -> Option<Seq<char>> {
    match (phase, event) {
        (SearchPhase::EncodeFirst, IconEvent::Encoded(Some(u))) => Some(u@),
        (SearchPhase::EncodeSecond, IconEvent::Encoded(Some(u))) => Some(u@),
        _ => None,
    }
}

/// The action that goes with a phase and candidate.
pub open spec fn is_action_for(
    a: IconAction,
    c: Seq<(String, i32)>,
    phase: SearchPhase,
    current: int,
    url: Option<Seq<char>>,
) -> bool {
    match phase {
        SearchPhase::Resource => a matches IconAction::ExtractResource { source, index } && source@
            == c[current].0@ && index == c[current].1,
        SearchPhase::ShellLarge => a matches IconAction::ShellIcon { source, large } && source@
            == c[current].0@ && large,
        SearchPhase::ShellSmall => a matches IconAction::ShellIcon { source, large } && source@
            == c[current].0@ && !large,
        SearchPhase::EncodeFirst | SearchPhase::EncodeSecond => a == IconAction::Encode,
        SearchPhase::Done => match url {
            Some(u) => a matches IconAction::Finish(Ok(v)) && v@ == u,
            None => a matches IconAction::Finish(Err(m)) && m@ == icon_not_found_message(),
        },
    }
}

/// Steps left at most: five per candidate not yet finished.
pub open spec fn search_measure(phase: SearchPhase, current: int, len: int) -> int {
    match phase {
        SearchPhase::Resource => 5 * (len - current),
        SearchPhase::ShellLarge => 5 * (len - current) - 1,
        SearchPhase::EncodeFirst => 5 * (len - current) - 2,
        SearchPhase::ShellSmall => 5 * (len - current) - 3,
        SearchPhase::EncodeSecond => 5 * (len - current) - 4,
        SearchPhase::Done => 0,
    }
}

/// Every event of an unfinished search lowers its measure, which never
/// goes below zero: the search ends after at most five events per
/// candidate.
pub proof fn lemma_icon_search_progresses(
    phase: SearchPhase,
    current: int,
    len: int,
    success: bool,
)
    requires
        phase != SearchPhase::Done,
        0 <= current < len,
    ensures
        ({
            let (p, c) = next_state(phase, current, len, success);
            &&& 0 <= search_measure(p, c, len) < search_measure(phase, current, len)
            &&& p != SearchPhase::Done ==> 0 <= c < len
        }),
{
}

/// An icon that extraction or the shell found is always encoded next, for
/// the same source; only a failed step moves on.
pub proof fn lemma_found_icon_is_encoded(current: int, len: int)
    ensures
        next_state(SearchPhase::Resource, current, len, true) == (SearchPhase::EncodeFirst, current),
        next_state(SearchPhase::ShellLarge, current, len, true) == (
            SearchPhase::EncodeFirst,
            current,
        ),
        next_state(SearchPhase::ShellSmall, current, len, true) == (
            SearchPhase::EncodeSecond,
            current,
        ),
        next_state(SearchPhase::Resource, current, len, false) == (
            SearchPhase::ShellLarge,
            current,
        ),
        next_state(SearchPhase::ShellLarge, current, len, false) == (
            SearchPhase::ShellSmall,
            current,
        ),
        next_state(SearchPhase::EncodeFirst, current, len, false) == (
            SearchPhase::ShellSmall,
            current,
        ),
        next_state(SearchPhase::EncodeFirst, current, len, true).0 == SearchPhase::Done,
        next_state(SearchPhase::EncodeSecond, current, len, true).0 == SearchPhase::Done,
{
}

impl IconSearch {
    #[verifier::type_invariant]
    spec fn well_formed(self) -> bool {
        self.phase != SearchPhase::Done ==> self.current < self.candidates@.len()
    }

    pub closed spec fn candidates_view(&self) -> Seq<(String, i32)> {
        self.candidates@
    }

    pub closed spec fn current_view(&self) -> int {
        self.current as int
    }

    pub closed spec fn phase_view(&self) -> SearchPhase {
        self.phase
    }

    /// The phase the search is in.
    pub fn phase(&self) -> (p: SearchPhase)
        ensures
            p == self.phase_view(),
    {
        self.phase
    }

    /// Starts a search over the candidates, in order.
    pub fn start(candidates: Vec<(String, i32)>) -> (r: (IconSearch, IconAction))
        ensures
            r.0.candidates_view() == candidates@,
            candidates@.len() == 0 ==> r.0.phase_view() == SearchPhase::Done,
            candidates@.len() > 0 ==> r.0.phase_view() == SearchPhase::Resource
                && r.0.current_view() == 0,
            is_action_for(r.1, candidates@, r.0.phase_view(), r.0.current_view(), None),
            candidates@.len() == 0 ==> (r.1 matches IconAction::Finish(Err(m)) && m@
                == icon_not_found_message()),
            candidates@.len() > 0 ==> (r.1 matches IconAction::ExtractResource { source, index }
                && source@ == candidates@[0].0@ && index == candidates@[0].1),
    {
        if candidates.len() == 0 {
            let s = IconSearch { candidates, current: 0, phase: SearchPhase::Done };
            (s, IconAction::Finish(Err("提取图标失败，可能是图标资源不存在或不可读取".to_owned())))
        } else {
            let action = IconAction::ExtractResource {
                source: candidates[0].0.clone(),
                index: candidates[0].1,
            };
            (IconSearch { candidates, current: 0, phase: SearchPhase::Resource }, action)
        }
    }

    /// Takes what came of the last action and says what to do next.
    pub fn step(self, event: IconEvent) -> (r: (IconSearch, IconAction))
        ensures
            r.0.candidates_view() == self.candidates_view(),
            (r.0.phase_view(), r.0.current_view()) == next_state(
                self.phase_view(),
                self.current_view(),
                self.candidates_view().len() as int,
                event_succeeds(self.phase_view(), event),
            ),
            is_action_for(
                r.1,
                self.candidates_view(),
                r.0.phase_view(),
                r.0.current_view(),
                finishing_url(self.phase_view(), event),
            ),
            // An icon found by extraction or by the shell is encoded next.
            (self.phase_view() == SearchPhase::Resource || self.phase_view()
                == SearchPhase::ShellLarge) && event == IconEvent::Found(true) ==> r.0.phase_view()
                == SearchPhase::EncodeFirst && r.0.current_view() == self.current_view() && r.1
                == IconAction::Encode,
            self.phase_view() == SearchPhase::ShellSmall && event == IconEvent::Found(true)
                ==> r.0.phase_view() == SearchPhase::EncodeSecond && r.0.current_view()
                == self.current_view() && r.1 == IconAction::Encode,
            // Without a resource icon, the shell's large icon of the same source.
            self.phase_view() == SearchPhase::Resource && event == IconEvent::Found(false)
                ==> r.0.phase_view() == SearchPhase::ShellLarge && r.0.current_view()
                == self.current_view() && (r.1 matches IconAction::ShellIcon { source, large }
                && large && source@ == self.candidates_view()[self.current_view()].0@),
            // Without a large icon, or when it did not encode, the small one.
            (self.phase_view() == SearchPhase::ShellLarge && event == IconEvent::Found(false)) || (
            self.phase_view() == SearchPhase::EncodeFirst && event == IconEvent::Encoded(None))
                ==> r.0.phase_view() == SearchPhase::ShellSmall && r.0.current_view()
                == self.current_view() && (r.1 matches IconAction::ShellIcon { source, large }
                && !large && source@ == self.candidates_view()[self.current_view()].0@),
            // A successful encoding ends the search with its data URL.
            (self.phase_view() == SearchPhase::EncodeFirst || self.phase_view()
                == SearchPhase::EncodeSecond) ==> (event matches IconEvent::Encoded(Some(u))
                ==> r.0.phase_view() == SearchPhase::Done && r.1 == IconAction::Finish(Ok(u))),
            // When a source yields nothing, the next one is tried from its
            // resource icon, and after the last one the search fails.
            ((self.phase_view() == SearchPhase::ShellSmall && event == IconEvent::Found(false)) || (
            self.phase_view() == SearchPhase::EncodeSecond && event == IconEvent::Encoded(None)))
                ==> if self.current_view() + 1 < self.candidates_view().len() {
                r.0.phase_view() == SearchPhase::Resource && r.0.current_view()
                    == self.current_view() + 1 && (r.1 matches IconAction::ExtractResource {
                    source,
                    index,
                } && source@ == self.candidates_view()[self.current_view() + 1].0@ && index
                    == self.candidates_view()[self.current_view() + 1].1)
            } else {
                r.0.phase_view() == SearchPhase::Done && (r.1 matches IconAction::Finish(Err(m))
                    && m@ == icon_not_found_message())
            },
    {
        proof {
            use_type_invariant(&self);
        }
        let found = match &event {
            IconEvent::Found(b) => *b,
            IconEvent::Encoded(_) => false,
        };
        let url: Option<String> = match event {
            IconEvent::Encoded(u) => u,
            IconEvent::Found(_) => None,
        };
        let IconSearch { candidates, current, phase } = self;
        let len = candidates.len();
        match phase {
            SearchPhase::Resource => {
                if found {
                    (IconSearch { candidates, current, phase: SearchPhase::EncodeFirst }, IconAction::Encode)
                } else {
                    let source = candidates[current].0.clone();
                    (
                        IconSearch { candidates, current, phase: SearchPhase::ShellLarge },
                        IconAction::ShellIcon { source, large: true },
                    )
                }
            },
            SearchPhase::ShellLarge => {
                if found {
                    (IconSearch { candidates, current, phase: SearchPhase::EncodeFirst }, IconAction::Encode)
                } else {
                    let source = candidates[current].0.clone();
                    (
                        IconSearch { candidates, current, phase: SearchPhase::ShellSmall },
                        IconAction::ShellIcon { source, large: false },
                    )
                }
            },
            SearchPhase::EncodeFirst => {
                match url {
                    Some(u) => (
                        IconSearch { candidates, current, phase: SearchPhase::Done },
                        IconAction::Finish(Ok(u)),
                    ),
                    None => {
                        let source = candidates[current].0.clone();
                        (
                            IconSearch { candidates, current, phase: SearchPhase::ShellSmall },
                            IconAction::ShellIcon { source, large: false },
                        )
                    },
                }
            },
            SearchPhase::ShellSmall => {
                if found {
                    (IconSearch { candidates, current, phase: SearchPhase::EncodeSecond }, IconAction::Encode)
                } else {
                    Self::advance_from(candidates, current)
                }
            },
            SearchPhase::EncodeSecond => {
                match url {
                    Some(u) => (
                        IconSearch { candidates, current, phase: SearchPhase::Done },
                        IconAction::Finish(Ok(u)),
                    ),
                    None => Self::advance_from(candidates, current),
                }
            },
            SearchPhase::Done => (
                IconSearch { candidates, current, phase: SearchPhase::Done },
                IconAction::Finish(Err("提取图标失败，可能是图标资源不存在或不可读取".to_owned())),
            ),
        }
    }

    fn advance_from(candidates: Vec<(String, i32)>, current: usize) -> (r: (IconSearch, IconAction))
        requires
            current < candidates@.len(),
        ensures
            r.0.candidates_view() == candidates@,
            (r.0.phase_view(), r.0.current_view()) == advance(
                current as int,
                candidates@.len() as int,
            ),
            is_action_for(r.1, candidates@, r.0.phase_view(), r.0.current_view(), None),
    {
        if current < candidates.len() - 1 {
            let next = current + 1;
            let action = IconAction::ExtractResource {
                source: candidates[next].0.clone(),
                index: candidates[next].1,
            };
            (IconSearch { candidates, current: next, phase: SearchPhase::Resource }, action)
        } else {
            (
                IconSearch { candidates, current, phase: SearchPhase::Done },
                IconAction::Finish(Err("提取图标失败，可能是图标资源不存在或不可读取".to_owned())),
            )
        }
    }
}

} // verus!
