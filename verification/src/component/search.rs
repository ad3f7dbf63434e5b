//! The external-search popup: issue a search, cache the grouped results,
//! track the shown tab, and report one selection at most.

use vstd::prelude::*;

use crate::util::LoadingItem;

verus! {

/// One search hit.
#[derive(Debug)]
pub struct SearchItem {
    pub id: u64,
    pub thumbnail_url: Option<String>,
    pub name: Option<String>,
    pub description: Option<String>,
    pub author: Option<String>,
}

/// What a search answers: result groups keyed by site name, in the order
/// the collaborator reported them, or an error message.
pub type SearchResponse = Result<Vec<(String, Vec<SearchItem>)>, String>;

/// A message the popup handles.
#[derive(Debug)]
pub enum Msg {
    /// The collaborator answered the search for this text.
    BookSearchResponse(String, SearchResponse),
    /// The user asked to search for this text.
    SearchFor(String),
    OnChangeTab(String),
    OnSelectItem(u64),
}

/// What the popup asks of its host.
#[derive(Debug, PartialEq, Eq)]
pub enum SearchEvent {
    /// Run this search and answer with `Msg::BookSearchResponse` once.
    CallSearch(String),
    /// The user picked this hit.
    Select(u64),
}

/// What one step asks the host to do.
#[derive(Debug)]
pub struct SearchOutcome {
    pub render: bool,
    pub event: Option<SearchEvent>,
}

/// The popup state.
#[derive(Debug)]
pub struct PopupSearch {
    /// The last search's results, or the marker that one is under way.
    pub cached_posters: Option<LoadingItem<SearchResponse>>,
    /// The text shown in the search input.
    pub input_value: String,
    /// The result group currently shown.
    pub selected_tab: String,
    /// Set once a hit was picked, so a second click reports nothing.
    pub waiting_item_resp: bool,
}

/// The position of the first group under a site name at or after `pos`,
/// or the length when there is none.
pub open spec fn group_key_from(
    s: Seq<(String, Vec<SearchItem>)>,
    k: Seq<char>,
    pos: int,
) -> int
    decreases s.len() - pos,
{
    if pos < 0 || pos >= s.len() {
        s.len() as int
    } else if s[pos].0@ == k {
        pos
    } else {
        group_key_from(s, k, pos + 1)
    }
}

impl PopupSearch {
    /// The result group of the shown tab, if the results hold one.
    pub fn shown_group<'a>(&self, groups: &'a Vec<(String, Vec<SearchItem>)>) -> (r: Option<
        &'a Vec<SearchItem>,
    >)
        ensures
            ({
                let i = group_key_from(groups@, self.selected_tab@, 0);
                if i < groups@.len() {
                    r matches Some(g) && *g == groups@[i].1
                } else {
                    r is None
                }
            }),
    {
        let n = groups.len();
        let mut i: usize = 0;
        while i < n
            invariant
                i <= n,
                n == groups@.len(),
                group_key_from(groups@, self.selected_tab@, 0) == group_key_from(
                    groups@,
                    self.selected_tab@,
                    i as int,
                ),
            decreases n - i,
        {
            if groups[i].0.eq(&self.selected_tab) {
                proof {
                    assert(group_key_from(groups@, self.selected_tab@, i as int) == i as int);
                }
                return Some(&groups[i].1);
            }
            proof {
                assert(groups@[i as int].0@ != self.selected_tab@);
            }
            i = i + 1;
        }
        proof {
            assert(group_key_from(groups@, self.selected_tab@, n as int) == n as int);
        }
        None
    }

    pub fn create(input_value: String) -> (r: Self)
        ensures
            r.cached_posters is None,
            r.input_value == input_value,
            r.selected_tab@ == Seq::<char>::empty(),
            r.waiting_item_resp == false,
    {
        Self {
            cached_posters: None,
            input_value,
            selected_tab: String::new(),
            waiting_item_resp: false,
        }
    }

    /// One step of the popup.
    pub fn update(&mut self, msg: Msg) -> (out: SearchOutcome)
        ensures
            match msg {
                Msg::SearchFor(search) => {
                    &&& (final(self).cached_posters matches Some(l) && l is Loading)
                    &&& final(self).input_value == old(self).input_value
                    &&& final(self).selected_tab == old(self).selected_tab
                    &&& final(self).waiting_item_resp == old(self).waiting_item_resp
                    &&& out.render
                    &&& out.event == Some(SearchEvent::CallSearch(search))
                },
                Msg::BookSearchResponse(search, resp) => {
                    &&& final(self).cached_posters == Some(LoadingItem::Loaded(resp))
                    &&& final(self).input_value == search
                    &&& match resp {
                        Ok(groups) => {
                            if groups@.len() > 0 {
                                final(self).selected_tab == groups@[0].0
                            } else {
                                final(self).selected_tab == old(self).selected_tab
                            }
                        },
                        Err(_) => final(self).selected_tab == old(self).selected_tab,
                    }
                    &&& final(self).waiting_item_resp == old(self).waiting_item_resp
                    &&& out.render
                    &&& out.event is None
                },
                Msg::OnSelectItem(id) => {
                    if old(self).waiting_item_resp {
                        &&& *final(self) == *old(self)
                        &&& !out.render
                        &&& out.event is None
                    } else {
                        &&& final(self).waiting_item_resp == true
                        &&& final(self).cached_posters == old(self).cached_posters
                        &&& final(self).input_value == old(self).input_value
                        &&& final(self).selected_tab == old(self).selected_tab
                        &&& out.render
                        &&& out.event == Some(SearchEvent::Select(id))
                    }
                },
                Msg::OnChangeTab(name) => {
                    &&& final(self).selected_tab == name
                    &&& final(self).cached_posters == old(self).cached_posters
                    &&& final(self).input_value == old(self).input_value
                    &&& final(self).waiting_item_resp == old(self).waiting_item_resp
                    &&& out.render
                    &&& out.event is None
                },
            },
    {
        match msg {
            Msg::SearchFor(search) => {
                self.cached_posters = Some(LoadingItem::Loading);
                SearchOutcome { render: true, event: Some(SearchEvent::CallSearch(search)) }
            },

            Msg::BookSearchResponse(search, resp) => {
                if let Ok(groups) = &resp {
                    if groups.len() > 0 {
                        self.selected_tab = groups[0].0.clone();
                    }
                }
                self.cached_posters = Some(LoadingItem::Loaded(resp));
                self.input_value = search;
                SearchOutcome { render: true, event: None }
            },

            Msg::OnSelectItem(id) => {
                if self.waiting_item_resp {
                    return SearchOutcome { render: false, event: None };
                }
                self.waiting_item_resp = true;
                SearchOutcome { render: true, event: Some(SearchEvent::Select(id)) }
            },

            Msg::OnChangeTab(name) => {
                self.selected_tab = name;
                SearchOutcome { render: true, event: None }
            },
        }
    }
}

} // verus!
