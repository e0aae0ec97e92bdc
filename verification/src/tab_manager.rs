//! The registry of open sessions: what is known of each tab, and the page of
//! the notebook that shows it.

use std::collections::HashMap;
use vstd::prelude::*;
use vstd::std_specs::hash::spec_hash_map_iter;
use vstd::std_specs::iter::IteratorSpec;

verus! {

broadcast use vstd::std_specs::hash::group_hash_axioms;

/// What the registry knows of one session.
#[derive(Debug, PartialEq, Eq)]
pub struct TabInfo {
    pub tab_id: u128,
    pub favicon: Vec<u8>,
    pub url: Option<String>,
    pub title: Option<String>,
}

/// A `TabInfo` as plain values.
pub struct TabInfoView {
    pub tab_id: u128,
    pub favicon: Seq<u8>,
    pub url: Option<Seq<char>>,
    pub title: Option<Seq<char>>,
}

/// The characters of an optional string.
pub open spec fn text_view(text: Option<String>) -> Option<Seq<char>> {
    match text {
        Some(t) => Some(t@),
        None => None,
    }
}

fn clone_text(text: &Option<String>) -> (copy: Option<String>)
    ensures
        text_view(copy) == text_view(*text),
{
    match text {
        Some(t) => Some(t.clone()),
        None => None,
    }
}

impl View for TabInfo {
    type V = TabInfoView;

    open spec fn view(&self) -> TabInfoView {
        TabInfoView {
            tab_id: self.tab_id,
            favicon: self.favicon@,
            url: text_view(self.url),
            title: text_view(self.title),
        }
    }
}

/// An optional record as plain values.
pub open spec fn info_view(info: Option<TabInfo>) -> Option<TabInfoView> {
    match info {
        Some(i) => Some(i@),
        None => None,
    }
}

/// The record of a session that was just opened for `url`: the address is
/// its title, and it has no icon yet.
pub open spec fn fresh_info(tab_id: u128, url: Seq<char>) -> TabInfoView {
    TabInfoView { tab_id, favicon: Seq::empty(), url: Some(url), title: Some(url) }
}

impl Clone for TabInfo {
    fn clone(&self) -> (copy: TabInfo)
        ensures
            copy@ == self@,
    {
        TabInfo {
            tab_id: self.tab_id,
            favicon: self.favicon.clone(),
            url: clone_text(&self.url),
            title: clone_text(&self.title),
        }
    }
}

impl TabInfo {
    /// The record of a session that was just opened for `url`.
    pub fn new(tab_id: u128, url: String) -> (info: TabInfo)
        ensures
            info@ == fresh_info(tab_id, url@),
    {
        TabInfo { tab_id, favicon: Vec::new(), url: Some(url.clone()), title: Some(url) }
    }
}

/// The registry as two maps over the same sessions.
pub struct Registry {
    /// The notebook page of each session.
    pub pages: Map<u128, u32>,
    /// The record of each session.
    pub tabs: Map<u128, TabInfoView>,
}

impl Registry {
    /// The registry without any session.
    pub open spec fn empty() -> Registry {
        Registry { pages: Map::empty(), tabs: Map::empty() }
    }

    /// Every session has both a page and a record.
    pub open spec fn wf(self) -> bool {
        self.pages.dom() == self.tabs.dom()
    }

    /// Whether the session is open.
    pub open spec fn contains(self, tab_id: u128) -> bool {
        self.tabs.contains_key(tab_id)
    }

    /// The session registered, over whatever was known of it.
    pub open spec fn add(self, tab_id: u128, page_num: u32, info: TabInfoView) -> Registry {
        Registry { pages: self.pages.insert(tab_id, page_num), tabs: self.tabs.insert(tab_id, info) }
    }

    /// The record replaced, where the session is open.
    pub open spec fn update(self, tab_id: u128, info: TabInfoView) -> Registry {
        if self.contains(tab_id) {
            Registry { pages: self.pages, tabs: self.tabs.insert(tab_id, info) }
        } else {
            self
        }
    }

    /// The page replaced, where the session is open.
    pub open spec fn set_page(self, tab_id: u128, page_num: u32) -> Registry {
        if self.contains(tab_id) {
            Registry { pages: self.pages.insert(tab_id, page_num), tabs: self.tabs }
        } else {
            self
        }
    }

    /// The session closed: its page and its record leave together.
    pub open spec fn remove(self, tab_id: u128) -> Registry {
        Registry { pages: self.pages.remove(tab_id), tabs: self.tabs.remove(tab_id) }
    }
}

/// The sessions that are open, each with its record and its notebook page.
pub struct TabManager {
    tab_pages: HashMap<u128, u32>,
    tabs: HashMap<u128, TabInfo>,
}

impl View for TabManager {
    type V = Registry;

    closed spec fn view(&self) -> Registry {
        Registry {
            pages: self.tab_pages@,
            tabs: self.tabs@.map_values(|info: TabInfo| info@),
        }
    }
}

impl TabManager {
    /// Every session has both a page and a record.
    pub open spec fn wf(&self) -> bool {
        self@.wf()
    }

    /// A registry without any session.
    pub fn new() -> (manager: TabManager)
        ensures
            manager@ == Registry::empty(),
            manager.wf(),
    {
        let manager = TabManager { tab_pages: HashMap::new(), tabs: HashMap::new() };
        assert(manager@.tabs =~= Map::empty());
        manager
    }

    /// A detached copy of the session's record.
    pub fn get_tab_info(&self, tab_id: u128) -> (info: Option<TabInfo>)
        ensures
            match info {
                Some(i) => self@.contains(tab_id) && i@ == self@.tabs[tab_id],
                None => !self@.contains(tab_id),
            },
    {
        match self.tabs.get(&tab_id) {
            Some(tab_info) => Some(tab_info.clone()),
            None => None,
        }
    }

    /// Registers the session with its page and record, over whatever was
    /// known of it.
    pub fn add(&mut self, tab_id: u128, page_num: u32, tab_info: TabInfo)
        requires
            old(self).wf(),
        ensures
            final(self)@ == old(self)@.add(tab_id, page_num, tab_info@),
            final(self).wf(),
    {
        self.tab_pages.insert(tab_id, page_num);
        self.tabs.insert(tab_id, tab_info);
        assert(self@.tabs =~= old(self)@.tabs.insert(tab_id, tab_info@));
    }

    /// Replaces the record of an open session; does nothing for any other.
    pub fn update(&mut self, tab_id: u128, tab_info: TabInfo)
        requires
            old(self).wf(),
        ensures
            final(self)@ == old(self)@.update(tab_id, tab_info@),
            final(self).wf(),
    {
        if self.tabs.contains_key(&tab_id) {
            self.tabs.insert(tab_id, tab_info);
            assert(self@.tabs =~= old(self)@.tabs.insert(tab_id, tab_info@));
            assert(self@.tabs.dom() =~= old(self)@.tabs.dom());
        }
    }

    /// Records the page that an open session now stands at; does nothing for
    /// any other.
    pub fn set_page(&mut self, tab_id: u128, page_num: u32)
        requires
            old(self).wf(),
        ensures
            final(self)@ == old(self)@.set_page(tab_id, page_num),
            final(self).wf(),
    {
        if self.tab_pages.contains_key(&tab_id) {
            self.tab_pages.insert(tab_id, page_num);
            assert(self@.pages.dom() =~= old(self)@.pages.dom());
        }
    }

    /// Closes the session: its page and its record leave together.
    pub fn remove(&mut self, tab_id: u128)
        requires
            old(self).wf(),
        ensures
            final(self)@ == old(self)@.remove(tab_id),
            final(self).wf(),
    {
        self.tab_pages.remove(&tab_id);
        self.tabs.remove(&tab_id);
        assert(self@.tabs =~= old(self)@.tabs.remove(tab_id));
    }

    /// The notebook page of the session.
    pub fn get_by_tab(&self, tab_id: u128) -> (page_num: Option<u32>)
        ensures
            match page_num {
                Some(p) => self@.pages.contains_key(tab_id) && p == self@.pages[tab_id],
                None => !self@.pages.contains_key(tab_id),
            },
    {
        match self.tab_pages.get(&tab_id) {
            Some(page_num) => Some(*page_num),
            None => None,
        }
    }

    /// A session that stands at the page, if there is one.
    pub fn get_by_page(&self, page_num: u32) -> (tab_id: Option<u128>)
        ensures
            match tab_id {
                Some(id) => self@.pages.contains_key(id) && self@.pages[id] == page_num,
                None => forall|id: u128| #[trigger]
                    self@.pages.contains_key(id) ==> self@.pages[id] != page_num,
            },
    {
        for entry in it: self.tab_pages.iter()
            invariant
                it.seq() == spec_hash_map_iter(&self.tab_pages).remaining(),
                forall|i: int| 0 <= i < it.index() ==> *(#[trigger] it.seq()[i]).1 != page_num,
        {
            if *entry.1 == page_num {
                return Some(*entry.0);
            }
        }
        assert forall|id: u128| #[trigger] self@.pages.contains_key(id) implies self@.pages[id]
            != page_num by {
            let entries = spec_hash_map_iter(&self.tab_pages).remaining();
            assert(entries.contains((&id, &self.tab_pages@[id])));
        }
        None
    }

    /// How many sessions are open.
    pub fn len(&self) -> (n: usize)
        ensures
            n == self@.pages.len(),
    {
        self.tab_pages.len()
    }
}

} // verus!
