//! The viewer's state: the open documents in tab order, the active tab, the
//! status line and the text scale, with the actions that change them.

use vstd::prelude::*;
use crate::paths::{is_markdown_path, is_markdown_path_spec, shown_name, shown_name_spec, title_for, title_spec};
use crate::scale::{scale_down, scale_down_spec, scale_up, scale_up_spec, scale_valid, DEFAULT_SCALE};

verus! {

/// One open document: its title, where it was read from, the text read, and
/// when (milliseconds since the Unix epoch).
pub struct DocTab {
    pub title: String,
    pub path: String,
    pub content: String,
    pub last_read: u64,
}

/// The mathematical value of a `DocTab`.
pub struct TabModel {
    pub title: Seq<char>,
    pub path: Seq<char>,
    pub content: Seq<char>,
    pub last_read: u64,
}

impl View for DocTab {
    type V = TabModel;

    open spec fn view(&self) -> TabModel {
        TabModel {
            title: self.title@,
            path: self.path@,
            content: self.content@,
            last_read: self.last_read,
        }
    }
}

/// The tab for a file at `path` whose text `content` was read at time `now`.
pub open spec fn tab_spec(path: Seq<char>, content: Seq<char>, now: u64) -> TabModel {
    TabModel { title: title_spec(path), path, content, last_read: now }
}

impl DocTab {
    /// A tab for the file at `path`, read at time `now`; its title is the
    /// file's name.
    pub fn from_path(path: String, content: String, now: u64) -> (r: DocTab)
        ensures
            r@ == tab_spec(path@, content@, now),
    {
        let title = title_for(path.as_str());
        DocTab { title, path, content, last_read: now }
    }
}

/// The mathematical value of an `AppState`. `active` is meaningful only while
/// `tabs` is not empty; it is then zero.
pub struct AppModel {
    pub tabs: Seq<TabModel>,
    pub active: nat,
    pub status: Seq<char>,
    pub text_scale: int,
}

/// The outcome of reading a file: its text, or a description of the error.
pub open spec fn read_view(r: Result<String, String>) -> Result<Seq<char>, Seq<char>> {
    match r {
        Ok(c) => Ok(c@),
        Err(e) => Err(e@),
    }
}

/// A well-formed state: the active index names a tab, or is zero when there
/// is none; the scale lies within its bounds.
pub open spec fn model_wf(m: AppModel) -> bool {
    &&& (m.active < m.tabs.len() || (m.tabs.len() == 0 && m.active == 0))
    &&& scale_valid(m.text_scale)
}

pub open spec fn ready_msg() -> Seq<char> {
    "Ready"@
}

pub open spec fn opened_msg() -> Seq<char> {
    "Opened file"@
}

pub open spec fn skipped_msg(name: Seq<char>) -> Seq<char> {
    "Skipped non-markdown file: "@ + name
}

pub open spec fn open_failed_msg(err: Seq<char>) -> Seq<char> {
    "Failed to open: "@ + err
}

pub open spec fn reloaded_msg() -> Seq<char> {
    "Reloaded from disk"@
}

pub open spec fn reload_failed_msg(err: Seq<char>) -> Seq<char> {
    "Reload failed: "@ + err
}

/// The state at start-up: no tabs, a ready status, the base scale.
pub open spec fn initial_model() -> AppModel {
    AppModel { tabs: Seq::empty(), active: 0, status: ready_msg(), text_scale: DEFAULT_SCALE as int }
}

/// Selecting a tab makes it active; an index with no tab changes nothing.
pub open spec fn select_spec(m: AppModel, idx: int) -> AppModel {
    if 0 <= idx < m.tabs.len() {
        AppModel { active: idx as nat, ..m }
    } else {
        m
    }
}

/// Closing a tab removes it; an active index left past the end moves to the
/// last tab, or to zero when none is left. The index is positional: closing a
/// tab before the active one shows the next document in line.
pub open spec fn close_spec(m: AppModel, idx: int) -> AppModel {
    if 0 <= idx < m.tabs.len() {
        let tabs = m.tabs.remove(idx);
        let active = if m.active < tabs.len() {
            m.active
        } else if tabs.len() == 0 {
            0
        } else {
            (tabs.len() - 1) as nat
        };
        AppModel { tabs, active, ..m }
    } else {
        m
    }
}

/// A path rejected for its extension leaves the tabs and reports its name.
pub open spec fn skip_spec(m: AppModel, path: Seq<char>) -> AppModel {
    AppModel { status: skipped_msg(shown_name_spec(path)), ..m }
}

/// A Markdown path after its read: a new active tab at the end, or the error
/// in the status.
pub open spec fn add_spec(
    m: AppModel,
    path: Seq<char>,
    read: Result<Seq<char>, Seq<char>>,
    now: u64,
) -> AppModel {
    match read {
        Ok(c) => AppModel {
            tabs: m.tabs.push(tab_spec(path, c, now)),
            active: m.tabs.len(),
            status: opened_msg(),
            ..m
        },
        Err(e) => AppModel { status: open_failed_msg(e), ..m },
    }
}

/// One path picked to be opened, with what reading it gave and when.
pub struct Pick {
    pub path: Seq<char>,
    pub read: Result<Seq<char>, Seq<char>>,
    pub time: u64,
}

/// Opening one picked path: skipped unless it is Markdown, and then read.
pub open spec fn open_step_spec(m: AppModel, p: Pick) -> AppModel {
    if is_markdown_path_spec(p.path) {
        add_spec(m, p.path, p.read, p.time)
    } else {
        skip_spec(m, p.path)
    }
}

/// Opening a batch of picked paths, in the order picked.
pub open spec fn open_batch_spec(m: AppModel, picks: Seq<Pick>) -> AppModel
    decreases picks.len(),
{
    if picks.len() == 0 {
        m
    } else {
        open_step_spec(open_batch_spec(m, picks.drop_last()), picks.last())
    }
}

/// Reloading the active tab: new content and time on success, the error in
/// the status on failure; nothing without a tab.
pub open spec fn reload_spec(m: AppModel, read: Result<Seq<char>, Seq<char>>, now: u64) -> AppModel {
    if m.tabs.len() == 0 {
        m
    } else {
        match read {
            Ok(c) => AppModel {
                tabs: m.tabs.update(
                    m.active as int,
                    TabModel { content: c, last_read: now, ..m.tabs[m.active as int] },
                ),
                status: reloaded_msg(),
                ..m
            },
            Err(e) => AppModel { status: reload_failed_msg(e), ..m },
        }
    }
}

/// Growing the text one step.
pub open spec fn increase_spec(m: AppModel) -> AppModel {
    AppModel { text_scale: scale_up_spec(m.text_scale), ..m }
}

/// Shrinking the text one step.
pub open spec fn decrease_spec(m: AppModel) -> AppModel {
    AppModel { text_scale: scale_down_spec(m.text_scale), ..m }
}

/// The viewer's state. The text scale is kept in thousandths of the base
/// font size.
pub struct AppState {
    tabs: Vec<DocTab>,
    active: usize,
    status: String,
    md_text_scale: u32,
}

impl View for AppState {
    type V = AppModel;

    closed spec fn view(&self) -> AppModel {
        AppModel {
            tabs: self.tabs@.map_values(|t: DocTab| t@),
            active: self.active as nat,
            status: self.status@,
            text_scale: self.md_text_scale as int,
        }
    }
}

/// A message made of a fixed prefix and a detail.
fn message(prefix: &str, detail: &str) -> (r: String)
    ensures
        r@ == prefix@ + detail@,
{
    String::from_str(prefix).concat(detail)
}

impl AppState {
    /// The state at start-up.
    pub fn new() -> (r: AppState)
        ensures
            r@ == initial_model(),
            model_wf(r@),
    {
        let r = AppState {
            tabs: Vec::new(),
            active: 0,
            status: String::from_str("Ready"),
            md_text_scale: DEFAULT_SCALE,
        };
        assert(r@.tabs =~= Seq::<TabModel>::empty());
        r
    }

    /// Makes tab `idx` active, if there is one.
    pub fn select_tab(&mut self, idx: usize)
        requires
            model_wf(old(self)@),
        ensures
            model_wf(final(self)@),
            final(self)@ == select_spec(old(self)@, idx as int),
    {
        if idx < self.tabs.len() {
            self.active = idx;
        }
    }

    /// Closes tab `idx`, if there is one.
    pub fn close_tab(&mut self, idx: usize)
        requires
            model_wf(old(self)@),
        ensures
            model_wf(final(self)@),
            final(self)@ == close_spec(old(self)@, idx as int),
    {
        if idx < self.tabs.len() {
            let _closed = self.tabs.remove(idx);
            if self.active >= self.tabs.len() {
                self.active = if self.tabs.len() == 0 { 0 } else { self.tabs.len() - 1 };
            }
            assert(self@.tabs =~= old(self)@.tabs.remove(idx as int));
        }
    }

    /// Decides whether a picked path is opened: a Markdown one is (and nothing
    /// changes yet); any other is skipped, and the status names it.
    pub fn admit_path(&mut self, path: &str) -> (accepted: bool)
        requires
            model_wf(old(self)@),
        ensures
            model_wf(final(self)@),
            accepted == is_markdown_path_spec(path@),
            accepted ==> final(self)@ == old(self)@,
            !accepted ==> final(self)@ == skip_spec(old(self)@, path@),
    {
        if is_markdown_path(path) {
            true
        } else {
            let name = shown_name(path);
            self.status = message("Skipped non-markdown file: ", name.as_str());
            false
        }
    }

    /// Takes in an admitted path with the outcome of reading it at time `now`:
    /// on success a new tab at the end becomes active; on failure the status
    /// holds the error.
    pub fn add_document(&mut self, path: String, read: Result<String, String>, now: u64)
        requires
            model_wf(old(self)@),
        ensures
            model_wf(final(self)@),
            final(self)@ == add_spec(old(self)@, path@, read_view(read), now),
    {
        match read {
            Ok(content) => {
                let tab = DocTab::from_path(path, content, now);
                self.active = self.tabs.len();
                self.tabs.push(tab);
                self.status = String::from_str("Opened file");
                assert(self@.tabs =~= old(self)@.tabs.push(tab@));
            },
            Err(e) => {
                self.status = message("Failed to open: ", e.as_str());
            },
        }
    }

    /// The path of the active tab, which a reload reads; none without tabs.
    pub fn active_path(&self) -> (r: Option<String>)
        requires
            model_wf(self@),
        ensures
            self@.tabs.len() == 0 ==> r is None,
            self@.tabs.len() > 0 ==> (r matches Some(p) && p@ == self@.tabs[self@.active as int].path),
    {
        if self.active < self.tabs.len() {
            Some(self.tabs[self.active].path.clone())
        } else {
            None
        }
    }

    /// Takes in the outcome of re-reading the active tab's file at time `now`.
    pub fn reload_active(&mut self, read: Result<String, String>, now: u64)
        requires
            model_wf(old(self)@),
        ensures
            model_wf(final(self)@),
            final(self)@ == reload_spec(old(self)@, read_view(read), now),
    {
        if self.active < self.tabs.len() {
            match read {
                Ok(content) => {
                    let i = self.active;
                    let old_tab = &self.tabs[i];
                    let tab = DocTab {
                        title: old_tab.title.clone(),
                        path: old_tab.path.clone(),
                        content,
                        last_read: now,
                    };
                    self.tabs.set(i, tab);
                    self.status = String::from_str("Reloaded from disk");
                    assert(self@.tabs =~= old(self)@.tabs.update(
                        i as int,
                        TabModel { content: content@, last_read: now, ..old(self)@.tabs[i as int] },
                    ));
                },
                Err(e) => {
                    self.status = message("Reload failed: ", e.as_str());
                },
            }
        }
    }

    /// The number of open tabs.
    pub fn tab_count(&self) -> (r: usize)
        ensures
            r == self@.tabs.len(),
    {
        self.tabs.len()
    }

    /// The index of the active tab; zero when there is none.
    pub fn active_index(&self) -> (r: usize)
        ensures
            r == self@.active,
    {
        self.active
    }

    /// The status line.
    pub fn status(&self) -> (r: &str)
        ensures
            r@ == self@.status,
    {
        self.status.as_str()
    }

    /// The text scale of the document area, in thousandths of the base size.
    pub fn text_scale(&self) -> (r: u32)
        ensures
            r == self@.text_scale,
    {
        self.md_text_scale
    }

    /// Tab `idx`, if there is one.
    pub fn tab(&self, idx: usize) -> (r: Option<&DocTab>)
        ensures
            idx < self@.tabs.len() ==> (r matches Some(t) && t@ == self@.tabs[idx as int]),
            idx >= self@.tabs.len() ==> r is None,
    {
        if idx < self.tabs.len() {
            Some(&self.tabs[idx])
        } else {
            None
        }
    }

    /// The active tab; none without tabs.
    pub fn active_tab(&self) -> (r: Option<&DocTab>)
        requires
            model_wf(self@),
        ensures
            self@.tabs.len() == 0 ==> r is None,
            self@.tabs.len() > 0 ==> (r matches Some(t) && t@ == self@.tabs[self@.active as int]),
    {
        self.tab(self.active)
    }

    /// Grows the document text one step.
    pub fn increase_text_scale(&mut self)
        requires
            model_wf(old(self)@),
        ensures
            model_wf(final(self)@),
            final(self)@ == increase_spec(old(self)@),
    {
        self.md_text_scale = scale_up(self.md_text_scale);
    }

    /// Shrinks the document text one step.
    pub fn decrease_text_scale(&mut self)
        requires
            model_wf(old(self)@),
        ensures
            model_wf(final(self)@),
            final(self)@ == decrease_spec(old(self)@),
    {
        self.md_text_scale = scale_down(self.md_text_scale);
    }
}

} // verus!
