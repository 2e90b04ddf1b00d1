//! Tab bookkeeping for a host with several terminal or explorer panes:
//! identifiers, per-tab state and the manager that tracks which tab is
//! active.

use vstd::prelude::*;
use vstd::string::StrSliceExecFns;
use vstd::string::StringExecFns;

verus! {

/// A tab's unique identifier within one manager.
#[derive(Clone, Copy, Debug, PartialEq, Eq, Hash, Structural)]
pub struct TabId(pub u64);

/// What a tab shows. Paths are plain strings, `/`-separated.
#[derive(Clone, Debug, PartialEq)]
pub enum TabKind {
    /// A local file explorer rooted at `path`.
    Explorer { path: String },
    /// A local terminal started in `working_dir`.
    Terminal { working_dir: String },
    /// A terminal on a remote host.
    SshTerminal { host: String, port: u16, username: String, working_dir: String },
    /// A file explorer on a remote host.
    SftpExplorer { host: String, port: u16, username: String, remote_path: String },
}

/// The characters after the last `/` of `s`; empty when `s` ends with a
/// slash or is empty.
pub open spec fn spec_after_last_slash(s: Seq<char>) -> Seq<char>
    decreases s.len(),
{
    if s.len() == 0 {
        s
    } else if s[s.len() - 1] == '/' {
        Seq::empty()
    } else {
        spec_after_last_slash(s.drop_last()).push(s[s.len() - 1])
    }
}

/// The final component of `path`, or `fallback` when there is none.
pub open spec fn spec_name_or(path: Seq<char>, fallback: Seq<char>) -> Seq<char> {
    if spec_after_last_slash(path).len() == 0 {
        fallback
    } else {
        spec_after_last_slash(path)
    }
}

/// The title a tab gets when none is supplied.
pub open spec fn spec_default_title(k: TabKind) -> Seq<char> {
    match k {
        TabKind::Explorer { path } => "Explorer: "@ + spec_name_or(path@, "Explorer"@),
        TabKind::Terminal { working_dir } => "Terminal: "@ + spec_name_or(
            working_dir@,
            "Terminal"@,
        ),
        TabKind::SshTerminal { host, username, .. } => "SSH: "@ + username@ + "@"@ + host@,
        TabKind::SftpExplorer { host, username, .. } => "SFTP: "@ + username@ + "@"@ + host@,
    }
}

/// The final component of `path` (after its last `/`), or `fallback` for
/// a path without one.
fn name_or<'a>(path: &String, fallback: &str) -> (r: String)
    ensures
        r@ == spec_name_or(path@, fallback@),
{
    let s = path.as_str();
    let n = s.unicode_len();
    let mut cut: usize = 0;
    let mut i: usize = 0;
    proof {
        assert(path@.take(0) =~= Seq::<char>::empty());
    }
    while i < n
        invariant
            cut <= i <= n,
            n == path@.len(),
            s@ == path@,
            spec_after_last_slash(path@.take(i as int)) =~= path@.subrange(cut as int, i as int),
        decreases n - i,
    {
        let c = s.get_char(i);
        proof {
            assert(path@.take(i + 1).drop_last() =~= path@.take(i as int));
            assert(path@.take(i + 1)[i as int] == path@[i as int]);
        }
        if c == '/' {
            cut = i + 1;
            proof {
                assert(spec_after_last_slash(path@.take(i + 1)) =~= path@.subrange(
                    cut as int,
                    (i + 1) as int,
                ));
            }
        } else {
            proof {
                assert(spec_after_last_slash(path@.take(i + 1)) =~= path@.subrange(
                    cut as int,
                    (i + 1) as int,
                ));
            }
        }
        i = i + 1;
    }
    proof {
        assert(path@.take(n as int) =~= path@);
    }
    if cut == n {
        String::from_str(fallback)
    } else {
        let name = s.substring_char(cut, n);
        String::from_str(name)
    }
}

impl TabKind {
    /// The tab's default title: a kind prefix plus the path's final
    /// component, or `user@host` for remote kinds.
    pub fn default_title(&self) -> (r: String)
        ensures
            r@ == spec_default_title(*self),
    {
        match self {
            TabKind::Explorer { path } => {
                let name = name_or(path, "Explorer");
                String::from_str("Explorer: ").concat(name.as_str())
            },
            TabKind::Terminal { working_dir } => {
                let name = name_or(working_dir, "Terminal");
                String::from_str("Terminal: ").concat(name.as_str())
            },
            TabKind::SshTerminal { host, username, .. } => {
                String::from_str("SSH: ").concat(username.as_str()).concat("@").concat(
                    host.as_str(),
                )
            },
            TabKind::SftpExplorer { host, username, .. } => {
                String::from_str("SFTP: ").concat(username.as_str()).concat("@").concat(
                    host.as_str(),
                )
            },
        }
    }

    /// A fixed icon name for the tab bar.
    pub fn icon_name(&self) -> (r: &'static str)
        ensures
            (self is Explorer) ==> r@ == "folder"@,
            (self is Terminal) ==> r@ == "terminal"@,
            (self is SshTerminal) ==> r@ == "ssh"@,
            (self is SftpExplorer) ==> r@ == "sftp"@,
    {
        match self {
            TabKind::Explorer { .. } => "folder",
            TabKind::Terminal { .. } => "terminal",
            TabKind::SshTerminal { .. } => "ssh",
            TabKind::SftpExplorer { .. } => "sftp",
        }
    }

    /// Whether the tab talks to a remote host.
    pub fn is_remote(&self) -> (r: bool)
        ensures
            r == (self is SshTerminal || self is SftpExplorer),
    {
        match self {
            TabKind::SshTerminal { .. } => true,
            TabKind::SftpExplorer { .. } => true,
            _ => false,
        }
    }
}

/// One tab: its identity, kind, title and display flags.
#[derive(Clone, Debug)]
pub struct Tab {
    pub id: TabId,
    pub kind: TabKind,
    pub title: String,
    pub is_active: bool,
    pub is_modified: bool,
    pub is_loading: bool,
}

impl Tab {
    /// A fresh inactive tab with the kind's default title. The caller
    /// supplies the identifier; managers allocate them.
    pub fn new(id: TabId, kind: TabKind) -> (r: Self)
        ensures
            r.id == id,
            r.kind == kind,
            r.title@ == spec_default_title(kind),
            !r.is_active,
            !r.is_modified,
            !r.is_loading,
    {
        let title = kind.default_title();
        Tab { id, kind, title, is_active: false, is_modified: false, is_loading: false }
    }

    /// The same tab with another title.
    pub fn with_title(self, title: String) -> (r: Self)
        ensures
            r == (Tab { title, ..self }),
    {
        Tab { title, ..self }
    }

    pub fn set_active(&mut self, active: bool)
        ensures
            *final(self) == (Tab { is_active: active, ..*old(self) }),
    {
        self.is_active = active;
    }

    pub fn set_modified(&mut self, modified: bool)
        ensures
            *final(self) == (Tab { is_modified: modified, ..*old(self) }),
    {
        self.is_modified = modified;
    }

    pub fn set_loading(&mut self, loading: bool)
        ensures
            *final(self) == (Tab { is_loading: loading, ..*old(self) }),
    {
        self.is_loading = loading;
    }
}

/// Whether some tab in `s` has identifier `id`.
pub open spec fn spec_has_id(s: Seq<Tab>, id: TabId) -> bool {
    exists|i: int| 0 <= i < s.len() && s[i].id == id
}

/// The manager of a window's tabs: their order, their state, and which
/// one is active. It also allocates the identifiers, so every tab it
/// holds has a distinct one.
pub struct TabManager {
    tabs: Vec<Tab>,
    active_tab_id: Option<TabId>,
    next_id: u64,
}

impl TabManager {
    /// The tabs, in display order.
    pub closed spec fn spec_tabs(&self) -> Seq<Tab> {
        self.tabs@
    }

    /// The identifier of the active tab, if any.
    pub closed spec fn spec_active(&self) -> Option<TabId> {
        self.active_tab_id
    }

    /// The next identifier to hand out.
    pub closed spec fn spec_next_id(&self) -> int {
        self.next_id as int
    }

    /// The manager's invariant: identifiers are distinct and below the
    /// allocation counter, and the active identifier names a held tab.
    pub closed spec fn wf(&self) -> bool {
        &&& forall|i: int, j: int|
            0 <= i < j < self.tabs@.len() ==> (#[trigger] self.tabs@[i]).id != (
            #[trigger] self.tabs@[j]).id
        &&& forall|i: int|
            0 <= i < self.tabs@.len() ==> (#[trigger] self.tabs@[i]).id.0 < self.next_id
        &&& match self.active_tab_id {
            Some(id) => spec_has_id(self.tabs@, id),
            None => true,
        }
    }

    /// An empty manager: no tabs, nothing active.
    pub fn new() -> (r: Self)
        ensures
            r.wf(),
            r.spec_tabs().len() == 0,
            r.spec_active() is None,
            r.spec_next_id() == 1,
    {
        TabManager { tabs: Vec::new(), active_tab_id: None, next_id: 1 }
    }

    /// A manager holding one explorer tab rooted at the home directory
    /// (as the host reports it), or at the current directory.
    pub fn with_defaults(home_dir: Option<String>) -> (r: Self)
        ensures
            r.wf(),
            r.spec_tabs().len() == 1,
            r.spec_tabs()[0].kind is Explorer,
            r.spec_active() == Some(r.spec_tabs()[0].id),
    {
        let mut manager = Self::new();
        let path = match home_dir {
            Some(h) => h,
            None => String::from_str("."),
        };
        manager.add_tab(TabKind::Explorer { path });
        manager
    }

    /// Allocate a fresh identifier, distinct from every identifier this
    /// manager has handed out before. (Bounded by the machine word.)
    pub fn generate_tab_id(&mut self) -> (r: TabId)
        requires
            old(self).spec_next_id() < u64::MAX,
        ensures
            old(self).wf() ==> final(self).wf(),
            r.0 == old(self).spec_next_id(),
            final(self).spec_next_id() == old(self).spec_next_id() + 1,
            final(self).spec_tabs() == old(self).spec_tabs(),
            final(self).spec_active() == old(self).spec_active(),
    {
        let id = TabId(self.next_id);
        self.next_id = self.next_id + 1;
        id
    }

    /// Append a new tab of `kind`; the first tab added becomes active.
    /// Returns the new tab's identifier.
    pub fn add_tab(&mut self, kind: TabKind) -> (r: TabId)
        requires
            old(self).wf(),
            old(self).spec_next_id() < u64::MAX,
        ensures
            final(self).wf(),
            r.0 == old(self).spec_next_id(),
            final(self).spec_tabs().len() == old(self).spec_tabs().len() + 1,
            final(self).spec_tabs().drop_last() == old(self).spec_tabs(),
            final(self).spec_tabs().last().id == r,
            final(self).spec_tabs().last().kind == kind,
            final(self).spec_tabs().last().title@ == spec_default_title(kind),
            old(self).spec_tabs().len() == 0 ==> final(self).spec_active() == Some(r),
            old(self).spec_tabs().len() > 0 ==> final(self).spec_active() == old(
                self,
            ).spec_active(),
    {
        let id = self.generate_tab_id();
        let tab = Tab::new(id, kind);
        if self.tabs.len() == 0 {
            self.active_tab_id = Some(id);
        }
        self.tabs.push(tab);
        proof {
            assert(self.tabs@.drop_last() =~= old(self).tabs@);
        }
        id
    }

    /// Close the tab with identifier `id`; returns whether it existed.
    /// When the active tab closes, its right neighbour (or, at the end,
    /// the new last tab) becomes active; closing the only tab leaves
    /// nothing active.
    pub fn close_tab(&mut self, id: TabId) -> (r: bool)
        requires
            old(self).wf(),
        ensures
            final(self).wf(),
            r == spec_has_id(old(self).spec_tabs(), id),
            !r ==> *final(self) == *old(self),
            r ==> exists|i: int|
                {
                    &&& 0 <= i < old(self).spec_tabs().len()
                    &&& old(self).spec_tabs()[i].id == id
                    &&& final(self).spec_tabs() == old(self).spec_tabs().remove(i)
                },
            r ==> final(self).spec_next_id() == old(self).spec_next_id(),
            (r && old(self).spec_active() != Some(id)) ==> final(self).spec_active() == old(
                self,
            ).spec_active(),
            (r && old(self).spec_active() == Some(id)) ==> match final(self).spec_active() {
                Some(aid) => spec_has_id(final(self).spec_tabs(), aid),
                None => final(self).spec_tabs().len() == 0,
            },
    {
        let ghost m = *self;
        let mut found: Option<usize> = None;
        let mut i: usize = 0;
        while i < self.tabs.len()
            invariant
                i <= self.tabs@.len(),
                *self == m,
                match found {
                    None => forall|j: int| 0 <= j < i ==> (#[trigger] self.tabs@[j]).id != id,
                    Some(f) => f < i && self.tabs@[f as int].id == id,
                },
            decreases self.tabs@.len() - i,
        {
            if self.tabs[i].id == id && found.is_none() {
                found = Some(i);
            }
            i = i + 1;
        }
        match found {
            None => {
                proof {
                    assert(!spec_has_id(m.spec_tabs(), id));
                }
                false
            },
            Some(index) => {
                self.tabs.remove(index);
                let same = match self.active_tab_id {
                    Some(aid) => aid == id,
                    None => false,
                };
                if same {
                    if self.tabs.len() == 0 {
                        self.active_tab_id = None;
                    } else {
                        let new_index = if index < self.tabs.len() {
                            index
                        } else {
                            self.tabs.len() - 1
                        };
                        self.active_tab_id = Some(self.tabs[new_index].id);
                        proof {
                            assert(spec_has_id(self.tabs@, self.tabs@[new_index as int].id));
                        }
                    }
                }
                proof {
                    assert(m.spec_tabs()[index as int].id == id);
                    assert(spec_has_id(m.spec_tabs(), id));
                    assert(self.tabs@ == m.spec_tabs().remove(index as int));
                    assert forall|a: int, b: int|
                        0 <= a < b < self.tabs@.len() implies (#[trigger] self.tabs@[a]).id != (
                    #[trigger] self.tabs@[b]).id by {
                        if b < index {
                            assert(self.tabs@[a] == m.spec_tabs()[a]);
                            assert(self.tabs@[b] == m.spec_tabs()[b]);
                        } else if a < index {
                            assert(self.tabs@[a] == m.spec_tabs()[a]);
                            assert(self.tabs@[b] == m.spec_tabs()[b + 1]);
                        } else {
                            assert(self.tabs@[a] == m.spec_tabs()[a + 1]);
                            assert(self.tabs@[b] == m.spec_tabs()[b + 1]);
                        }
                    }
                    if !same {
                        match m.spec_active() {
                            Some(aid) => {
                                let k = choose|k: int|
                                    0 <= k < m.spec_tabs().len() && m.spec_tabs()[k].id == aid;
                                if k < index {
                                    assert(self.tabs@[k] == m.spec_tabs()[k]);
                                } else {
                                    assert(k > index);
                                    assert(self.tabs@[k - 1] == m.spec_tabs()[k]);
                                }
                            },
                            None => {},
                        }
                    }
                }
                true
            },
        }
    }

    /// Make the tab with identifier `id` active (and mark it so); returns
    /// whether it exists. The previously active tab is unmarked.
    pub fn activate_tab(&mut self, id: TabId) -> (r: bool)
        requires
            old(self).wf(),
        ensures
            final(self).wf(),
            r == spec_has_id(old(self).spec_tabs(), id),
            !r ==> *final(self) == *old(self),
            r ==> final(self).spec_active() == Some(id),
            r ==> final(self).spec_tabs().len() == old(self).spec_tabs().len(),
            r ==> forall|k: int|
                0 <= k < final(self).spec_tabs().len()
                    ==> #[trigger] final(self).spec_tabs()[k] == (if old(self).spec_tabs()[k].id
                    == id {
                    Tab { is_active: true, ..old(self).spec_tabs()[k] }
                } else if old(self).spec_active() == Some(old(self).spec_tabs()[k].id) {
                    Tab { is_active: false, ..old(self).spec_tabs()[k] }
                } else {
                    old(self).spec_tabs()[k]
                }),
            r ==> final(self).spec_next_id() == old(self).spec_next_id(),
    {
        let ghost m = *self;
        let mut exists_id = false;
        let mut i: usize = 0;
        while i < self.tabs.len()
            invariant
                i <= self.tabs@.len(),
                *self == m,
                exists_id == exists|j: int| 0 <= j < i && (#[trigger] m.spec_tabs()[j]).id == id,
            decreases self.tabs@.len() - i,
        {
            if self.tabs[i].id == id {
                exists_id = true;
            }
            i = i + 1;
        }
        if !exists_id {
            return false;
        }
        // Unmark the previously active tab, then mark the new one.
        match self.active_tab_id {
            Some(aid) => {
                let mut j: usize = 0;
                let ghost before = self.tabs@;
                while j < self.tabs.len()
                    invariant
                        j <= self.tabs@.len(),
                        self.tabs@.len() == before.len(),
                        self.active_tab_id == m.active_tab_id,
                        self.next_id == m.next_id,
                        forall|k: int|
                            0 <= k < self.tabs@.len() ==> (#[trigger] self.tabs@[k]) == (if k < j
                                && before[k].id == aid {
                                Tab { is_active: false, ..before[k] }
                            } else {
                                before[k]
                            }),
                    decreases self.tabs@.len() - j,
                {
                    if self.tabs[j].id == aid {
                        let flag = false;
                        let t = &mut self.tabs[j];
                        t.set_active(flag);
                    }
                    j = j + 1;
                }
            },
            None => {},
        }
        let ghost mid = self.tabs@;
        let mut j: usize = 0;
        while j < self.tabs.len()
            invariant
                j <= self.tabs@.len(),
                self.tabs@.len() == mid.len(),
                self.active_tab_id == m.active_tab_id,
                self.next_id == m.next_id,
                forall|k: int|
                    0 <= k < self.tabs@.len() ==> (#[trigger] self.tabs@[k]) == (if k < j
                        && mid[k].id == id {
                        Tab { is_active: true, ..mid[k] }
                    } else {
                        mid[k]
                    }),
            decreases self.tabs@.len() - j,
        {
            if self.tabs[j].id == id {
                let t = &mut self.tabs[j];
                t.set_active(true);
            }
            j = j + 1;
        }
        self.active_tab_id = Some(id);
        proof {
            assert(spec_has_id(self.tabs@, id)) by {
                let w = choose|w: int|
                    0 <= w < m.spec_tabs().len() && (#[trigger] m.spec_tabs()[w]).id == id;
                assert(self.tabs@[w].id == id);
            }
        }
        true
    }

    /// Activate the tab to the right of the active one, wrapping at the
    /// end; without an active tab nothing changes.
    pub fn next_tab(&mut self)
        requires
            old(self).wf(),
        ensures
            final(self).wf(),
            old(self).spec_active() is None ==> *final(self) == *old(self),
            final(self).spec_tabs().len() == old(self).spec_tabs().len(),
            old(self).spec_active() is Some ==> exists|i: int|
                {
                    &&& 0 <= i < old(self).spec_tabs().len()
                    &&& Some((#[trigger] old(self).spec_tabs()[i]).id) == old(self).spec_active()
                    &&& final(self).spec_active() == Some(
                        old(self).spec_tabs()[(i + 1) % (old(self).spec_tabs().len() as int)].id,
                    )
                },
    {
        let aid = match self.active_tab_id {
            Some(aid) => aid,
            None => {
                return ;
            },
        };
        let ghost m = *self;
        let mut i: usize = 0;
        while i < self.tabs.len()
            invariant
                i <= self.tabs@.len(),
                *self == m,
                m == *old(self),
                m.wf(),
                self.active_tab_id == Some(aid),
                spec_has_id(self.tabs@, aid),
                forall|j: int| 0 <= j < i ==> (#[trigger] self.tabs@[j]).id != aid,
            decreases self.tabs@.len() - i,
        {
            if self.tabs[i].id == aid {
                let next = if i + 1 == self.tabs.len() {
                    0
                } else {
                    i + 1
                };
                proof {
                    if i + 1 == self.tabs@.len() {
                        vstd::arithmetic::div_mod::lemma_mod_self_0(self.tabs@.len() as int);
                    } else {
                        vstd::arithmetic::div_mod::lemma_small_mod(
                            (i + 1) as nat,
                            self.tabs@.len() as nat,
                        );
                    }
                    assert((i + 1) % (self.tabs@.len() as int) == next as int);
                }
                let next_id = self.tabs[next].id;
                let ok = self.activate_tab(next_id);
                proof {
                    assert(ok);
                }
                return ;
            }
            i = i + 1;
        }
        proof {
            assert(false);
        }
    }

    /// Activate the tab to the left of the active one, wrapping at the
    /// start; without an active tab nothing changes.
    pub fn prev_tab(&mut self)
        requires
            old(self).wf(),
        ensures
            final(self).wf(),
            old(self).spec_active() is None ==> *final(self) == *old(self),
            final(self).spec_tabs().len() == old(self).spec_tabs().len(),
            old(self).spec_active() is Some ==> exists|i: int|
                {
                    &&& 0 <= i < old(self).spec_tabs().len()
                    &&& Some((#[trigger] old(self).spec_tabs()[i]).id) == old(self).spec_active()
                    &&& final(self).spec_active() == Some(
                        old(self).spec_tabs()[if i == 0 {
                            old(self).spec_tabs().len() - 1
                        } else {
                            i - 1
                        }].id,
                    )
                },
    {
        let aid = match self.active_tab_id {
            Some(aid) => aid,
            None => {
                return ;
            },
        };
        let ghost m = *self;
        let mut i: usize = 0;
        while i < self.tabs.len()
            invariant
                i <= self.tabs@.len(),
                *self == m,
                m == *old(self),
                m.wf(),
                self.active_tab_id == Some(aid),
                spec_has_id(self.tabs@, aid),
                forall|j: int| 0 <= j < i ==> (#[trigger] self.tabs@[j]).id != aid,
            decreases self.tabs@.len() - i,
        {
            if self.tabs[i].id == aid {
                let prev = if i == 0 {
                    self.tabs.len() - 1
                } else {
                    i - 1
                };
                let prev_id = self.tabs[prev].id;
                let ok = self.activate_tab(prev_id);
                proof {
                    assert(ok);
                }
                return ;
            }
            i = i + 1;
        }
        proof {
            assert(false);
        }
    }

    /// The active tab, if any.
    pub fn active_tab(&self) -> (r: Option<&Tab>)
        requires
            self.wf(),
        ensures
            match r {
                Some(t) => self.spec_active() == Some(t.id) && spec_has_id(
                    self.spec_tabs(),
                    t.id,
                ),
                None => self.spec_active() is None,
            },
    {
        match self.active_tab_id {
            Some(aid) => {
                let mut i: usize = 0;
                while i < self.tabs.len()
                    invariant
                        i <= self.tabs@.len(),
                        self.active_tab_id == Some(aid),
                        spec_has_id(self.tabs@, aid),
                        forall|j: int| 0 <= j < i ==> (#[trigger] self.tabs@[j]).id != aid,
                    decreases self.tabs@.len() - i,
                {
                    if self.tabs[i].id == aid {
                        return Some(&self.tabs[i]);
                    }
                    i = i + 1;
                }
                proof {
                    assert(false);
                }
                None
            },
            None => None,
        }
    }

    /// The tab with identifier `id`, if it exists.
    pub fn get_tab(&self, id: TabId) -> (r: Option<&Tab>)
        ensures
            match r {
                Some(t) => t.id == id && spec_has_id(self.spec_tabs(), id),
                None => !spec_has_id(self.spec_tabs(), id),
            },
    {
        let mut i: usize = 0;
        while i < self.tabs.len()
            invariant
                i <= self.tabs@.len(),
                forall|j: int| 0 <= j < i ==> (#[trigger] self.tabs@[j]).id != id,
            decreases self.tabs@.len() - i,
        {
            if self.tabs[i].id == id {
                return Some(&self.tabs[i]);
            }
            i = i + 1;
        }
        None
    }

    /// All tabs, in display order.
    pub fn all_tabs(&self) -> (r: &Vec<Tab>)
        ensures
            r@ == self.spec_tabs(),
    {
        &self.tabs
    }

    /// How many tabs are open.
    pub fn tab_count(&self) -> (r: usize)
        ensures
            r == self.spec_tabs().len(),
    {
        self.tabs.len()
    }

    /// The identifier of the active tab, if any.
    pub fn active_tab_id(&self) -> (r: Option<TabId>)
        ensures
            r == self.spec_active(),
    {
        self.active_tab_id
    }

    /// Rename the tab with identifier `id`; returns whether it exists.
    pub fn update_tab_title(&mut self, id: TabId, title: String) -> (r: bool)
        requires
            old(self).wf(),
        ensures
            final(self).wf(),
            r == spec_has_id(old(self).spec_tabs(), id),
            !r ==> *final(self) == *old(self),
            r ==> exists|i: int|
                {
                    &&& 0 <= i < old(self).spec_tabs().len()
                    &&& old(self).spec_tabs()[i].id == id
                    &&& final(self).spec_tabs() == old(self).spec_tabs().update(
                        i,
                        Tab { title: title, ..old(self).spec_tabs()[i] },
                    )
                },
            r ==> final(self).spec_active() == old(self).spec_active()
                && final(self).spec_next_id() == old(self).spec_next_id(),
    {
        let ghost m = *self;
        let mut i: usize = 0;
        while i < self.tabs.len()
            invariant
                i <= self.tabs@.len(),
                *self == m,
                m == *old(self),
                m.wf(),
                forall|j: int| 0 <= j < i ==> (#[trigger] self.tabs@[j]).id != id,
            decreases self.tabs@.len() - i,
        {
            if self.tabs[i].id == id {
                let t = &mut self.tabs[i];
                t.title = title;
                proof {
                    assert(m.spec_tabs()[i as int].id == id);
                    assert(spec_has_id(m.spec_tabs(), id));
                    assert(self.tabs@ == m.spec_tabs().update(
                        i as int,
                        Tab { title: self.tabs@[i as int].title, ..m.spec_tabs()[i as int] },
                    ));
                    assert(forall|k: int|
                        0 <= k < self.tabs@.len() ==> (#[trigger] self.tabs@[k]).id
                            == m.spec_tabs()[k].id);
                    match m.spec_active() {
                        Some(aid) => {
                            assert(spec_has_id(m.spec_tabs(), aid));
                            let w = choose|w: int|
                                0 <= w < m.spec_tabs().len() && m.spec_tabs()[w].id == aid;
                            assert(self.tabs@[w].id == aid);
                            assert(spec_has_id(self.tabs@, aid));
                        },
                        None => {},
                    }
                }
                return true;
            }
            i = i + 1;
        }
        false
    }

}

} // verus!
