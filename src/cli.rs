//! The session controller: current directory, ranked view, selection and
//! query, driven one input byte at a time.

use vstd::prelude::*;
use crate::item::{Item, ItemType, MetaInfo};
use crate::rank::{is_index_permutation, is_ranked, rank};
use vstd::string::StringExecFns;

verus! {

/// What the caller must do after a byte has been handled.
pub enum Action {
    /// Nothing beyond drawing the screen again.
    Redraw,
    /// End the session: save the current path and restore the terminal.
    Quit,
    /// Open the named entry of the current directory with its default handler.
    Open(String),
    /// Change to the directory at this path relative to the current one.
    Enter(String),
}

/// The byte that announces an extended key; the next byte names the key.
pub const EXT_PREFIX: u8 = 224;
/// Extended key codes.
pub const KEY_UP: u8 = 72;
pub const KEY_DOWN: u8 = 80;
pub const KEY_PAGE_UP: u8 = 73;
pub const KEY_PAGE_DOWN: u8 = 81;
pub const KEY_DELETE: u8 = 83;
/// Plain key codes.
pub const KEY_CTRL_C: u8 = 3;
pub const KEY_BACKSPACE: u8 = 8;
pub const KEY_ENTER: u8 = 13;
pub const KEY_ESCAPE: u8 = 27;

/// The whole state of one browsing session.
pub struct Cli {
    /// The canonical path of the current directory.
    pub path: String,
    /// The entries of the current directory, in the order they were read.
    pub dir_items: Vec<Item>,
    /// The ranked order of `dir_items` for the current query.
    pub sorted_items: Vec<usize>,
    /// The synthetic entry `.` for the current directory.
    pub here: Item,
    /// The synthetic entry `..` for the parent directory.
    pub parent: Item,
    /// Index of the selected row of the visible list.
    pub selected_item: usize,
    pub query_string: String,
    /// The previous byte was the extended-key prefix.
    pub pending_ext: bool,
}

/// `it` is the synthetic directory entry called `name` with metadata `m`.
pub open spec fn is_dir_item(it: Item, name: Seq<char>, m: MetaInfo) -> bool {
    &&& it.ty is Dir
    &&& it.name@ == name
    &&& it.readonly == m.readonly
    &&& it.created == m.created
    &&& it.last_accessed == m.last_accessed
    &&& it.last_written == m.last_written
}

impl Cli {
    /// The ordered list that is shown: `..`, `.`, then the ranked entries.
    pub open spec fn visible(&self) -> Seq<Item> {
        seq![self.parent, self.here] + self.sorted_items@.map_values(
            |i: usize| self.dir_items@[i as int],
        )
    }

    pub open spec fn visible_count(&self) -> nat {
        self.sorted_items@.len() + 2
    }

    pub open spec fn wf(&self) -> bool {
        &&& self.parent.name@ == ".."@
        &&& self.parent.ty is Dir
        &&& self.here.name@ == "."@
        &&& self.here.ty is Dir
        &&& is_index_permutation(self.sorted_items@, self.dir_items@.len())
        &&& is_ranked(self.dir_items@, self.query_string@, self.sorted_items@)
        &&& self.selected_item < self.visible_count()
        &&& self.dir_items@.len() + 2 <= usize::MAX
    }
}


/// A synthetic directory entry called `name` with metadata `m`.
fn make_dir_item(name: &str, m: MetaInfo) -> (r: Item)
    ensures
        is_dir_item(r, name@, m),
{
    Item {
        ty: ItemType::Dir,
        name: String::from_str(name),
        readonly: m.readonly,
        created: m.created,
        last_accessed: m.last_accessed,
        last_written: m.last_written,
    }
}

/// The selection a fresh directory starts with: the first real entry, or
/// `.` when the directory is empty.
pub open spec fn initial_selection(n_items: nat) -> nat {
    if n_items == 0 { 1 } else { 2 }
}

impl Cli {
    /// The state right after changing into `path`.
    pub open spec fn entered(&self, path: String, items: Seq<Item>, here: MetaInfo, parent: MetaInfo) -> bool {
        &&& self.wf()
        &&& self.path == path
        &&& self.dir_items@ == items
        &&& self.query_string@ == Seq::<char>::empty()
        &&& is_dir_item(self.here, "."@, here)
        &&& is_dir_item(self.parent, ".."@, parent)
        &&& self.selected_item == initial_selection(items.len())
        &&& !self.pending_ext
    }

    /// Starts a session in `path`, whose entries are `items`.
    pub fn new(path: String, items: Vec<Item>, here: MetaInfo, parent: MetaInfo) -> (r: Self)
        requires
            items.len() + 2 <= usize::MAX,
        ensures
            r.entered(path, items@, here, parent),
    {
        let sorted_items = rank(&items, &String::new());
        let selected_item: usize = if items.len() == 0 { 1 } else { 2 };
        Cli {
            path,
            dir_items: items,
            sorted_items,
            here: make_dir_item(".", here),
            parent: make_dir_item("..", parent),
            selected_item,
            query_string: String::new(),
            pending_ext: false,
        }
    }

    /// Replaces the session's directory after a successful change into `path`:
    /// the query is cleared and the first real entry selected.
    pub fn move_dir(&mut self, path: String, items: Vec<Item>, here: MetaInfo, parent: MetaInfo)
        requires
            items.len() + 2 <= usize::MAX,
        ensures
            final(self).entered(path, items@, here, parent),
    {
        *self = Cli::new(path, items, here, parent);
    }

    /// Ranks the entries again for the current query; nothing else changes.
    pub fn resort(&mut self)
        requires
            old(self).dir_items@.len() + 2 <= usize::MAX,
        ensures
            is_index_permutation(final(self).sorted_items@, final(self).dir_items@.len()),
            is_ranked(final(self).dir_items@, final(self).query_string@, final(self).sorted_items@),
            final(self).path == old(self).path,
            final(self).dir_items == old(self).dir_items,
            final(self).here == old(self).here,
            final(self).parent == old(self).parent,
            final(self).selected_item == old(self).selected_item,
            final(self).query_string == old(self).query_string,
            final(self).pending_ext == old(self).pending_ext,
    {
        self.sorted_items = rank(&self.dir_items, &self.query_string);
    }
}


/// Everything but the selection and the prefix flag is the same in `a` and `b`.
pub open spec fn keeps_listing(a: Cli, b: Cli) -> bool {
    &&& a.path == b.path
    &&& a.dir_items == b.dir_items
    &&& a.sorted_items == b.sorted_items
    &&& a.here == b.here
    &&& a.parent == b.parent
    &&& a.query_string == b.query_string
}

/// The directory, its entries and the selection are those of `a`; only the
/// query (and so the ranking) may differ.
pub open spec fn keeps_directory(a: Cli, b: Cli) -> bool {
    &&& a.path == b.path
    &&& a.dir_items == b.dir_items
    &&& a.here == b.here
    &&& a.parent == b.parent
    &&& a.selected_item == b.selected_item
    &&& !b.pending_ext
}

/// The selection after the extended key `c`.
pub open spec fn moved_selection(sel: usize, count: nat, c: u8) -> int {
    if c == KEY_UP {
        if sel > 0 { sel - 1 } else { sel as int }
    } else if c == KEY_DOWN {
        if sel + 1 < count { sel + 1 } else { sel as int }
    } else if c == KEY_PAGE_UP {
        0
    } else if c == KEY_PAGE_DOWN {
        count - 1
    } else {
        sel as int
    }
}

/// `r` tells the caller to change to the path `rel`.
pub open spec fn enters(r: Action, rel: Seq<char>) -> bool {
    r matches Action::Enter(s) && s@ == rel
}

/// The action that Enter asks for on the selected row of `o`.
pub open spec fn enter_action(o: Cli, r: Action) -> bool {
    if o.selected_item == 0 {
        enters(r, ".."@)
    } else if o.selected_item == 1 {
        enters(r, "."@)
    } else {
        let it = o.visible()[o.selected_item as int];
        match it.ty {
            ItemType::File(_) => r == Action::Open(it.name),
            _ => r == Action::Enter(it.name),
        }
    }
}

/// How the byte `c` that follows the extended-key prefix is handled.
pub open spec fn ext_step(o: Cli, c: u8, n: Cli, r: Action) -> bool {
    &&& keeps_listing(o, n)
    &&& !n.pending_ext
    &&& if c == KEY_DELETE {
        n.selected_item == o.selected_item && enters(r, ".."@)
    } else {
        r is Redraw && n.selected_item == moved_selection(o.selected_item, o.visible_count(), c)
    }
}

/// How a byte `c` that does not follow the prefix is handled.
pub open spec fn plain_step(o: Cli, c: u8, n: Cli, r: Action) -> bool {
    if c == KEY_CTRL_C {
        r is Quit && n == o
    } else if c == EXT_PREFIX {
        r is Redraw && keeps_listing(o, n) && n.selected_item == o.selected_item && n.pending_ext
    } else if c == KEY_ESCAPE {
        enters(r, ".."@) && n == o
    } else if c == KEY_ENTER {
        enter_action(o, r) && n == o
    } else if c == KEY_BACKSPACE {
        &&& r is Redraw
        &&& keeps_directory(o, n)
        &&& n.query_string@ == if o.query_string@.len() > 0 {
            o.query_string@.drop_last()
        } else {
            o.query_string@
        }
    } else if 32 <= c <= 126 {
        &&& r is Redraw
        &&& keeps_directory(o, n)
        &&& n.query_string@ == o.query_string@.push(c as char)
    } else {
        r is Redraw && n == o
    }
}

impl Cli {
    /// Handles one input byte: moves the selection, edits the query, or tells
    /// the caller to quit, open a file or change directory.
    pub fn handle_input(&mut self, c: u8) -> (r: Action)
        requires
            old(self).wf(),
        ensures
            final(self).wf(),
            old(self).pending_ext ==> ext_step(*old(self), c, *final(self), r),
            !old(self).pending_ext ==> plain_step(*old(self), c, *final(self), r),
    {
        if self.pending_ext {
            self.pending_ext = false;
            let count = self.sorted_items.len() + 2;
            if c == KEY_UP {
                if self.selected_item > 0 {
                    self.selected_item = self.selected_item - 1;
                }
            } else if c == KEY_DOWN {
                if self.selected_item + 1 < count {
                    self.selected_item = self.selected_item + 1;
                }
            } else if c == KEY_PAGE_UP {
                self.selected_item = 0;
            } else if c == KEY_PAGE_DOWN {
                self.selected_item = count - 1;
            } else if c == KEY_DELETE {
                return Action::Enter(String::from_str(".."));
            }
            return Action::Redraw;
        }
        if c == KEY_CTRL_C {
            Action::Quit
        } else if c == EXT_PREFIX {
            self.pending_ext = true;
            Action::Redraw
        } else if c == KEY_ESCAPE {
            Action::Enter(String::from_str(".."))
        } else if c == KEY_ENTER {
            self.enter_selected()
        } else if c == KEY_BACKSPACE {
            let _ = self.query_string.pop();
            self.resort();
            Action::Redraw
        } else if 32 <= c && c <= 126 {
            self.query_string.push(c as char);
            self.resort();
            Action::Redraw
        } else {
            Action::Redraw
        }
    }

    /// The action for Enter on the selected row.
    fn enter_selected(&self) -> (r: Action)
        requires
            self.wf(),
        ensures
            enter_action(*self, r),
    {
        if self.selected_item == 0 {
            return Action::Enter(String::from_str(".."));
        }
        if self.selected_item == 1 {
            return Action::Enter(String::from_str("."));
        }
        let idx = self.sorted_items[self.selected_item - 2];
        let it = &self.dir_items[idx];
        assert(self.visible()[self.selected_item as int] == *it);
        match &it.ty {
            ItemType::File(_) => Action::Open(it.name.clone()),
            _ => Action::Enter(it.name.clone()),
        }
    }
}


/// Whatever the query and whatever the directory holds, even nothing, `..`
/// is the first visible row and `.` the second, followed by every entry.
pub proof fn lemma_dots_lead(c: Cli)
    requires
        c.wf(),
    ensures
        c.visible().len() == c.dir_items@.len() + 2,
        c.visible()[0].name@ == ".."@,
        c.visible()[1].name@ == "."@,
{
}


/// Enter on the `..` row asks to change to the parent directory and leaves
/// the session as it was until that change is made.
pub proof fn lemma_enter_on_parent(o: Cli, n: Cli, r: Action)
    requires
        o.wf(),
        !o.pending_ext,
        o.selected_item == 0,
        plain_step(o, KEY_ENTER, n, r),
    ensures
        enters(r, ".."@),
        n == o,
{
}

/// After changing directory the query is empty and the selection is the
/// first real entry, or `.` when there is none: `min(rows - 1, 2)`.
pub proof fn lemma_entered_resets(c: Cli, path: String, items: Seq<Item>, here: MetaInfo, parent: MetaInfo)
    requires
        c.entered(path, items, here, parent),
    ensures
        c.path == path,
        c.query_string@.len() == 0,
        c.selected_item == if c.visible_count() - 1 < 2 { c.visible_count() - 1 } else { 2 },
{
}

} // verus!
