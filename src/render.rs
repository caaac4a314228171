//! The screen: a header with the path, one fixed-width row per visible
//! entry, blank rows, and the query line.

use vstd::prelude::*;
use vstd::string::StringExecFns;
use crate::cli::Cli;
use crate::clock::{local_time, now_local, date_of, date_of_secs, elapsed_text, fmt_date_time, fmt_est_time_passed, long_date_text};
use crate::fmt::{digits, fit, pad_left, pad_right, push_fit, push_num, push_pad_right, push_repeat, repeat, truncate_str, truncated};
use crate::item::{Item, ItemType};
use crate::os_generic::{canonical_text, fmt_canonical_path};

verus! {

/// Width of the name column.
pub const NAME_WIDTH: usize = 32;
/// Width of each elapsed-time column.
pub const AGO_WIDTH: usize = 11;

/// The kind column: a byte count, a directory marker or a link marker.
pub open spec fn type_text(ty: ItemType) -> Seq<char> {
    match ty {
        ItemType::File(b) => pad_left(digits(b as nat), 10, ' ') + " bytes"@,
        ItemType::Dir => "           <dir>"@,
        ItemType::Link(_) => "         => ... "@,
    }
}

/// The name as shown: directories end in `/`, other names in a space.
pub open spec fn shown_name(it: Item) -> Seq<char> {
    it.name@ + if it.ty is Dir { "/"@ } else { " "@ }
}

/// One entry as a table row, its access and write times measured at `now`.
pub open spec fn item_text(it: Item, now: u64) -> Seq<char> {
    "| "@ + pad_right(truncated(shown_name(it), NAME_WIDTH as nat), NAME_WIDTH as nat) + " | "@
        + type_text(it.ty) + " "@ + (if it.readonly { " R"@ } else { "RW"@ }) + " | "@
        + long_date_text(date_of(it.created), it.created) + " | "@
        + pad_right(elapsed_text(it.last_accessed, now), AGO_WIDTH as nat) + " | "@
        + pad_right(elapsed_text(it.last_written, now), AGO_WIDTH as nat) + " |"@
}

impl Item {
    /// This entry as a table row, with times measured at `now`.
    pub fn render(&self, now: u64) -> (r: String)
        ensures
            r@ == item_text(*self, now),
    {
        let mut name = self.name.clone();
        match &self.ty {
            ItemType::Dir => name.append("/"),
            _ => name.append(" "),
        }
        let mut out = String::new();
        out.append("| ");
        let short = truncate_str(name.as_str(), NAME_WIDTH);
        push_pad_right(&mut out, short.as_str(), NAME_WIDTH);
        out.append(" | ");
        match &self.ty {
            ItemType::File(b) => {
                push_num(&mut out, *b, 10, ' ');
                out.append(" bytes");
            },
            ItemType::Dir => out.append("           <dir>"),
            ItemType::Link(_) => out.append("         => ... "),
        }
        out.append(" ");
        if self.readonly {
            out.append(" R");
        } else {
            out.append("RW");
        }
        out.append(" | ");
        let created = fmt_date_time(date_of_secs(self.created), self.created);
        out.append(created.as_str());
        out.append(" | ");
        let accessed = fmt_est_time_passed(self.last_accessed, now);
        push_pad_right(&mut out, accessed.as_str(), AGO_WIDTH);
        out.append(" | ");
        let written = fmt_est_time_passed(self.last_written, now);
        push_pad_right(&mut out, written.as_str(), AGO_WIDTH);
        out.append(" |");
        assert(out@ =~= item_text(*self, now));
        out
    }
}


/// Row `i` of the visible list, marked when selected, exactly `w` wide.
pub open spec fn row_text(c: Cli, i: int, w: nat, now: u64) -> Seq<char> {
    fit((if i == c.selected_item { "> "@ } else { "  "@ }) + item_text(c.visible()[i], now), w)
}

/// The first `k` rows of the visible list.
pub open spec fn rows_text(c: Cli, k: nat, w: nat, now: u64) -> Seq<char>
    decreases k,
{
    if k == 0 {
        Seq::empty()
    } else {
        rows_text(c, (k - 1) as nat, w, now) + row_text(c, k - 1, w, now)
    }
}

/// `n` blank rows of width `w`.
pub open spec fn blank_rows(w: nat, n: nat) -> Seq<char>
    decreases n,
{
    if n == 0 {
        Seq::empty()
    } else {
        blank_rows(w, (n - 1) as nat) + repeat(' ', w)
    }
}

/// The number of blank rows that fill a screen of height `h` below `n` rows.
pub open spec fn blank_count(h: nat, n: nat) -> nat {
    if h >= n + 2 { (h - n - 2) as nat } else { 0 }
}

/// The whole screen for a terminal of `w` columns and `h` rows at time `now`.
pub open spec fn screen_text(c: Cli, w: nat, h: nat, now: u64) -> Seq<char> {
    fit(canonical_text(c.path@), w) + rows_text(c, c.visible_count(), w, now) + blank_rows(
        w,
        blank_count(h, c.visible_count()),
    ) + fit(":"@ + c.query_string@ + "¦"@, w)
}

impl Cli {
    /// The entry at row `i` of the visible list.
    pub fn visible_item(&self, i: usize) -> (r: &Item)
        requires
            self.wf(),
            i < self.visible_count(),
        ensures
            *r == self.visible()[i as int],
    {
        if i == 0 {
            &self.parent
        } else if i == 1 {
            &self.here
        } else {
            &self.dir_items[self.sorted_items[i - 2]]
        }
    }

    /// Draws the screen for a terminal of `w` columns and `h` rows, with
    /// times measured at `now`. Each line is exactly `w` characters wide.
    pub fn render(&self, w: usize, h: usize, now: u64) -> (r: String)
        requires
            self.wf(),
        ensures
            r@ == screen_text(*self, w as nat, h as nat, now),
    {
        let mut out = String::new();
        let shown = fmt_canonical_path(self.path.as_str());
        push_fit(&mut out, shown.as_str(), w);
        let count = self.sorted_items.len() + 2;
        let mut i: usize = 0;
        while i < count
            invariant
                self.wf(),
                count == self.visible_count(),
                i <= count,
                out@ == fit(canonical_text(self.path@), w as nat) + rows_text(*self, i as nat, w as nat, now),
            decreases count - i,
        {
            let mut line = String::new();
            if i == self.selected_item {
                line.append("> ");
            } else {
                line.append("  ");
            }
            let it = self.visible_item(i);
            let body = it.render(now);
            line.append(body.as_str());
            push_fit(&mut out, line.as_str(), w);
            i = i + 1;
            assert(out@ =~= fit(canonical_text(self.path@), w as nat) + rows_text(*self, i as nat, w as nat, now));
        }
        let ghost head = out@;
        let blanks: usize = if h >= 2 && h - 2 >= count { h - 2 - count } else { 0 };
        let mut k: usize = 0;
        while k < blanks
            invariant
                k <= blanks,
                out@ == head + blank_rows(w as nat, k as nat),
            decreases blanks - k,
        {
            push_repeat(&mut out, ' ', w);
            k = k + 1;
            assert(out@ =~= head + blank_rows(w as nat, k as nat));
        }
        let mut last = String::new();
        last.append(":");
        last.append(self.query_string.as_str());
        last.append("¦");
        push_fit(&mut out, last.as_str(), w);
        assert(out@ =~= screen_text(*self, w as nat, h as nat, now));
        out
    }

    /// Draws the screen with times measured now on the local wall clock.
    pub fn render_now(&self, w: usize, h: usize) -> (r: String)
        requires
            self.wf(),
        ensures
            exists|now: u64|
                r@ == screen_text(*self, w as nat, h as nat, now) && (now == 0 || exists|
                    t: u64,
                    o: int,
                | -86_400 < o < 86_400 && local_time(t as int, o) == Some(now as nat)),
    {
        self.render(w, h, now_local())
    }
}

} // verus!
