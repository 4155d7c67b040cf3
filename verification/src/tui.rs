use vstd::prelude::*;
use fuzzy_matcher::FuzzyMatcher;
use crate::conn::{answered_entries, DbCall, SqlValue};
use crate::db::{ClipEntry, Store, ALL_LIMIT, DELETE_SQL, RECENT_SQL};
use crate::filter::{rank_matches, ranking};
use crate::text::{chars_vec, first_line, first_line_bounds, string_from_chars};

verus! {

// ---------------------------------------------------------------------------
// Fuzzy filtering
// ---------------------------------------------------------------------------

/// The score that `fuzzy_matcher`'s default `SkimMatcherV2` gives `pattern` against `choice`;
/// `None` when it does not match.
pub uninterp spec fn skim_score(choice: Seq<char>, pattern: Seq<char>) -> Option<i64>;

/// `SkimMatcherV2::default().fuzzy_match(choice, pattern)`: the score is named [`skim_score`]
/// of the two strings; an empty pattern scores 0 (`SkimMatcherV2::fuzzy` returns early for it).
#[verifier::external_body]
fn fuzzy_match(choice: &str, pattern: &str) -> (r: Option<i64>)
    ensures
        r == skim_score(choice@, pattern@),
        pattern@.len() == 0 ==> r == Some(0i64),
{
    fuzzy_matcher::skim::SkimMatcherV2::default().fuzzy_match(choice, pattern)
}

/// The fuzzy score of each entry's content against the query.
pub open spec fn entry_scores(entries: Seq<ClipEntry>, query: Seq<char>) -> Seq<Option<i64>> {
    Seq::new(entries.len(), |i: int| skim_score(entries[i].content@, query))
}

/// `0, 1, ..., n - 1`.
pub open spec fn all_indices(n: nat) -> Seq<usize> {
    Seq::new(n, |i: int| i as usize)
}

/// The entries shown for a query, as indices into `entries`: all of them in order for an empty
/// query, otherwise the matching ones, best match first (earlier entries first among equals).
pub open spec fn filter_spec(entries: Seq<ClipEntry>, query: Seq<char>) -> Seq<usize> {
    if query.len() == 0 {
        all_indices(entries.len())
    } else {
        ranking(entry_scores(entries, query))
    }
}

/// The indices shown for `query` among `entries`.
pub fn filter_entries(entries: &[ClipEntry], query: &str) -> (r: Vec<usize>)
    ensures
        r@ == filter_spec(entries@, query@),
{
    let n = entries.len();
    let qs = chars_vec(query);
    if qs.len() == 0 {
        let mut r: Vec<usize> = Vec::new();
        let mut i: usize = 0;
        while i < n
            invariant
                i <= n == entries@.len(),
                r@ == all_indices(i as nat),
            decreases n - i,
        {
            r.push(i);
            assert(r@ == all_indices((i + 1) as nat));
            i = i + 1;
        }
        return r;
    }
    let mut scores: Vec<Option<i64>> = Vec::new();
    let mut i: usize = 0;
    while i < n
        invariant
            i <= n == entries@.len(),
            scores@ == entry_scores(entries@, query@).take(i as int),
        decreases n - i,
    {
        let s = fuzzy_match(entries[i].content.as_str(), query);
        scores.push(s);
        assert(scores@ == entry_scores(entries@, query@).take(i + 1));
        i = i + 1;
    }
    assert(scores@ == entry_scores(entries@, query@));
    rank_matches(scores.as_slice())
}

/// Every index shown is an index of an entry.
pub proof fn lemma_filter_indices(entries: Seq<ClipEntry>, query: Seq<char>)
    requires
        entries.len() <= usize::MAX,
    ensures
        forall|k: int| 0 <= k < filter_spec(entries, query).len() ==> (#[trigger] filter_spec(entries, query)[k] as int) < entries.len(),
{
    if query.len() > 0 {
        crate::filter::lemma_ranking_is_ranking(entry_scores(entries, query));
    }
}

} // verus!

verus! {

// ---------------------------------------------------------------------------
// Keys and commands
// ---------------------------------------------------------------------------

/// A key, as the picker reads it from the terminal.
#[derive(Debug)]
pub enum KeyCode {
    Char(char),
    Enter,
    Esc,
    Backspace,
    Up,
    Down,
    Other,
}

/// A key press: the key and whether Control was held.
#[derive(Debug)]
pub struct KeyPress {
    pub code: KeyCode,
    pub ctrl: bool,
}

/// The picker's input mode: Normal (vim-style navigation) or Insert (typing the search).
#[derive(Debug)]
pub enum Mode {
    Normal,
    Insert,
}

/// The first key of a two-key Normal-mode command that is waiting for its second key.
#[derive(Debug)]
pub enum Pending {
    Nothing,
    /// `g` was pressed: a second `g` jumps to the top.
    G,
    /// `d` was pressed: a second `d` deletes the selected entry.
    D,
}

/// What a key press asks the picker to do.
#[derive(Debug)]
pub enum Command {
    Quit,
    MoveUp,
    MoveDown,
    Top,
    Bottom,
    HalfPageDown,
    HalfPageUp,
    Copy,
    Delete,
    EnterInsert,
    LeaveInsert,
    PushChar(char),
    PopChar,
    ClearQuery,
    AwaitG,
    AwaitD,
    Nothing,
}

/// The Normal-mode key map: `j`/`k`/arrows move, `G` jumps to the bottom, `g` and `d` start
/// `gg` and `dd`, Ctrl+d / Ctrl+u move half a page, Enter copies, `/` or `i` start a search,
/// `q` or Esc quit.
pub open spec fn normal_command(key: KeyPress) -> Command {
    match key.code {
        KeyCode::Char(c) => if key.ctrl {
            if c == 'd' {
                Command::HalfPageDown
            } else if c == 'u' {
                Command::HalfPageUp
            } else {
                Command::Nothing
            }
        } else if c == 'j' {
            Command::MoveDown
        } else if c == 'k' {
            Command::MoveUp
        } else if c == 'G' {
            Command::Bottom
        } else if c == 'g' {
            Command::AwaitG
        } else if c == 'd' {
            Command::AwaitD
        } else if c == '/' || c == 'i' {
            Command::EnterInsert
        } else if c == 'q' {
            Command::Quit
        } else {
            Command::Nothing
        },
        KeyCode::Down => Command::MoveDown,
        KeyCode::Up => Command::MoveUp,
        KeyCode::Enter => Command::Copy,
        KeyCode::Esc => Command::Quit,
        _ => Command::Nothing,
    }
}

/// The Insert-mode key map: characters extend the search, Backspace removes the last one,
/// Ctrl+u clears it, arrows move, Enter copies, Esc returns to Normal mode.
pub open spec fn insert_command(key: KeyPress) -> Command {
    match key.code {
        KeyCode::Char(c) => if key.ctrl && c == 'u' {
            Command::ClearQuery
        } else {
            Command::PushChar(c)
        },
        KeyCode::Backspace => Command::PopChar,
        KeyCode::Up => Command::MoveUp,
        KeyCode::Down => Command::MoveDown,
        KeyCode::Enter => Command::Copy,
        KeyCode::Esc => Command::LeaveInsert,
        KeyCode::Other => Command::Nothing,
    }
}

/// What a key press does in a mode: Ctrl+C quits in any mode; in Normal mode a second `g` or `d`
/// completes `gg` or `dd`, and any other key is read on its own.
pub open spec fn command_for(mode: Mode, pending: Pending, key: KeyPress) -> Command {
    if key.ctrl && key.code == KeyCode::Char('c') {
        Command::Quit
    } else {
        match mode {
            Mode::Normal => {
                if pending == Pending::G && !key.ctrl && key.code == KeyCode::Char('g') {
                    Command::Top
                } else if pending == Pending::D && !key.ctrl && key.code == KeyCode::Char('d') {
                    Command::Delete
                } else {
                    normal_command(key)
                }
            },
            Mode::Insert => insert_command(key),
        }
    }
}

fn is_char(code: &KeyCode, c: char) -> (r: bool)
    ensures
        r == (*code == KeyCode::Char(c)),
{
    match code {
        KeyCode::Char(d) => *d == c,
        _ => false,
    }
}

/// The command a key press gives in a mode.
pub fn command_of(mode: &Mode, pending: &Pending, key: &KeyPress) -> (r: Command)
    ensures
        r == command_for(*mode, *pending, *key),
{
    if key.ctrl && is_char(&key.code, 'c') {
        return Command::Quit;
    }
    match mode {
        Mode::Normal => {
            let is_g = match pending {
                Pending::G => true,
                _ => false,
            };
            let is_d = match pending {
                Pending::D => true,
                _ => false,
            };
            if is_g && !key.ctrl && is_char(&key.code, 'g') {
                return Command::Top;
            }
            if is_d && !key.ctrl && is_char(&key.code, 'd') {
                return Command::Delete;
            }
            match &key.code {
                KeyCode::Char(c) => {
                    let c = *c;
                    if key.ctrl {
                        if c == 'd' {
                            Command::HalfPageDown
                        } else if c == 'u' {
                            Command::HalfPageUp
                        } else {
                            Command::Nothing
                        }
                    } else if c == 'j' {
                        Command::MoveDown
                    } else if c == 'k' {
                        Command::MoveUp
                    } else if c == 'G' {
                        Command::Bottom
                    } else if c == 'g' {
                        Command::AwaitG
                    } else if c == 'd' {
                        Command::AwaitD
                    } else if c == '/' || c == 'i' {
                        Command::EnterInsert
                    } else if c == 'q' {
                        Command::Quit
                    } else {
                        Command::Nothing
                    }
                },
                KeyCode::Down => Command::MoveDown,
                KeyCode::Up => Command::MoveUp,
                KeyCode::Enter => Command::Copy,
                KeyCode::Esc => Command::Quit,
                _ => Command::Nothing,
            }
        },
        Mode::Insert => match &key.code {
            KeyCode::Char(c) => {
                if key.ctrl && *c == 'u' {
                    Command::ClearQuery
                } else {
                    Command::PushChar(*c)
                }
            },
            KeyCode::Backspace => Command::PopChar,
            KeyCode::Up => Command::MoveUp,
            KeyCode::Down => Command::MoveDown,
            KeyCode::Enter => Command::Copy,
            KeyCode::Esc => Command::LeaveInsert,
            KeyCode::Other => Command::Nothing,
        },
    }
}

} // verus!

verus! {

// ---------------------------------------------------------------------------
// The picker's state
// ---------------------------------------------------------------------------

/// How far Ctrl+d / Ctrl+u move: half the list's height, and at least one row.
pub open spec fn page_size(list_height: usize) -> nat {
    if list_height / 2 == 0 {
        1
    } else {
        (list_height / 2) as nat
    }
}

/// Where the selection goes for a movement command, in a list of `len` rows.
pub open spec fn selection_after(cmd: Command, selected: nat, len: nat, page: nat) -> nat {
    match cmd {
        Command::MoveUp => if selected > 0 {
            (selected - 1) as nat
        } else {
            selected
        },
        Command::MoveDown => if selected + 1 < len {
            selected + 1
        } else {
            selected
        },
        Command::Top => 0,
        Command::Bottom => if len > 0 {
            (len - 1) as nat
        } else {
            0
        },
        Command::HalfPageDown => if len == 0 {
            0
        } else if selected + page < len {
            selected + page
        } else {
            (len - 1) as nat
        },
        Command::HalfPageUp => if selected > page {
            (selected - page) as nat
        } else {
            0
        },
        _ => selected,
    }
}

/// Whether a command changes the search query.
pub open spec fn edits_query(cmd: Command) -> bool {
    cmd is PushChar || cmd is PopChar || cmd is ClearQuery
}

/// The search query after a command.
pub open spec fn query_after(cmd: Command, query: Seq<char>) -> Seq<char> {
    match cmd {
        Command::PushChar(c) => query.push(c),
        Command::PopChar => if query.len() > 0 {
            query.drop_last()
        } else {
            query
        },
        Command::ClearQuery => Seq::empty(),
        _ => query,
    }
}

/// The mode after a command.
pub open spec fn mode_after(cmd: Command, mode: Mode) -> Mode {
    match cmd {
        Command::EnterInsert => Mode::Insert,
        Command::LeaveInsert => Mode::Normal,
        _ => mode,
    }
}

/// The pending first key after a command.
pub open spec fn pending_after(cmd: Command) -> Pending {
    match cmd {
        Command::AwaitG => Pending::G,
        Command::AwaitD => Pending::D,
        _ => Pending::Nothing,
    }
}

/// `String::pop`: removes the last character of the string and returns it; `None` when the
/// string is empty.
#[verifier::external_body]
fn pop_char(s: &mut String) -> (r: Option<char>)
    ensures
        old(s)@.len() == 0 ==> r is None && final(s)@ == old(s)@,
        old(s)@.len() > 0 ==> r == Some(old(s)@.last()) && final(s)@ == old(s)@.drop_last(),
{
    s.pop()
}

/// Whether a request asked for every entry, as [`Store::all`] does.
pub open spec fn is_all_call(c: DbCall) -> bool {
    c.sql == RECENT_SQL@ && c.params == seq![SqlValue::Int(ALL_LIMIT as i64)]
}

/// The entries that a request for entries gave, none when it failed.
pub open spec fn loaded(c: DbCall) -> Seq<ClipEntry> {
    match answered_entries(c.answer) {
        Some(v) => v,
        None => Seq::empty(),
    }
}

/// Whether the store's record grew, from `before` to `after`, by one request for every entry.
pub open spec fn reloaded(before: Seq<DbCall>, after: Seq<DbCall>) -> bool {
    after == before.push(after.last()) && is_all_call(after.last())
}

/// Whether the store's record grew, from `before` to `after`, by the deletion of the entry
/// `id` and then one request for every entry.
pub open spec fn deleted_then_reloaded(before: Seq<DbCall>, after: Seq<DbCall>, id: i64) -> bool {
    let d = after[before.len() as int];
    &&& after.len() == before.len() + 2
    &&& after.take(before.len() as int) == before
    &&& d.sql == DELETE_SQL@
    &&& d.params == seq![SqlValue::Int(id)]
    &&& d.answer is Changed
    &&& is_all_call(after.last())
}

/// The interactive picker: the history entries, the search, the entries it shows and which of
/// them is selected.
pub struct App {
    pub store: Store,
    /// Every entry, newest first.
    pub entries: Vec<ClipEntry>,
    /// The entries shown, as indices into `entries`.
    pub filtered: Vec<usize>,
    pub query: String,
    /// The selected row of `filtered`.
    pub selected: usize,
    /// The first row of `filtered` on screen.
    pub scroll_offset: usize,
    pub mode: Mode,
    pub pending: Pending,
    /// How many rows the list had when it was last drawn.
    pub list_height: usize,
    pub should_quit: bool,
    /// The entry just copied, shown until the next key press.
    pub copied_id: Option<i64>,
}

impl App {
    /// The shown list is the filter of the entries by the query, and the selection is on a row
    /// of it (row 0 when it is empty).
    pub open spec fn wf(&self) -> bool {
        &&& self.filtered@ == filter_spec(self.entries@, self.query@)
        &&& self.filtered@.len() == 0 ==> self.selected == 0
        &&& self.filtered@.len() > 0 ==> self.selected < self.filtered@.len()
    }

    /// The entry on the selected row, if any.
    pub open spec fn selected_spec(&self) -> Option<ClipEntry> {
        if self.filtered@.len() > 0 {
            Some(self.entries@[self.filtered@[self.selected as int] as int])
        } else {
            None
        }
    }

    proof fn lemma_selected_in_bounds(&self)
        requires
            self.wf(),
            self.entries@.len() <= usize::MAX,
        ensures
            self.filtered@.len() > 0 ==> (self.filtered@[self.selected as int] as int) < self.entries@.len(),
    {
        lemma_filter_indices(self.entries@, self.query@);
    }

    /// A picker over everything the store holds (nothing when it cannot be read), in Normal mode
    /// with an empty search.
    pub fn new(store: Store) -> (r: App)
        ensures
            r.wf(),
            reloaded(store.calls(), r.store.calls()),
            r.entries@ == loaded(r.store.calls().last()),
            r.query@.len() == 0,
            r.filtered@ == all_indices(r.entries@.len()),
            r.selected == 0,
            r.scroll_offset == 0,
            r.mode == Mode::Normal,
            r.pending == Pending::Nothing,
            r.list_height == 0,
            !r.should_quit,
            r.copied_id is None,
    {
        let mut store = store;
        let entries = match store.all() {
            Ok(v) => v,
            Err(_) => Vec::new(),
        };
        let query = String::new();
        let filtered = filter_entries(entries.as_slice(), query.as_str());
        App {
            store,
            entries,
            filtered,
            query,
            selected: 0,
            scroll_offset: 0,
            mode: Mode::Normal,
            pending: Pending::Nothing,
            list_height: 0,
            should_quit: false,
            copied_id: None,
        }
    }

    /// Recomputes the shown list for the current query and selects its first row.
    pub fn apply_filter(&mut self)
        ensures
            final(self).wf(),
            final(self).filtered@ == filter_spec(old(self).entries@, old(self).query@),
            final(self).selected == 0,
            final(self).scroll_offset == 0,
            final(self).store == old(self).store,
            final(self).entries == old(self).entries,
            final(self).query == old(self).query,
            final(self).mode == old(self).mode,
            final(self).pending == old(self).pending,
            final(self).list_height == old(self).list_height,
            final(self).should_quit == old(self).should_quit,
            final(self).copied_id == old(self).copied_id,
    {
        self.filtered = filter_entries(self.entries.as_slice(), self.query.as_str());
        self.selected = 0;
        self.scroll_offset = 0;
    }

    /// Reloads the entries from the store (none when it cannot be read) and filters them again.
    fn refresh(&mut self)
        ensures
            final(self).wf(),
            final(self).selected == 0,
            final(self).scroll_offset == 0,
            reloaded(old(self).store.calls(), final(self).store.calls()),
            final(self).entries@ == loaded(final(self).store.calls().last()),
            final(self).query == old(self).query,
            final(self).mode == old(self).mode,
            final(self).pending == old(self).pending,
            final(self).list_height == old(self).list_height,
            final(self).should_quit == old(self).should_quit,
            final(self).copied_id == old(self).copied_id,
    {
        self.entries = match self.store.all() {
            Ok(v) => v,
            Err(_) => Vec::new(),
        };
        self.apply_filter();
    }

    /// The entry on the selected row, if any.
    pub fn selected_entry(&self) -> (r: Option<&ClipEntry>)
        requires
            self.wf(),
        ensures
            match self.selected_spec() {
                Some(e) => r matches Some(x) && *x == e,
                None => r is None,
            },
    {
        let n = self.entries.len();
        if self.selected < self.filtered.len() {
            proof {
                assert(self.entries@.len() == n);
                self.lemma_selected_in_bounds();
            }
            Some(&self.entries[self.filtered[self.selected]])
        } else {
            None
        }
    }

    /// Records that the list was drawn with `height` rows.
    pub fn set_list_height(&mut self, height: usize)
        ensures
            final(self).list_height == height,
            final(self).store == old(self).store,
            final(self).entries == old(self).entries,
            final(self).filtered == old(self).filtered,
            final(self).query == old(self).query,
            final(self).selected == old(self).selected,
            final(self).scroll_offset == old(self).scroll_offset,
            final(self).mode == old(self).mode,
            final(self).pending == old(self).pending,
            final(self).should_quit == old(self).should_quit,
            final(self).copied_id == old(self).copied_id,
    {
        self.list_height = height;
    }

    /// Moves the scroll position as little as possible so that the selected row is among the
    /// `height` rows shown.
    pub fn scroll_into_view(&mut self, height: usize)
        requires
            height > 0 || old(self).selected < usize::MAX,
        ensures
            ({
                let sel = old(self).selected;
                let s = if sel < old(self).scroll_offset {
                    sel
                } else {
                    old(self).scroll_offset
                };
                final(self).scroll_offset == if sel >= s + height {
                    sel - height + 1
                } else {
                    s as int
                }
            }),
            height > 0 ==> final(self).scroll_offset <= final(self).selected < final(self).scroll_offset + height,
            final(self).scroll_offset <= final(self).selected + 1,
            final(self).store == old(self).store,
            final(self).entries == old(self).entries,
            final(self).filtered == old(self).filtered,
            final(self).query == old(self).query,
            final(self).selected == old(self).selected,
            final(self).mode == old(self).mode,
            final(self).pending == old(self).pending,
            final(self).list_height == old(self).list_height,
            final(self).should_quit == old(self).should_quit,
            final(self).copied_id == old(self).copied_id,
    {
        if self.selected < self.scroll_offset {
            self.scroll_offset = self.selected;
        }
        if self.selected - self.scroll_offset >= height {
            self.scroll_offset = if height > 0 {
                self.selected - (height - 1)
            } else {
                self.selected + 1
            };
        }
    }
}

} // verus!

verus! {

impl App {
    /// Moves the selection one row up, unless it is on the first row.
    pub fn move_up(&mut self)
        requires
            old(self).wf(),
        ensures
            final(self).wf(),
            final(self).selected == selection_after(Command::MoveUp, old(self).selected as nat, old(self).filtered@.len(), 1),
            final(self).store == old(self).store,
            final(self).entries == old(self).entries,
            final(self).filtered == old(self).filtered,
            final(self).query == old(self).query,
            final(self).scroll_offset == old(self).scroll_offset,
            final(self).mode == old(self).mode,
            final(self).pending == old(self).pending,
            final(self).list_height == old(self).list_height,
            final(self).should_quit == old(self).should_quit,
            final(self).copied_id == old(self).copied_id,
    {
        if self.selected > 0 {
            self.selected = self.selected - 1;
        }
    }

    /// Moves the selection one row down, unless it is on the last row.
    pub fn move_down(&mut self)
        requires
            old(self).wf(),
        ensures
            final(self).wf(),
            final(self).selected == selection_after(Command::MoveDown, old(self).selected as nat, old(self).filtered@.len(), 1),
            final(self).store == old(self).store,
            final(self).entries == old(self).entries,
            final(self).filtered == old(self).filtered,
            final(self).query == old(self).query,
            final(self).scroll_offset == old(self).scroll_offset,
            final(self).mode == old(self).mode,
            final(self).pending == old(self).pending,
            final(self).list_height == old(self).list_height,
            final(self).should_quit == old(self).should_quit,
            final(self).copied_id == old(self).copied_id,
    {
        let len = self.filtered.len();
        if self.selected + 1 < len {
            self.selected = self.selected + 1;
        }
    }

    /// Marks the selected entry as copied and gives its content, for the caller to put on the
    /// clipboard; nothing when the list is empty.
    pub fn copy_selected(&mut self) -> (r: Option<String>)
        requires
            old(self).wf(),
        ensures
            match old(self).selected_spec() {
                Some(e) => final(self).copied_id == Some(e.id) && (r matches Some(s) && s@ == e.content@),
                None => final(self).copied_id == old(self).copied_id && r is None,
            },
            final(self).wf(),
            final(self).store == old(self).store,
            final(self).entries == old(self).entries,
            final(self).filtered == old(self).filtered,
            final(self).query == old(self).query,
            final(self).selected == old(self).selected,
            final(self).scroll_offset == old(self).scroll_offset,
            final(self).mode == old(self).mode,
            final(self).pending == old(self).pending,
            final(self).list_height == old(self).list_height,
            final(self).should_quit == old(self).should_quit,
    {
        match self.selected_entry() {
            Some(entry) => {
                let content = entry.content.clone();
                let id = entry.id;
                self.copied_id = Some(id);
                Some(content)
            },
            None => None,
        }
    }

    /// Deletes the selected entry from the store (a failure is ignored) and reloads the list;
    /// nothing when the list is empty.
    pub fn delete_selected(&mut self)
        requires
            old(self).wf(),
        ensures
            final(self).wf(),
            match old(self).selected_spec() {
                Some(e) => {
                    &&& deleted_then_reloaded(old(self).store.calls(), final(self).store.calls(), e.id)
                    &&& final(self).entries@ == loaded(final(self).store.calls().last())
                    &&& final(self).selected == 0
                    &&& final(self).scroll_offset == 0
                },
                None => {
                    &&& final(self).store == old(self).store
                    &&& final(self).entries == old(self).entries
                    &&& final(self).filtered == old(self).filtered
                    &&& final(self).selected == old(self).selected
                    &&& final(self).scroll_offset == old(self).scroll_offset
                },
            },
            final(self).query == old(self).query,
            final(self).mode == old(self).mode,
            final(self).pending == old(self).pending,
            final(self).list_height == old(self).list_height,
            final(self).should_quit == old(self).should_quit,
            final(self).copied_id == old(self).copied_id,
    {
        let target = match self.selected_entry() {
            Some(entry) => Some(entry.id),
            None => None,
        };
        let ghost before = self.store.calls();
        match target {
            Some(id) => {
                let _ = self.store.delete(id);
                let ghost mid = self.store.calls();
                self.refresh();
                proof {
                    let after = self.store.calls();
                    assert(after.take(before.len() as int) =~= before);
                    assert(after[before.len() as int] == mid[before.len() as int]);
                }
            },
            None => {},
        }
    }
}

impl App {
    /// Whether a command on this state reloads or refilters the list (and so selects its top).
    pub open spec fn resets_list(&self, cmd: Command) -> bool {
        edits_query(cmd) || (cmd is Delete && self.filtered@.len() > 0)
    }

    fn page(&self) -> (p: usize)
        ensures
            p == page_size(self.list_height),
    {
        if self.list_height / 2 == 0 {
            1
        } else {
            self.list_height / 2
        }
    }

    /// Handles one key press. Gives the text to put on the clipboard when the key copies an
    /// entry; the caller puts it there.
    pub fn handle_key(&mut self, key: KeyPress) -> (r: Option<String>)
        requires
            old(self).wf(),
        ensures
            ({
                let cmd = command_for(old(self).mode, old(self).pending, key);
                let len = old(self).filtered@.len();
                &&& final(self).wf()
                &&& !(cmd is Delete && len > 0) ==> final(self).store == old(self).store
                &&& (cmd is Delete && len > 0) ==> (old(self).selected_spec() matches Some(e)
                    && deleted_then_reloaded(old(self).store.calls(), final(self).store.calls(), e.id)
                    && final(self).entries@ == loaded(final(self).store.calls().last()))
                &&& final(self).mode == mode_after(cmd, old(self).mode)
                &&& final(self).pending == pending_after(cmd)
                &&& final(self).list_height == old(self).list_height
                &&& final(self).should_quit == (old(self).should_quit || cmd is Quit || cmd is Copy)
                &&& final(self).query@ == query_after(cmd, old(self).query@)
                &&& !(cmd is Delete && len > 0) ==> final(self).entries == old(self).entries
                &&& old(self).resets_list(cmd) ==> final(self).selected == 0
                    && final(self).scroll_offset == 0
                &&& !old(self).resets_list(cmd) ==> final(self).selected == selection_after(
                    cmd,
                    old(self).selected as nat,
                    len,
                    page_size(old(self).list_height),
                ) && final(self).scroll_offset == old(self).scroll_offset
                &&& match (cmd, old(self).selected_spec()) {
                    (Command::Copy, Some(e)) => final(self).copied_id == Some(e.id) && (r matches Some(
                        s,
                    ) && s@ == e.content@),
                    _ => final(self).copied_id is None && r is None,
                }
            }),
    {
        let cmd = command_of(&self.mode, &self.pending, &key);
        self.copied_id = None;
        self.pending = Pending::Nothing;
        let len = self.filtered.len();
        let ghost old_selected = self.selected;
        match cmd {
            Command::Quit => {
                self.should_quit = true;
                None
            },
            Command::MoveUp => {
                self.move_up();
                None
            },
            Command::MoveDown => {
                self.move_down();
                None
            },
            Command::Top => {
                self.selected = 0;
                None
            },
            Command::Bottom => {
                self.selected = if len > 0 {
                    len - 1
                } else {
                    0
                };
                None
            },
            Command::HalfPageDown => {
                let p = self.page();
                self.selected = if len == 0 {
                    0
                } else if p < len - self.selected {
                    self.selected + p
                } else {
                    len - 1
                };
                None
            },
            Command::HalfPageUp => {
                let p = self.page();
                self.selected = if self.selected > p {
                    self.selected - p
                } else {
                    0
                };
                None
            },
            Command::Copy => {
                self.should_quit = true;
                self.copy_selected()
            },
            Command::Delete => {
                self.delete_selected();
                None
            },
            Command::EnterInsert => {
                self.mode = Mode::Insert;
                None
            },
            Command::LeaveInsert => {
                self.mode = Mode::Normal;
                None
            },
            Command::PushChar(c) => {
                crate::text::push_char(&mut self.query, c);
                self.apply_filter();
                None
            },
            Command::PopChar => {
                let _ = pop_char(&mut self.query);
                self.apply_filter();
                None
            },
            Command::ClearQuery => {
                self.query = String::new();
                self.apply_filter();
                None
            },
            Command::AwaitG => {
                self.pending = Pending::G;
                None
            },
            Command::AwaitD => {
                self.pending = Pending::D;
                None
            },
            Command::Nothing => None,
        }
    }
}

} // verus!

verus! {

// ---------------------------------------------------------------------------
// What the picker shows
// ---------------------------------------------------------------------------

/// How many characters of an entry's first line a row shows.
pub const PREVIEW_CHARS: usize = 200;

/// The text of an entry's row: the first 200 characters of its first line.
pub open spec fn preview_spec(content: Seq<char>) -> Seq<char> {
    let line = first_line(content);
    if line.len() <= 200 {
        line
    } else {
        line.take(200)
    }
}

/// The text of an entry's row.
pub fn preview(content: &str) -> (r: String)
    ensures
        r@ == preview_spec(content@),
{
    let cs = chars_vec(content);
    let (end, _) = first_line_bounds(cs.as_slice());
    let ghost line = cs@.take(end as int);
    if end <= PREVIEW_CHARS {
        string_from_chars(cs.as_slice(), end)
    } else {
        assert(line.take(200) == cs@.take(200));
        string_from_chars(cs.as_slice(), PREVIEW_CHARS)
    }
}

/// The label of a mode in the picker's title.
pub open spec fn mode_label(mode: Mode) -> Seq<char> {
    match mode {
        Mode::Normal => "[NORMAL]"@,
        Mode::Insert => "[INSERT]"@,
    }
}

/// The colour of the search box's border, which shows the mode.
#[derive(Debug, PartialEq, Eq, Structural)]
pub enum BorderColor {
    Cyan,
    Green,
}

impl App {
    /// The colour of the search box's border: cyan in Normal mode, green in Insert mode.
    pub fn border_color(&self) -> (r: BorderColor)
        ensures
            r == match self.mode {
                Mode::Normal => BorderColor::Cyan,
                Mode::Insert => BorderColor::Green,
            },
    {
        match self.mode {
            Mode::Normal => BorderColor::Cyan,
            Mode::Insert => BorderColor::Green,
        }
    }

    /// The title of the search box: the program's name and the mode.
    pub fn title(&self) -> (r: String)
        ensures
            r@ == " rippy "@ + mode_label(self.mode) + " "@,
    {
        let mut r = " rippy ".to_owned();
        match self.mode {
            Mode::Normal => r.append("[NORMAL]"),
            Mode::Insert => r.append("[INSERT]"),
        }
        r.append(" ");
        r
    }

    /// The text of the search box: the query after a space, or a hint when it is empty.
    pub fn search_text(&self) -> (r: String)
        ensures
            self.query@.len() == 0 ==> r@ == " Type to search\u{2026}"@,
            self.query@.len() > 0 ==> r@ == " "@ + self.query@,
    {
        let q = self.query.as_str();
        if q.is_empty() {
            " Type to search\u{2026}".to_owned()
        } else {
            let mut r = " ".to_owned();
            r.append(q);
            r
        }
    }

    /// The status line: `Copied!` right after a copy, otherwise how many entries are shown out
    /// of how many, and the keys of the current mode.
    pub fn status_text(&self) -> (r: String)
        ensures
            self.copied_id is Some ==> r@ == " Copied! "@,
            self.copied_id is None ==> r@ == " "@ + crate::text::decimal_digits(self.filtered@.len())
                + "/"@ + crate::text::decimal_digits(self.entries@.len()) + match self.mode {
                Mode::Normal => " \u{2502} j/k navigate \u{2502} Enter copy \u{2502} dd delete \u{2502} / search \u{2502} q quit"@,
                Mode::Insert => " \u{2502} \u{2191}\u{2193} navigate \u{2502} Enter copy \u{2502} Esc normal mode"@,
            },
    {
        if self.copied_id.is_some() {
            return " Copied! ".to_owned();
        }
        let mut r = " ".to_owned();
        crate::text::push_decimal(&mut r, self.filtered.len() as u64);
        r.append("/");
        crate::text::push_decimal(&mut r, self.entries.len() as u64);
        match self.mode {
            Mode::Normal => r.append(
                " \u{2502} j/k navigate \u{2502} Enter copy \u{2502} dd delete \u{2502} / search \u{2502} q quit",
            ),
            Mode::Insert => r.append(" \u{2502} \u{2191}\u{2193} navigate \u{2502} Enter copy \u{2502} Esc normal mode"),
        }
        r
    }

    /// The rows of `filtered` on screen when the list has `height` rows: from the scroll
    /// position, at most `height` of them.
    pub fn visible_rows(&self, height: usize) -> (r: (usize, usize))
        ensures
            r.0 == self.scroll_offset,
            r.1 == if self.scroll_offset >= self.filtered@.len() {
                self.scroll_offset as int
            } else if self.filtered@.len() - self.scroll_offset <= height {
                self.filtered@.len() as int
            } else {
                self.scroll_offset + height
            },
    {
        let len = self.filtered.len();
        let end = if self.scroll_offset >= len {
            self.scroll_offset
        } else if len - self.scroll_offset <= height {
            len
        } else {
            self.scroll_offset + height
        };
        (self.scroll_offset, end)
    }
}

// ---------------------------------------------------------------------------
// Laws of the key map
// ---------------------------------------------------------------------------

/// Ctrl+C quits, whatever the mode and whatever key came before.
pub proof fn law_ctrl_c_quits(mode: Mode, pending: Pending)
    ensures
        command_for(mode, pending, KeyPress { code: KeyCode::Char('c'), ctrl: true }) == Command::Quit,
{
}

/// In Insert mode, typing a character and then Backspace gives back the query and the list
/// shown for it, and leaves the picker in Insert mode.
pub proof fn law_type_then_backspace(
    pending: Pending,
    entries: Seq<ClipEntry>,
    query: Seq<char>,
    c: char,
)
    ensures
        ({
            let typed = command_for(Mode::Insert, pending, KeyPress { code: KeyCode::Char(c), ctrl: false });
            let q1 = query_after(typed, query);
            let mode1 = mode_after(typed, Mode::Insert);
            let erased = command_for(mode1, pending_after(typed), KeyPress { code: KeyCode::Backspace, ctrl: false });
            &&& typed == Command::PushChar(c)
            &&& mode1 == Mode::Insert
            &&& erased == Command::PopChar
            &&& query_after(erased, q1) == query
            &&& filter_spec(entries, query_after(erased, q1)) == filter_spec(entries, query)
            &&& mode_after(erased, mode1) == Mode::Insert
        }),
{
    assert(query.push(c).drop_last() == query);
}

/// In Normal mode, `g` then `g` jumps to the first row, and `d` then `d` deletes.
pub proof fn law_two_key_commands()
    ensures
        ({
            let g = KeyPress { code: KeyCode::Char('g'), ctrl: false };
            let d = KeyPress { code: KeyCode::Char('d'), ctrl: false };
            let first_d = command_for(Mode::Normal, Pending::Nothing, d);
            &&& command_for(Mode::Normal, Pending::Nothing, g) == Command::AwaitG
            &&& command_for(Mode::Normal, pending_after(Command::AwaitG), g) == Command::Top
            &&& first_d == Command::AwaitD
            &&& command_for(Mode::Normal, pending_after(first_d), d) == Command::Delete
        }),
{
}

/// Movement keeps the selection on a row of the list (row 0 when the list is empty).
pub proof fn law_selection_stays_in_list(cmd: Command, selected: nat, len: nat, page: nat)
    requires
        len == 0 ==> selected == 0,
        len > 0 ==> selected < len,
        page >= 1,
    ensures
        len == 0 ==> selection_after(cmd, selected, len, page) == 0,
        len > 0 ==> selection_after(cmd, selected, len, page) < len,
{
}

/// The arrow keys navigate in both modes, whatever key was pending: Down moves the selection
/// down and Up moves it up, in Insert mode just as in Normal mode.
pub proof fn law_arrows_navigate(mode: Mode, pending: Pending)
    ensures
        command_for(mode, pending, KeyPress { code: KeyCode::Down, ctrl: false }) == Command::MoveDown,
        command_for(mode, pending, KeyPress { code: KeyCode::Up, ctrl: false }) == Command::MoveUp,
        command_for(Mode::Insert, pending, KeyPress { code: KeyCode::Down, ctrl: false }) == command_for(
            Mode::Normal,
            Pending::Nothing,
            KeyPress { code: KeyCode::Down, ctrl: false },
        ),
        command_for(Mode::Insert, pending, KeyPress { code: KeyCode::Up, ctrl: false }) == command_for(
            Mode::Normal,
            Pending::Nothing,
            KeyPress { code: KeyCode::Up, ctrl: false },
        ),
{
}

/// Enter copies the selected entry, in both modes and whatever key was pending; the picker
/// then quits.
pub proof fn law_enter_copies(mode: Mode, pending: Pending)
    ensures
        command_for(mode, pending, KeyPress { code: KeyCode::Enter, ctrl: false }) == Command::Copy,
{
}

/// The Normal-mode movement keys, whatever key was pending before them (but for a second `g`):
/// `j` and `k` move down and up, `G` jumps to the bottom, Ctrl+d and Ctrl+u move half a page
/// down and up, and `g` then `g` jumps to the top.
pub proof fn law_normal_navigation(pending: Pending)
    ensures
        command_for(Mode::Normal, pending, KeyPress { code: KeyCode::Char('j'), ctrl: false }) == Command::MoveDown,
        command_for(Mode::Normal, pending, KeyPress { code: KeyCode::Char('k'), ctrl: false }) == Command::MoveUp,
        command_for(Mode::Normal, pending, KeyPress { code: KeyCode::Char('G'), ctrl: false }) == Command::Bottom,
        command_for(Mode::Normal, pending, KeyPress { code: KeyCode::Char('d'), ctrl: true }) == Command::HalfPageDown,
        command_for(Mode::Normal, pending, KeyPress { code: KeyCode::Char('u'), ctrl: true }) == Command::HalfPageUp,
        command_for(Mode::Normal, Pending::G, KeyPress { code: KeyCode::Char('g'), ctrl: false }) == Command::Top,
        pending != Pending::G ==> command_for(Mode::Normal, pending, KeyPress { code: KeyCode::Char('g'), ctrl: false })
            == Command::AwaitG,
{
}

/// How the movement commands place the selection in a list of `len > 0` rows: one row down
/// and back up returns to the row; the top is row 0 and the bottom the last row; half a page
/// moves exactly `page` rows where the list allows, and otherwise stops at its end.
pub proof fn law_movement(selected: nat, len: nat, page: nat)
    requires
        selected < len,
        page >= 1,
    ensures
        selected + 1 < len ==> selection_after(Command::MoveDown, selected, len, page) == selected + 1,
        selected + 1 < len ==> selection_after(
            Command::MoveUp,
            selection_after(Command::MoveDown, selected, len, page),
            len,
            page,
        ) == selected,
        selected > 0 ==> selection_after(Command::MoveUp, selected, len, page) + 1 == selected,
        selection_after(Command::Top, selected, len, page) == 0,
        selection_after(Command::Bottom, selected, len, page) + 1 == len,
        selected + page < len ==> selection_after(Command::HalfPageDown, selected, len, page) == selected + page,
        selected + page >= len ==> selection_after(Command::HalfPageDown, selected, len, page) + 1 == len,
        selected >= page ==> selection_after(Command::HalfPageUp, selected, len, page) + page == selected,
        selected < page ==> selection_after(Command::HalfPageUp, selected, len, page) == 0,
{
}

/// The keys that change mode or quit, and the search keys: in Normal mode `/` and `i` start a
/// search and `q` and Esc quit; in Insert mode Esc returns to Normal mode, a character (without
/// Control) is added to the search, Backspace removes the last one and Ctrl+u clears it.
pub proof fn law_mode_and_search_keys(pending: Pending, c: char)
    ensures
        command_for(Mode::Normal, pending, KeyPress { code: KeyCode::Char('/'), ctrl: false }) == Command::EnterInsert,
        command_for(Mode::Normal, pending, KeyPress { code: KeyCode::Char('i'), ctrl: false }) == Command::EnterInsert,
        command_for(Mode::Normal, pending, KeyPress { code: KeyCode::Char('q'), ctrl: false }) == Command::Quit,
        command_for(Mode::Normal, pending, KeyPress { code: KeyCode::Esc, ctrl: false }) == Command::Quit,
        command_for(Mode::Insert, pending, KeyPress { code: KeyCode::Esc, ctrl: false }) == Command::LeaveInsert,
        command_for(Mode::Insert, pending, KeyPress { code: KeyCode::Char(c), ctrl: false }) == Command::PushChar(c),
        command_for(Mode::Insert, pending, KeyPress { code: KeyCode::Backspace, ctrl: false }) == Command::PopChar,
        command_for(Mode::Insert, pending, KeyPress { code: KeyCode::Char('u'), ctrl: true }) == Command::ClearQuery,
        mode_after(Command::EnterInsert, Mode::Normal) == Mode::Insert,
        mode_after(Command::LeaveInsert, Mode::Insert) == Mode::Normal,
{
}

} // verus!
