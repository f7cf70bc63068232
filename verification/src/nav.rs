//! The three-level navigation state machine: which pane has focus, which
//! table and column are selected, and how far the value window is scrolled.

use vstd::prelude::*;

verus! {

/// Which top-level screen the session is showing.
#[derive(Clone, Copy, PartialEq, Eq, Structural)]
pub enum CurrentScreen {
    Main,
    Exiting,
}

/// Which pane currently receives directional input: the table list, the
/// column list, or the value window.
#[derive(Clone, Copy, PartialEq, Eq, Structural)]
pub enum CurrentlyEditing {
    Table,
    Column,
    Information,
}

/// The navigation state of one browsing session. The open table handle
/// itself lives with the caller, which owns all store access; this state
/// carries everything the transition functions decide on.
pub struct App {
    pub current_screen: CurrentScreen,
    pub currently_editing: CurrentlyEditing,
    pub ms_name: String,
    pub tables: Vec<String>,
    pub columns: Vec<String>,
    pub current_table: usize,
    pub current_column: usize,
    pub text_buffer: String,
    pub text_scroll: u16,
    pub tab_scroll: u64,
    pub line_height: u16,
}

/// The length of the text once every trailing slash is removed.
pub open spec fn trimmed_len(s: Seq<char>) -> nat
    decreases s.len(),
{
    if s.len() == 0 {
        0
    } else if s.last() == '/' {
        trimmed_len(s.drop_last())
    } else {
        s.len()
    }
}

/// The text with every trailing slash removed.
pub open spec fn trimmed(s: Seq<char>) -> Seq<char> {
    s.subrange(0, trimmed_len(s) as int)
}

/// The focus one step around the ring Table -> Column -> Information
/// (backwards when `forwards` is false).
pub open spec fn toggled(e: CurrentlyEditing, forwards: bool) -> CurrentlyEditing {
    match e {
        CurrentlyEditing::Table => if forwards {
            CurrentlyEditing::Column
        } else {
            CurrentlyEditing::Information
        },
        CurrentlyEditing::Column => if forwards {
            CurrentlyEditing::Information
        } else {
            CurrentlyEditing::Table
        },
        CurrentlyEditing::Information => if forwards {
            CurrentlyEditing::Table
        } else {
            CurrentlyEditing::Column
        },
    }
}

/// The next index in a list of `len` entries, wrapping to the start.
pub open spec fn wrap_next(i: int, len: int) -> int {
    if i + 1 >= len {
        0
    } else {
        i + 1
    }
}

/// The previous index in a list of `len` entries, wrapping to the end.
pub open spec fn wrap_prev(i: int, len: int) -> int {
    if i == 0 {
        len - 1
    } else {
        i - 1
    }
}

/// The scroll offset after moving up by `amount`: it saturates at zero and
/// never goes below it.
pub open spec fn scrolled_up(cur: u64, amount: u64) -> u64 {
    if amount <= cur {
        (cur - amount) as u64
    } else {
        0
    }
}

/// Scrolling up saturates: the offset never falls below zero, however large
/// the requested decrease is, and otherwise drops by exactly the amount.
pub proof fn lemma_scroll_up_floor(cur: u64, amount: u64)
    ensures
        scrolled_up(cur, amount) <= cur,
        amount >= cur ==> scrolled_up(cur, amount) == 0,
        amount <= cur ==> scrolled_up(cur, amount) == cur - amount,
{
}

impl App {
    /// The indices point into their lists, and the table list is never
    /// empty (it always holds at least the root table).
    pub open spec fn wf(self) -> bool {
        &&& self.tables.len() >= 1
        &&& self.current_table < self.tables.len()
        &&& (self.columns.len() == 0 ==> self.current_column == 0)
        &&& (self.columns.len() > 0 ==> self.current_column < self.columns.len())
    }

    /// A fresh session for the named store: the root table is listed first
    /// under the name `MAIN`, the given sub-table and column names follow,
    /// focus starts on the table list, and every index and scroll is zero.
    pub fn new(ms_in: String, sub_tables: Vec<String>, columns: Vec<String>) -> (app: App)
        ensures
            app.current_screen is Main,
            app.currently_editing is Table,
            app.ms_name@ == trimmed(ms_in@),
            app.tables@.len() == 1 + sub_tables@.len(),
            app.tables@[0]@ == seq!['M', 'A', 'I', 'N'],
            forall|j: int|
                0 <= j < sub_tables@.len() ==> app.tables@[j + 1]@ == sub_tables@[j]@,
            app.columns == columns,
            app.current_table == 0,
            app.current_column == 0,
            app.text_buffer@ == Seq::<char>::empty(),
            app.text_scroll == 0,
            app.tab_scroll == 0,
            app.line_height == 50,
            app.wf(),
    {
        let total: usize = ms_in.as_str().unicode_len();
        let mut end: usize = total;
        proof {
            assert(ms_in@.subrange(0, total as int) =~= ms_in@);
        }
        while end > 0 && ms_in.as_str().get_char(end - 1) == '/'
            invariant
                end <= total,
                total == ms_in@.len(),
                trimmed_len(ms_in@) == trimmed_len(ms_in@.subrange(0, end as int)),
            decreases end,
        {
            proof {
                let cur = ms_in@.subrange(0, end as int);
                assert(cur.last() == ms_in@[end - 1]);
                assert(cur.drop_last() =~= ms_in@.subrange(0, end - 1));
            }
            end = end - 1;
        }
        proof {
            let cur = ms_in@.subrange(0, end as int);
            if end > 0 {
                assert(cur.last() == ms_in@[end - 1]);
            }
            assert(trimmed_len(ms_in@) == end);
        }
        let name = ms_in.as_str().substring_char(0, end).to_owned();

        let mut tables: Vec<String> = Vec::new();
        let main_name = String::from_str("MAIN");
        proof {
            reveal_strlit("MAIN");
            assert(main_name@ =~= seq!['M', 'A', 'I', 'N']);
        }
        tables.push(main_name);
        let mut i: usize = 0;
        while i < sub_tables.len()
            invariant
                i <= sub_tables.len(),
                tables@.len() == 1 + i,
                tables@[0]@ == seq!['M', 'A', 'I', 'N'],
                forall|j: int| 0 <= j < i ==> tables@[j + 1]@ == sub_tables@[j]@,
            decreases sub_tables.len() - i,
        {
            tables.push(sub_tables[i].clone());
            i = i + 1;
        }

        App {
            current_screen: CurrentScreen::Main,
            currently_editing: CurrentlyEditing::Table,
            ms_name: name,
            tables,
            columns,
            current_table: 0,
            current_column: 0,
            text_buffer: String::new(),
            text_scroll: 0,
            tab_scroll: 0,
            line_height: 50,
        }
    }

    /// Moves the focus one step around the ring of panes, in the given
    /// direction; nothing else changes.
    pub fn toggle_editing(&mut self, forwards: bool)
        ensures
            *final(self) == (App {
                currently_editing: toggled(old(self).currently_editing, forwards),
                ..*old(self)
            }),
    {
        match &self.currently_editing {
            CurrentlyEditing::Table => {
                if forwards {
                    self.currently_editing = CurrentlyEditing::Column
                } else {
                    self.currently_editing = CurrentlyEditing::Information
                }
            },
            CurrentlyEditing::Column => {
                if forwards {
                    self.currently_editing = CurrentlyEditing::Information
                } else {
                    self.currently_editing = CurrentlyEditing::Table
                }
            },
            CurrentlyEditing::Information => {
                if forwards {
                    self.currently_editing = CurrentlyEditing::Table
                } else {
                    self.currently_editing = CurrentlyEditing::Column
                }
            },
        };
    }

    /// Moves down by `amount`: on the value window the scroll offset grows
    /// by the amount; on the table or column list the index advances by one,
    /// wrapping to the start of the list.
    pub fn increase_soltab(&mut self, amount: u16)
        requires
            old(self).wf(),
            old(self).currently_editing is Information ==> old(self).tab_scroll + amount
                <= u64::MAX,
        ensures
            old(self).currently_editing is Information ==> *final(self) == (App {
                tab_scroll: (old(self).tab_scroll + amount) as u64,
                ..*old(self)
            }),
            old(self).currently_editing is Column ==> *final(self) == (App {
                current_column: wrap_next(
                    old(self).current_column as int,
                    old(self).columns.len() as int,
                ) as usize,
                ..*old(self)
            }),
            old(self).currently_editing is Table ==> *final(self) == (App {
                current_table: wrap_next(
                    old(self).current_table as int,
                    old(self).tables.len() as int,
                ) as usize,
                ..*old(self)
            }),
            final(self).wf(),
    {
        match &self.currently_editing {
            CurrentlyEditing::Information => {
                self.tab_scroll = self.tab_scroll + amount as u64;
            },
            CurrentlyEditing::Column => {
                self.current_column = self.current_column + 1;
                if self.current_column >= self.columns.len() {
                    self.current_column = 0;
                }
            },
            CurrentlyEditing::Table => {
                self.current_table = self.current_table + 1;
                if self.current_table >= self.tables.len() {
                    self.current_table = 0;
                }
            },
        }
    }

    /// Moves up by `amount`: on the value window the scroll offset shrinks
    /// by the amount, saturating at zero; on the table or column list the
    /// index retreats by one, wrapping to the end of the list.
    pub fn decrease_soltab(&mut self, amount: u16)
        requires
            old(self).wf(),
            old(self).currently_editing is Column ==> old(self).columns.len() > 0,
        ensures
            old(self).currently_editing is Information ==> *final(self) == (App {
                tab_scroll: scrolled_up(old(self).tab_scroll, amount as u64),
                ..*old(self)
            }),
            old(self).currently_editing is Column ==> *final(self) == (App {
                current_column: wrap_prev(
                    old(self).current_column as int,
                    old(self).columns.len() as int,
                ) as usize,
                ..*old(self)
            }),
            old(self).currently_editing is Table ==> *final(self) == (App {
                current_table: wrap_prev(
                    old(self).current_table as int,
                    old(self).tables.len() as int,
                ) as usize,
                ..*old(self)
            }),
            final(self).wf(),
    {
        match &self.currently_editing {
            CurrentlyEditing::Information => {
                if self.tab_scroll > 0 {
                    if amount as u64 <= self.tab_scroll {
                        self.tab_scroll = self.tab_scroll - amount as u64;
                    } else {
                        self.tab_scroll = 0;
                    }
                }
            },
            CurrentlyEditing::Table => {
                if self.current_table == 0 {
                    self.current_table = self.tables.len() - 1;
                } else {
                    self.current_table = self.current_table - 1;
                }
                self.update_soltabs();
            },
            CurrentlyEditing::Column => {
                if self.current_column == 0 {
                    self.current_column = self.columns.len() - 1;
                } else {
                    self.current_column = self.current_column - 1;
                }
                self.update_soltabs();
            },
        }
    }

    /// A hook that dependent resets would hang off; it changes nothing.
    pub fn update_soltabs(&mut self)
        ensures
            *final(self) == *old(self),
    {
        match &self.currently_editing {
            _ => {},
        }
    }
}

} // verus!
