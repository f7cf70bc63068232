//! The selection orchestrator: decides which table path to open, which row
//! window to project for the current focus, and stores the projected report
//! as the session's display buffer.

use vstd::prelude::*;

use crate::column::CellBlock;
use crate::column::ColumnMeta;
use crate::nav::App;
use crate::nav::CurrentlyEditing;
use crate::project::array_report;
use crate::project::block_len;
use crate::project::block_ok;
use crate::project::scalar_report;
use crate::text::bool_text;
use crate::text::comma_sep;
use crate::text::fmt_bool;
use crate::text::join_list;
use crate::text::joined;
use crate::text::texts_of;

verus! {

/// What one call of `select` works on: a freshly read column list after a
/// table switch, or the metadata and cells of the row window to project.
pub enum SelectInput {
    /// The column names of the newly opened table.
    Table { columns: Vec<String> },
    /// The resolved column, the open table's row count, and the cells of
    /// the row window that starts at `start`.
    Project { meta: ColumnMeta, n_rows: u64, start: u64, cells: CellBlock },
}

/// The metadata block that precedes every projected report: the column's
/// name, its type tag as the store displays it, its keyword names, whether
/// it is scalar, and, for array columns, whether its shape is fixed.
pub open spec fn meta_header(m: ColumnMeta) -> Seq<char> {
    seq!['C', 'o', 'l', 'u', 'm', 'n', ' ', 'n', 'a', 'm', 'e', ':', ' '] + m.name@ + seq!['\n']
        + seq![
        'C',
        'o',
        'l',
        'u',
        'm',
        'n',
        ' ',
        'd',
        'a',
        't',
        'a',
        ' ',
        't',
        'y',
        'p',
        'e',
        ':',
        ' ',
    ] + m.tag_text@ + seq!['\n'] + seq![
        'C',
        'o',
        'l',
        'u',
        'm',
        'n',
        ' ',
        'k',
        'e',
        'y',
        'w',
        'o',
        'r',
        'd',
        's',
        ':',
        ' ',
    ] + joined(texts_of(m.keywords@), comma_sep()) + seq!['\n'] + seq![
        'S',
        'c',
        'a',
        'l',
        'a',
        'r',
        ':',
        ' ',
    ] + bool_text(m.scalar) + seq!['\n'] + (if m.scalar {
        Seq::<char>::empty()
    } else {
        seq!['F', 'i', 'x', 'e', 'd', ' ', 's', 'h', 'a', 'p', 'e', ':', ' '] + bool_text(
            m.fixed_shape,
        ) + seq!['\n']
    })
}

/// Renders the metadata block that precedes every projected report.
pub fn column_header(m: &ColumnMeta) -> (s: String)
    ensures
        s@ == meta_header(*m),
{
    proof {
        reveal_strlit("Column name: ");
        reveal_strlit("Column data type: ");
        reveal_strlit("Column keywords: ");
        reveal_strlit("Scalar: ");
        reveal_strlit("Fixed shape: ");
        reveal_strlit(", ");
        reveal_strlit("\n");
        assert(", "@ =~= comma_sep());
        assert("\n"@ =~= seq!['\n']);
    }
    let mut s = String::from_str("Column name: ");
    s.append(m.name.as_str());
    s.append("\n");
    s.append("Column data type: ");
    s.append(m.tag_text.as_str());
    s.append("\n");
    s.append("Column keywords: ");
    let kw = join_list(&m.keywords, ", ");
    s.append(kw.as_str());
    s.append("\n");
    s.append("Scalar: ");
    let sc = fmt_bool(m.scalar);
    s.append(sc.as_str());
    s.append("\n");
    if !m.scalar {
        s.append("Fixed shape: ");
        let fx = fmt_bool(m.fixed_shape);
        s.append(fx.as_str());
        s.append("\n");
    }
    proof {
        assert(s@ =~= meta_header(*m));
    }
    s
}

impl App {
    /// The path of the currently selected table: the store's own path for
    /// the root table (listed as `MAIN`), and a keyword-named sub-path for
    /// every other table.
    pub open spec fn table_path_spec(self) -> Seq<char> {
        if self.tables@[self.current_table as int]@ == seq!['M', 'A', 'I', 'N'] {
            self.ms_name@
        } else {
            self.ms_name@ + seq!['/'] + self.tables@[self.current_table as int]@
        }
    }

    /// Resolves the path of the currently selected table.
    pub fn table_path(&self) -> (p: String)
        requires
            self.wf(),
        ensures
            p@ == self.table_path_spec(),
    {
        let main_name = String::from_str("MAIN");
        proof {
            reveal_strlit("MAIN");
            reveal_strlit("/");
            assert(main_name@ =~= seq!['M', 'A', 'I', 'N']);
            assert("/"@ =~= seq!['/']);
        }
        if self.tables[self.current_table].eq(&main_name) {
            self.ms_name.clone()
        } else {
            let mut p = self.ms_name.clone();
            p.append("/");
            p.append(self.tables[self.current_table].as_str());
            p
        }
    }

    /// The row window to project for the current focus: the whole table
    /// from the scroll position when it is shorter than the page, and one
    /// page from the scroll offset otherwise. On the column list the page
    /// is clamped to fifty rows; on the value window the page follows the
    /// viewport height.
    pub open spec fn window_spec(self, n_rows: u64, scalar: bool) -> (int, int) {
        match self.currently_editing {
            CurrentlyEditing::Information => if n_rows < self.line_height as u64 {
                if scalar {
                    (0int, n_rows as int)
                } else {
                    (self.text_scroll as int, n_rows as int)
                }
            } else {
                (self.tab_scroll as int, self.tab_scroll as int + self.line_height as int)
            },
            CurrentlyEditing::Column => if n_rows < 50 {
                if scalar {
                    (0int, n_rows as int)
                } else {
                    (self.text_scroll as int, n_rows as int)
                }
            } else {
                (0int, 50int)
            },
            CurrentlyEditing::Table => (0int, 0int),
        }
    }

    /// How many rows a window holds (none when it is inverted).
    pub open spec fn window_rows(w: (int, int)) -> nat {
        if w.1 > w.0 {
            (w.1 - w.0) as nat
        } else {
            0
        }
    }

    /// Computes the row window to project for the current focus.
    pub fn row_window(&self, n_rows: u64, scalar: bool) -> (w: (u64, u64))
        requires
            !(self.currently_editing is Table),
            self.tab_scroll + self.line_height <= u64::MAX,
        ensures
            w.0 as int == self.window_spec(n_rows, scalar).0,
            w.1 as int == self.window_spec(n_rows, scalar).1,
    {
        match &self.currently_editing {
            CurrentlyEditing::Information => {
                if n_rows < self.line_height as u64 {
                    if scalar {
                        (0, n_rows)
                    } else {
                        (self.text_scroll as u64, n_rows)
                    }
                } else {
                    (self.tab_scroll, self.tab_scroll + self.line_height as u64)
                }
            },
            CurrentlyEditing::Column => {
                if n_rows < 50 {
                    if scalar {
                        (0, n_rows)
                    } else {
                        (self.text_scroll as u64, n_rows)
                    }
                } else {
                    (0, 50)
                }
            },
            CurrentlyEditing::Table => (0, 0),
        }
    }

    /// Applies one selection. After a table switch the column list becomes
    /// exactly the columns the newly opened table reports and the column
    /// index resets to zero, while the display buffer is left untouched.
    /// On the column list or the value window the display buffer becomes
    /// the column's metadata block followed by the projected report of the
    /// given row window. When `reset_view` holds, both scroll offsets
    /// reset to zero.
    pub fn select(&mut self, reset_view: bool, input: SelectInput)
        requires
            old(self).wf(),
            input matches SelectInput::Table { .. } ==> old(self).currently_editing is Table,
            input matches SelectInput::Project { meta, n_rows, start, cells } ==> {
                &&& !(old(self).currently_editing is Table)
                &&& block_ok(meta, cells)
                &&& start as int == old(self).window_spec(n_rows, meta.scalar).0
                &&& block_len(cells) == App::window_rows(
                    old(self).window_spec(n_rows, meta.scalar),
                )
                &&& start + block_len(cells) <= u64::MAX
            },
        ensures
            input matches SelectInput::Table { columns } ==> *final(self) == (App {
                columns,
                current_column: 0,
                text_scroll: if reset_view {
                    0
                } else {
                    old(self).text_scroll
                },
                tab_scroll: if reset_view {
                    0
                } else {
                    old(self).tab_scroll
                },
                ..*old(self)
            }),
            input matches SelectInput::Project { meta, n_rows, start, cells } ==> *final(self)
                == (App {
                text_buffer: final(self).text_buffer,
                text_scroll: if reset_view {
                    0
                } else {
                    old(self).text_scroll
                },
                tab_scroll: if reset_view {
                    0
                } else {
                    old(self).tab_scroll
                },
                ..*old(self)
            }) && final(self).text_buffer@ == meta_header(meta) + (if meta.scalar {
                scalar_report(meta.elem, start as nat, cells->Scalar_0@)
            } else {
                array_report(meta, start as nat, cells)
            }),
            final(self).wf(),
    {
        match input {
            SelectInput::Table { columns } => {
                self.columns = columns;
                self.current_column = 0;
            },
            SelectInput::Project { meta, n_rows, start, cells } => {
                let mut buf = column_header(&meta);
                match &cells {
                    CellBlock::Scalar(c) => {
                        let _full = self.read_scalar_value_into_buffer(&mut buf, &meta, start, c);
                    },
                    _ => {
                        let _full = self.read_array_value_into_buffer(
                            &mut buf,
                            &meta,
                            start,
                            &cells,
                        );
                    },
                }
                self.text_buffer = buf;
            },
        }
        if reset_view {
            self.text_scroll = 0;
            self.tab_scroll = 0;
        }
    }
}

} // verus!
