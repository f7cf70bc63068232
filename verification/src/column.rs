//! The data model of one column: its element kind, its shape class, and the
//! plain values that the store hands over for the cells of a row window.
//!
//! The store itself (opening tables, positioning row readers, typed cell
//! accessors) is an external collaborator that does disk I/O; the session
//! layer talks to it and hands the verified core plain values of the types
//! below.

use vstd::prelude::*;

verus! {

/// The closed enumeration of element kinds a column can carry. Each kind
/// below `Other` matches one typed accessor of the store; `Other` is the
/// residual for every tag the projector does not support.
#[derive(Clone, Copy, PartialEq, Eq, Structural)]
pub enum ElemType {
    Bool,
    Int8,
    UInt8,
    Int16,
    UInt16,
    Int32,
    UInt32,
    Int64,
    Float32,
    Float64,
    Complex32,
    Complex64,
    Text,
    Other,
}

impl ElemType {
    /// Whether the kind is one of the numeric, boolean or complex kinds,
    /// which the variable-shape reader probes rank by rank.
    pub open spec fn is_probed(self) -> bool {
        !(self is Text) && !(self is Other)
    }

    /// Whether values of the kind reach the core as text already rendered
    /// by the store (floating-point and complex values).
    pub open spec fn is_rendered(self) -> bool {
        self is Float32 || self is Float64 || self is Complex32 || self is Complex64
    }
}

/// The value of one scalar cell, as the store's typed accessor returns it.
/// Floating-point and complex values arrive as the store's own rendering.
pub enum CellValue {
    Bool(bool),
    Int8(i8),
    UInt8(u8),
    Int16(i16),
    UInt16(u16),
    Int32(i32),
    UInt32(u32),
    Int64(i64),
    Text(String),
    Rendered(String),
}

/// The outcome of probing one variable-shape cell at ranks one, two and
/// three, in that order: the store's rendering where the rank parsed, and
/// nothing where it did not. A probe stops at the first rank that parses,
/// so later fields are nothing whenever an earlier one is something.
pub struct ProbeOutcomes {
    pub rank1: Option<String>,
    pub rank2: Option<String>,
    pub rank3: Option<String>,
}

/// The value of one cell of a variable-shape array column.
pub enum VarCell {
    /// A numeric, boolean or complex cell: the rank-probe outcomes.
    Probed(ProbeOutcomes),
    /// A string cell: the sequence of strings stored in it.
    Strings(Vec<String>),
    /// A cell of an unsupported kind: nothing is read.
    Unread,
}

/// The value of one cell of a fixed-shape array column.
pub enum FixedCell {
    /// The store's own rendering of the cell (numeric and complex arrays
    /// of rank one or two, and boolean matrices).
    Rendered(String),
    /// A boolean array read element-wise (rank one, or any rank other
    /// than two).
    Bools(Vec<bool>),
    /// A string cell read through the scalar accessor.
    Text(String),
    /// Nothing is read for this cell (a declared rank outside one and
    /// two, or an unsupported kind).
    Unread,
}

/// The cells of one row window, in row order.
pub enum CellBlock {
    Scalar(Vec<CellValue>),
    Variable(Vec<VarCell>),
    Fixed(Vec<FixedCell>),
}

/// Everything the projector needs to know about one column: its name, the
/// store's display text for its type tag, its element kind, whether it is
/// scalar, whether its shape is fixed, the declared rank of a fixed shape,
/// and its keyword names.
pub struct ColumnMeta {
    pub name: String,
    pub tag_text: String,
    pub elem: ElemType,
    pub scalar: bool,
    pub fixed_shape: bool,
    pub rank: u64,
    pub keywords: Vec<String>,
}

/// Whether a scalar cell value matches the column's element kind: the value
/// is the one the kind's typed accessor returns. A column of an unsupported
/// kind is never read, so any value is admitted there.
pub open spec fn scalar_cell_ok(elem: ElemType, c: CellValue) -> bool {
    match elem {
        ElemType::Bool => c is Bool,
        ElemType::Int8 => c is Int8,
        ElemType::UInt8 => c is UInt8,
        ElemType::Int16 => c is Int16,
        ElemType::UInt16 => c is UInt16,
        ElemType::Int32 => c is Int32,
        ElemType::UInt32 => c is UInt32,
        ElemType::Int64 => c is Int64,
        ElemType::Float32 => c is Rendered,
        ElemType::Float64 => c is Rendered,
        ElemType::Complex32 => c is Rendered,
        ElemType::Complex64 => c is Rendered,
        ElemType::Text => c is Text,
        ElemType::Other => true,
    }
}

/// Whether a probe stopped at the first rank that parsed: no later outcome
/// is present once an earlier one is.
pub open spec fn probe_ordered(p: ProbeOutcomes) -> bool {
    (p.rank1 is Some ==> p.rank2 is None && p.rank3 is None) && (p.rank2 is Some ==> p.rank3
        is None)
}

/// Whether a variable-shape cell value matches the column's element kind:
/// probed kinds carry ordered probe outcomes, string kinds carry their
/// strings, and unsupported kinds carry nothing.
pub open spec fn var_cell_ok(elem: ElemType, c: VarCell) -> bool {
    if elem.is_probed() {
        match c {
            VarCell::Probed(p) => probe_ordered(p),
            _ => false,
        }
    } else if elem is Text {
        c is Strings
    } else {
        c is Unread
    }
}

/// Whether a fixed-shape cell value matches the column's element kind and
/// declared rank.
pub open spec fn fixed_cell_ok(elem: ElemType, rank: u64, c: FixedCell) -> bool {
    match elem {
        ElemType::Bool => if rank == 2 {
            c is Rendered
        } else {
            c is Bools
        },
        ElemType::Text => c is Text,
        ElemType::Other => c is Unread,
        _ => if rank == 1 || rank == 2 {
            c is Rendered
        } else {
            c is Unread
        },
    }
}

} // verus!
