//! The mapping from columns to the fields of a binding.

use crate::query::describe::{Column, ColumnView, Describe};
use crate::type_info::TypeInfo;
use vstd::prelude::*;

verus! {

/// The host type of a field.
#[derive(Clone, Copy, Debug, PartialEq, Eq, Structural)]
pub enum RustType {
    Unit,
    Bool,
    I32,
    I64,
    Text,
    Bytes,
    /// No host type could be inferred: the caller's record type decides.
    Wildcard,
}

impl RustType {
    pub open spec fn wildcard(self) -> bool {
        self == RustType::Wildcard
    }

    pub fn is_wildcard(&self) -> (b: bool)
        ensures
            b == self.wildcard(),
    {
        match self {
            RustType::Wildcard => true,
            _ => false,
        }
    }
}

/// The host type that a backend type decodes into.
pub open spec fn host_type(ty: TypeInfo) -> RustType {
    match ty {
        TypeInfo::Void => RustType::Unit,
        TypeInfo::Bool => RustType::Bool,
        TypeInfo::Integer => RustType::I32,
        TypeInfo::BigInt => RustType::I64,
        TypeInfo::Text => RustType::Text,
        TypeInfo::Bytes => RustType::Bytes,
        TypeInfo::Unknown => RustType::Wildcard,
    }
}

pub fn return_type_for(ty: TypeInfo) -> (host: RustType)
    ensures
        host == host_type(ty),
{
    match ty {
        TypeInfo::Void => RustType::Unit,
        TypeInfo::Bool => RustType::Bool,
        TypeInfo::Integer => RustType::I32,
        TypeInfo::BigInt => RustType::I64,
        TypeInfo::Text => RustType::Text,
        TypeInfo::Bytes => RustType::Bytes,
        TypeInfo::Unknown => RustType::Wildcard,
    }
}

/// One field of a binding: the column's name, its host type, and whether the
/// field is an optional of that type.
#[derive(Clone, Debug)]
pub struct RustColumn {
    pub ident: String,
    pub type_: RustType,
    pub optional: bool,
}

pub ghost struct RustColumnView {
    pub ident: Seq<char>,
    pub type_: RustType,
    pub optional: bool,
}

impl View for RustColumn {
    type V = RustColumnView;

    open spec fn view(&self) -> RustColumnView {
        RustColumnView { ident: self.ident@, type_: self.type_, optional: self.optional }
    }
}

/// The views of a run of fields, in order.
pub open spec fn rust_columns_view(columns: Seq<RustColumn>) -> Seq<RustColumnView> {
    Seq::new(columns.len(), |i: int| columns[i]@)
}

/// The field of one column. A column is taken as not null only where the
/// backend says so.
pub open spec fn rust_column(column: ColumnView) -> RustColumnView {
    RustColumnView {
        ident: column.name,
        type_: host_type(column.type_info),
        optional: column.nullable != Some(false),
    }
}

/// The fields of a run of columns: one per column, in column order.
pub open spec fn rust_columns(columns: Seq<ColumnView>) -> Seq<RustColumnView> {
    Seq::new(columns.len(), |i: int| rust_column(columns[i]))
}

/// Whether some field has no inferred host type.
pub open spec fn has_wildcard(fields: Seq<RustColumnView>) -> bool {
    exists|i: int| 0 <= i < fields.len() && (#[trigger] fields[i]).type_.wildcard()
}

/// The field of one column.
pub fn column_to_rust(column: &Column) -> (field: RustColumn)
    ensures
        field@ == rust_column(column@),
{
    let optional = match column.nullable {
        Some(false) => false,
        _ => true,
    };
    RustColumn { ident: column.name.clone(), type_: return_type_for(column.type_info), optional }
}

/// The fields of a description's columns.
pub fn columns_to_rust(describe: &Describe) -> (fields: Vec<RustColumn>)
    ensures
        rust_columns_view(fields@) == rust_columns(describe@.columns),
{
    let mut fields: Vec<RustColumn> = Vec::new();
    let mut i: usize = 0;
    while i < describe.columns.len()
        invariant
            i <= describe.columns.len(),
            fields@.len() == i,
            forall|j: int| 0 <= j < i ==> (#[trigger] fields@[j])@ == rust_column(describe@.columns[j]),
        decreases describe.columns.len() - i,
    {
        let field = column_to_rust(&describe.columns[i]);
        fields.push(field);
        i += 1;
    }
    assert(rust_columns_view(fields@) =~= rust_columns(describe@.columns));
    fields
}

/// Whether some field has no inferred host type.
pub fn any_wildcard(fields: &Vec<RustColumn>) -> (b: bool)
    ensures
        b == has_wildcard(rust_columns_view(fields@)),
{
    let mut i: usize = 0;
    while i < fields.len()
        invariant
            i <= fields.len(),
            forall|j: int| 0 <= j < i ==> !(#[trigger] rust_columns_view(fields@)[j]).type_.wildcard(),
        decreases fields.len() - i,
    {
        if fields[i].type_.is_wildcard() {
            assert(rust_columns_view(fields@)[i as int].type_.wildcard());
            return true;
        }
        i += 1;
    }
    false
}

/// What a binding hands out for each row.
#[derive(Clone, Debug)]
pub enum Output {
    /// Nothing: the results are discarded.
    Void,
    /// A record type synthesized from the columns, one field per column.
    GeneratedRecord { fields: Vec<RustColumn> },
    /// The caller's record type, its fields matched against the columns.
    GivenRecord { out_ty: String, fields: Vec<RustColumn> },
    /// The value of the one column.
    Scalar { column: RustColumn },
}

pub ghost enum OutputView {
    Void,
    GeneratedRecord { fields: Seq<RustColumnView> },
    GivenRecord { out_ty: Seq<char>, fields: Seq<RustColumnView> },
    Scalar { column: RustColumnView },
}

impl View for Output {
    type V = OutputView;

    open spec fn view(&self) -> OutputView {
        match self {
            Output::Void => OutputView::Void,
            Output::GeneratedRecord { fields } => OutputView::GeneratedRecord {
                fields: rust_columns_view(fields@),
            },
            Output::GivenRecord { out_ty, fields } => OutputView::GivenRecord {
                out_ty: out_ty@,
                fields: rust_columns_view(fields@),
            },
            Output::Scalar { column } => OutputView::Scalar { column: column@ },
        }
    }
}

/// One argument of a binding: the expression of the call site, and the
/// backend type expected of it where the backend told it.
#[derive(Clone, Debug)]
pub struct BoundArg {
    pub expr: String,
    pub expected: Option<TypeInfo>,
}

pub ghost struct BoundArgView {
    pub expr: Seq<char>,
    pub expected: Option<TypeInfo>,
}

impl View for BoundArg {
    type V = BoundArgView;

    open spec fn view(&self) -> BoundArgView {
        BoundArgView { expr: self.expr@, expected: self.expected }
    }
}

/// The views of a run of arguments, in order.
pub open spec fn bound_args_view(args: Seq<BoundArg>) -> Seq<BoundArgView> {
    Seq::new(args.len(), |i: int| args[i]@)
}

/// The typed accessor generated for one query: its text, its arguments in
/// call order, and what it hands out.
#[derive(Clone, Debug)]
pub struct Binding {
    pub sql: String,
    pub args: Vec<BoundArg>,
    pub output: Output,
}

pub ghost struct BindingView {
    pub sql: Seq<char>,
    pub args: Seq<BoundArgView>,
    pub output: OutputView,
}

impl View for Binding {
    type V = BindingView;

    open spec fn view(&self) -> BindingView {
        BindingView { sql: self.sql@, args: bound_args_view(self.args@), output: self.output@ }
    }
}

} // verus!
