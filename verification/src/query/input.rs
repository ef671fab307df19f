//! One embedded query as the call site wrote it.

use crate::text::texts_view;
use vstd::prelude::*;

verus! {

/// The shape of result that the call site asks for.
#[derive(Clone, Debug)]
pub enum RecordType {
    /// A record type that the caller supplies, by its path.
    Given(String),
    /// One value from one column.
    Scalar,
    /// A record type synthesized from the columns.
    Generated,
}

pub ghost enum RecordTypeView {
    Given(Seq<char>),
    Scalar,
    Generated,
}

impl View for RecordType {
    type V = RecordTypeView;

    open spec fn view(&self) -> RecordTypeView {
        match self {
            RecordType::Given(path) => RecordTypeView::Given(path@),
            RecordType::Scalar => RecordTypeView::Scalar,
            RecordType::Generated => RecordTypeView::Generated,
        }
    }
}

/// The query text, the argument expressions and the requested shape.
#[derive(Clone, Debug)]
pub struct QueryMacroInput {
    pub sql: String,
    /// The source text of each argument expression, in call order.
    pub arg_exprs: Vec<String>,
    pub record_type: RecordType,
}

pub ghost struct QueryMacroInputView {
    pub sql: Seq<char>,
    pub arg_exprs: Seq<Seq<char>>,
    pub record_type: RecordTypeView,
}

impl View for QueryMacroInput {
    type V = QueryMacroInputView;

    open spec fn view(&self) -> QueryMacroInputView {
        QueryMacroInputView {
            sql: self.sql@,
            arg_exprs: texts_view(self.arg_exprs@),
            record_type: self.record_type@,
        }
    }
}

} // verus!
