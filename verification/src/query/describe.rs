//! What a backend says of one query: its parameters and its columns.

use crate::type_info::TypeInfo;
use vstd::prelude::*;

verus! {

/// What is known of a query's parameters: each one's type, or only how many
/// there are.
#[derive(Clone, Debug)]
pub enum Parameters {
    Typed(Vec<TypeInfo>),
    Count(usize),
}

pub ghost enum ParametersView {
    Typed(Seq<TypeInfo>),
    Count(nat),
}

impl View for Parameters {
    type V = ParametersView;

    open spec fn view(&self) -> ParametersView {
        match self {
            Parameters::Typed(types) => ParametersView::Typed(types@),
            Parameters::Count(n) => ParametersView::Count(*n as nat),
        }
    }
}

impl ParametersView {
    /// How many parameters the query takes.
    pub open spec fn count(self) -> nat {
        match self {
            ParametersView::Typed(types) => types.len(),
            ParametersView::Count(n) => n,
        }
    }

    /// The type of parameter `i`, where the backend told it.
    pub open spec fn type_at(self, i: int) -> Option<TypeInfo> {
        match self {
            ParametersView::Typed(types) => if 0 <= i < types.len() {
                Some(types[i])
            } else {
                None
            },
            ParametersView::Count(_) => None,
        }
    }
}

impl Parameters {
    pub fn count(&self) -> (n: usize)
        ensures
            n == self@.count(),
    {
        match self {
            Parameters::Typed(types) => types.len(),
            Parameters::Count(n) => *n,
        }
    }

    pub fn type_at(&self, i: usize) -> (ty: Option<TypeInfo>)
        ensures
            ty == self@.type_at(i as int),
    {
        match self {
            Parameters::Typed(types) => if i < types.len() {
                Some(types[i])
            } else {
                None
            },
            Parameters::Count(_) => None,
        }
    }
}

/// One column of a query's result.
#[derive(Clone, Debug)]
pub struct Column {
    pub name: String,
    pub type_info: TypeInfo,
    /// Whether the column may hold a null, where the backend could tell.
    pub nullable: Option<bool>,
}

pub ghost struct ColumnView {
    pub name: Seq<char>,
    pub type_info: TypeInfo,
    pub nullable: Option<bool>,
}

impl View for Column {
    type V = ColumnView;

    open spec fn view(&self) -> ColumnView {
        ColumnView { name: self.name@, type_info: self.type_info, nullable: self.nullable }
    }
}

/// The description of one query.
#[derive(Clone, Debug)]
pub struct Describe {
    pub columns: Vec<Column>,
    /// `None` where the backend does not report parameters.
    pub parameters: Option<Parameters>,
}

pub ghost struct DescribeView {
    pub columns: Seq<ColumnView>,
    pub parameters: Option<ParametersView>,
}

/// The views of a run of columns, in order.
pub open spec fn columns_view(columns: Seq<Column>) -> Seq<ColumnView> {
    Seq::new(columns.len(), |i: int| columns[i]@)
}

impl View for Describe {
    type V = DescribeView;

    open spec fn view(&self) -> DescribeView {
        DescribeView {
            columns: columns_view(self.columns@),
            parameters: match self.parameters {
                Some(p) => Some(p@),
                None => None,
            },
        }
    }
}

impl DescribeView {
    /// The number of parameters, where it is known.
    pub open spec fn parameter_count(self) -> Option<nat> {
        match self.parameters {
            Some(p) => Some(p.count()),
            None => None,
        }
    }

    /// The type of parameter `i`, where it is known.
    pub open spec fn parameter_type(self, i: int) -> Option<TypeInfo> {
        match self.parameters {
            Some(p) => p.type_at(i),
            None => None,
        }
    }

    /// Whether the query returns nothing: every column is of the void type.
    pub open spec fn all_void(self) -> bool {
        forall|i: int| 0 <= i < self.columns.len() ==> (#[trigger] self.columns[i]).type_info.void()
    }
}

impl Describe {
    pub fn columns(&self) -> (columns: &Vec<Column>)
        ensures
            columns == &self.columns,
    {
        &self.columns
    }

    pub fn parameters(&self) -> (parameters: &Option<Parameters>)
        ensures
            parameters == &self.parameters,
    {
        &self.parameters
    }

    /// The number of parameters, where the backend reports them.
    pub fn parameter_count(&self) -> (n: Option<usize>)
        ensures
            n.is_some() == self@.parameter_count().is_some(),
            n matches Some(k) ==> self@.parameter_count() == Some(k as nat),
    {
        match &self.parameters {
            Some(p) => Some(p.count()),
            None => None,
        }
    }

    /// The type of parameter `i`, where the backend reports it.
    pub fn parameter_type(&self, i: usize) -> (ty: Option<TypeInfo>)
        ensures
            ty == self@.parameter_type(i as int),
    {
        match &self.parameters {
            Some(p) => p.type_at(i),
            None => None,
        }
    }

    /// Whether the query returns nothing.
    pub fn all_void(&self) -> (b: bool)
        ensures
            b == self@.all_void(),
    {
        let mut i: usize = 0;
        while i < self.columns.len()
            invariant
                i <= self.columns.len(),
                forall|j: int| 0 <= j < i ==> (#[trigger] self@.columns[j]).type_info.void(),
            decreases self.columns.len() - i,
        {
            if !self.columns[i].type_info.is_void() {
                assert(!self@.columns[i as int].type_info.void());
                return false;
            }
            i += 1;
        }
        true
    }
}

} // verus!
