//! The statement tree: its vocabulary of operators, connectors and actions,
//! the conditions of a WHERE chain, the statement node, and the mathematical
//! view of each.

use vstd::prelude::*;

verus! {

/// A closed set of values, each of which stands for one fixed SQL keyword.
pub trait EnumToStr {
    /// The keyword, as a sequence of characters.
    spec fn token(&self) -> Seq<char>;

    /// The keyword, as text.
    fn as_str(&self) -> (s: &'static str)
        ensures
            s@ == self.token(),
    ;
}

/// How a column is compared with the literal values of a condition.
#[derive(Clone, Copy, Debug, PartialEq, Eq)]
pub enum QueryOperator {
    Equal,
    NotEqual,
    In,
    NotIn,
    Like,
    NotLike,
}

impl EnumToStr for QueryOperator {
    open spec fn token(&self) -> Seq<char> {
        match self {
            QueryOperator::Equal => "="@,
            QueryOperator::NotEqual => "<>"@,
            QueryOperator::In => "IN"@,
            QueryOperator::NotIn => "NOT IN"@,
            QueryOperator::Like => "LIKE"@,
            QueryOperator::NotLike => "NOT LIKE"@,
        }
    }

    fn as_str(&self) -> (s: &'static str) {
        match self {
            QueryOperator::Equal => "=",
            QueryOperator::NotEqual => "<>",
            QueryOperator::In => "IN",
            QueryOperator::NotIn => "NOT IN",
            QueryOperator::Like => "LIKE",
            QueryOperator::NotLike => "NOT LIKE",
        }
    }
}

/// The connector that joins a condition to the one before it.
#[derive(Clone, Copy, Debug, PartialEq, Eq)]
pub enum LogicOperator {
    Not,
    And,
    Or,
}

impl EnumToStr for LogicOperator {
    open spec fn token(&self) -> Seq<char> {
        match self {
            LogicOperator::Not => "NOT"@,
            LogicOperator::And => "AND"@,
            LogicOperator::Or => "OR"@,
        }
    }

    fn as_str(&self) -> (s: &'static str) {
        match self {
            LogicOperator::Not => "NOT",
            LogicOperator::And => "AND",
            LogicOperator::Or => "OR",
        }
    }
}

/// What a statement does.
#[derive(Clone, Copy, Debug, PartialEq, Eq)]
pub enum QueryAction {
    Select,
    Update,
    Delete,
}

impl EnumToStr for QueryAction {
    open spec fn token(&self) -> Seq<char> {
        match self {
            QueryAction::Select => "SELECT"@,
            QueryAction::Update => "UPDATE"@,
            QueryAction::Delete => "DELETE"@,
        }
    }

    fn as_str(&self) -> (s: &'static str) {
        match self {
            QueryAction::Select => "SELECT",
            QueryAction::Update => "UPDATE",
            QueryAction::Delete => "DELETE",
        }
    }
}

/// The characters of each string of `items`, in order.
pub open spec fn texts(items: Seq<String>) -> Seq<Seq<char>> {
    Seq::new(items.len(), |i: int| items[i]@)
}

/// One predicate of a WHERE chain.
pub struct WhereCondition {
    /// The column that is tested.
    pub field_name: String,
    /// The literal values: one for the comparing operators, the members of
    /// the set for `In` and `NotIn`.
    pub value: Vec<String>,
    /// The connector to the condition before this one.
    pub logic_operator: Option<LogicOperator>,
    /// The comparison.
    pub operator: QueryOperator,
}

/// A [`WhereCondition`] as plain sequences.
pub struct WhereConditionView {
    pub field_name: Seq<char>,
    pub value: Seq<Seq<char>>,
    pub logic_operator: Option<LogicOperator>,
    pub operator: QueryOperator,
}

impl View for WhereCondition {
    type V = WhereConditionView;

    open spec fn view(&self) -> WhereConditionView {
        WhereConditionView {
            field_name: self.field_name@,
            value: texts(self.value@),
            logic_operator: self.logic_operator,
            operator: self.operator,
        }
    }
}

impl WhereConditionView {
    /// A condition is well formed when it has at least one literal value.
    pub open spec fn well_formed(self) -> bool {
        self.value.len() > 0
    }
}

/// The view of each condition of `chain`, in order.
pub open spec fn condition_views(chain: Seq<WhereCondition>) -> Seq<WhereConditionView> {
    Seq::new(chain.len(), |i: int| chain[i]@)
}

/// The view of each assignment of `params`, in order: column, then new value.
pub open spec fn assignment_views(params: Seq<(String, String)>) -> Seq<(Seq<char>, Seq<char>)> {
    Seq::new(params.len(), |i: int| (params[i].0@, params[i].1@))
}

/// One statement, or one statement nested in another as its source.
pub struct QueryComponent {
    /// Which statement this is.
    pub action: QueryAction,
    /// The relation that the statement works on. A SELECT with a nested
    /// source does not read it.
    pub table_name: String,
    /// The columns that a SELECT projects; none stands for all columns.
    pub field_names: Vec<String>,
    /// The statement that a SELECT reads from in place of a table.
    pub operated_in: Option<Box<QueryComponent>>,
    /// The assignments of an UPDATE, column and new value, in the order in
    /// which they are written out. No column occurs twice in a well-formed
    /// list.
    pub params: Option<Vec<(String, String)>>,
    /// The WHERE chain, from left to right.
    pub where_conditions: Option<Vec<WhereCondition>>,
}

/// A [`QueryComponent`] as plain sequences.
pub struct QueryComponentView {
    pub action: QueryAction,
    pub table_name: Seq<char>,
    pub field_names: Seq<Seq<char>>,
    pub operated_in: Option<Box<QueryComponentView>>,
    pub params: Option<Seq<(Seq<char>, Seq<char>)>>,
    pub where_conditions: Option<Seq<WhereConditionView>>,
}

impl QueryComponent {
    /// The tree as plain sequences, level by level.
    pub open spec fn as_view(self) -> QueryComponentView
        decreases self,
    {
        QueryComponentView {
            action: self.action,
            table_name: self.table_name@,
            field_names: texts(self.field_names@),
            operated_in: match self.operated_in {
                Some(inner) => Some(Box::new(inner.as_view())),
                None => None,
            },
            params: match self.params {
                Some(params) => Some(assignment_views(params@)),
                None => None,
            },
            where_conditions: match self.where_conditions {
                Some(chain) => Some(condition_views(chain@)),
                None => None,
            },
        }
    }
}

impl View for QueryComponent {
    type V = QueryComponentView;

    open spec fn view(&self) -> QueryComponentView {
        self.as_view()
    }
}

/// A copy of a list of strings.
fn clone_strings(items: &Vec<String>) -> (copy: Vec<String>)
    ensures
        texts(copy@) == texts(items@),
{
    let mut copy: Vec<String> = Vec::new();
    let mut i: usize = 0;
    while i < items.len()
        invariant
            i <= items.len(),
            copy.len() == i,
            forall|k: int| 0 <= k < i ==> (#[trigger] copy[k])@ == items[k]@,
        decreases items.len() - i,
    {
        copy.push(items[i].clone());
        i += 1;
    }
    proof {
        assert(texts(copy@) =~= texts(items@));
    }
    copy
}

/// A copy of a list of assignments.
fn clone_assignments(params: &Vec<(String, String)>) -> (copy: Vec<(String, String)>)
    ensures
        assignment_views(copy@) == assignment_views(params@),
{
    let mut copy: Vec<(String, String)> = Vec::new();
    let mut i: usize = 0;
    while i < params.len()
        invariant
            i <= params.len(),
            copy.len() == i,
            forall|k: int|
                0 <= k < i ==> (#[trigger] copy[k]).0@ == params[k].0@ && copy[k].1@
                    == params[k].1@,
        decreases params.len() - i,
    {
        copy.push((params[i].0.clone(), params[i].1.clone()));
        i += 1;
    }
    proof {
        assert(assignment_views(copy@) =~= assignment_views(params@));
    }
    copy
}

/// A copy of a chain of conditions.
fn clone_conditions(chain: &Vec<WhereCondition>) -> (copy: Vec<WhereCondition>)
    ensures
        condition_views(copy@) == condition_views(chain@),
{
    let mut copy: Vec<WhereCondition> = Vec::new();
    let mut i: usize = 0;
    while i < chain.len()
        invariant
            i <= chain.len(),
            copy.len() == i,
            forall|k: int| 0 <= k < i ==> (#[trigger] copy[k])@ == chain[k]@,
        decreases chain.len() - i,
    {
        copy.push(chain[i].clone());
        i += 1;
    }
    proof {
        assert(condition_views(copy@) =~= condition_views(chain@));
    }
    copy
}

impl Clone for WhereCondition {
    /// A condition with the same view.
    fn clone(&self) -> (copy: Self)
        ensures
            copy@ == self@,
    {
        WhereCondition {
            field_name: self.field_name.clone(),
            value: clone_strings(&self.value),
            logic_operator: self.logic_operator,
            operator: self.operator,
        }
    }
}

impl Clone for QueryComponent {
    /// A tree with the same view, on every level.
    fn clone(&self) -> (copy: Self)
        ensures
            copy@ == self@,
        decreases self,
    {
        QueryComponent {
            action: self.action,
            table_name: self.table_name.clone(),
            field_names: clone_strings(&self.field_names),
            operated_in: match &self.operated_in {
                Some(inner) => Some(Box::new((&**inner).clone())),
                None => None,
            },
            params: match &self.params {
                Some(params) => Some(clone_assignments(params)),
                None => None,
            },
            where_conditions: match &self.where_conditions {
                Some(chain) => Some(clone_conditions(chain)),
                None => None,
            },
        }
    }
}

/// The steps by which a statement is put together.
pub trait QueryBuilder<T> {
    /// Names the columns to project.
    fn select_field(self, param: Vec<String>);

    /// Names another builder as the source to read from.
    fn from(self, builder: Self);

    /// Sets the WHERE chain.
    fn where_condition(self, param: Vec<WhereCondition>);

    /// Makes the statement an UPDATE with these assignments.
    fn update(self, param: Vec<(String, String)>);

    /// Makes the statement a DELETE.
    fn delete(self);
}

} // verus!
