//! From a statement tree to SQL text.

use vstd::prelude::*;
use crate::query_builder::conditions::{
    all_well_formed, build_where_condition, quoted, quoted_text, where_clause,
};
use crate::query_builder::error::{outcome, ConstructionError};
use crate::query_builder::model::{
    assignment_views, texts, EnumToStr, QueryAction, QueryComponent, QueryComponentView,
    WhereConditionView,
};
use crate::query_builder::text::{lemma_separated_empty, lemma_separated_push, separated};

verus! {

/// What a SELECT projects: a star between two spaces for all columns, else
/// the columns between parentheses, a comma between neighbours.
pub open spec fn projection(field_names: Seq<Seq<char>>) -> Seq<char> {
    if field_names.len() == 0 {
        " * "@
    } else {
        " ( "@ + separated(field_names, ","@) + " )"@
    }
}

/// One assignment of an UPDATE: the column, an equals sign between two
/// spaces, the new value between single quotes.
pub open spec fn assignment(param: (Seq<char>, Seq<char>)) -> Seq<char> {
    param.0 + " = "@ + quoted(param.1)
}

/// Each assignment of `params` as text, in order.
pub open spec fn assignment_texts(params: Seq<(Seq<char>, Seq<char>)>) -> Seq<Seq<char>> {
    Seq::new(params.len(), |i: int| assignment(params[i]))
}

/// The assignments of an UPDATE, a comma and a space between neighbours.
pub open spec fn assignments(params: Seq<(Seq<char>, Seq<char>)>) -> Seq<char> {
    separated(assignment_texts(params), ", "@)
}

/// What a SELECT reads from: the text of its nested statement between
/// parentheses, or its table where nothing is nested. A nested statement
/// that failed makes the SELECT fail, and its failure is kept.
pub open spec fn select_source(
    table_name: Seq<char>,
    nested: Option<Result<Seq<char>, ConstructionError>>,
) -> Result<Seq<char>, ConstructionError> {
    match nested {
        Some(Ok(inner)) => Ok("( "@ + inner + " )"@),
        Some(Err(e)) => Err(ConstructionError::NestedCompilationFailed(Box::new(e))),
        None => Ok(table_name),
    }
}

/// The WHERE clause of a SELECT: none without a chain, and none for a chain
/// without conditions.
pub open spec fn optional_where(where_conditions: Option<Seq<WhereConditionView>>) -> Result<
    Seq<char>,
    ConstructionError,
> {
    match where_conditions {
        Some(chain) => if chain.len() > 0 {
            where_clause(chain)
        } else {
            Ok(Seq::empty())
        },
        None => Ok(Seq::empty()),
    }
}

/// The text of a SELECT, given what compiling its nested statement gave. A
/// failure of the nested statement comes before one of the WHERE chain.
pub open spec fn select_sql(
    field_names: Seq<Seq<char>>,
    table_name: Seq<char>,
    nested: Option<Result<Seq<char>, ConstructionError>>,
    where_conditions: Option<Seq<WhereConditionView>>,
) -> Result<Seq<char>, ConstructionError> {
    match select_source(table_name, nested) {
        Err(e) => Err(e),
        Ok(source) => match optional_where(where_conditions) {
            Err(e) => Err(e),
            Ok(clause) => Ok(
                QueryAction::Select.token() + projection(field_names) + " FROM "@ + source
                    + clause,
            ),
        },
    }
}

/// The text of an UPDATE: it needs a list of assignments, and has no WHERE
/// clause.
pub open spec fn update_sql(
    table_name: Seq<char>,
    params: Option<Seq<(Seq<char>, Seq<char>)>>,
) -> Result<Seq<char>, ConstructionError> {
    match params {
        Some(params) => Ok(
            QueryAction::Update.token() + " "@ + table_name + " SET "@ + assignments(params),
        ),
        None => Err(ConstructionError::MissingUpdateParams),
    }
}

/// The text of a DELETE: it needs a WHERE chain, so that no tree stands for
/// a DELETE of every row.
pub open spec fn delete_sql(
    table_name: Seq<char>,
    where_conditions: Option<Seq<WhereConditionView>>,
) -> Result<Seq<char>, ConstructionError> {
    match where_conditions {
        Some(chain) => match where_clause(chain) {
            Ok(clause) => Ok(
                QueryAction::Delete.token() + " FROM "@ + table_name + " "@ + clause,
            ),
            Err(e) => Err(e),
        },
        None => Err(ConstructionError::MissingDeleteCondition),
    }
}

impl QueryComponentView {
    /// The statement that the tree describes, or why it describes none.
    /// Only a SELECT reads its nested statement.
    pub open spec fn sql(self) -> Result<Seq<char>, ConstructionError>
        decreases self,
    {
        match self.action {
            QueryAction::Select => {
                let nested = match self.operated_in {
                    Some(inner) => Some(inner.sql()),
                    None => None,
                };
                select_sql(self.field_names, self.table_name, nested, self.where_conditions)
            },
            QueryAction::Update => update_sql(self.table_name, self.params),
            QueryAction::Delete => delete_sql(self.table_name, self.where_conditions),
        }
    }
}

impl QueryComponentView {
    /// The tree lacks nothing: every condition that is written has a value,
    /// an UPDATE has its assignments, a DELETE has its WHERE chain, and the
    /// statement that a SELECT reads from lacks nothing either.
    pub open spec fn complete(self) -> bool
        decreases self,
    {
        match self.action {
            QueryAction::Select => {
                &&& match self.operated_in {
                    Some(inner) => inner.complete(),
                    None => true,
                }
                &&& match self.where_conditions {
                    Some(chain) => all_well_formed(chain),
                    None => true,
                }
            },
            QueryAction::Update => self.params is Some,
            QueryAction::Delete => match self.where_conditions {
                Some(chain) => all_well_formed(chain),
                None => false,
            },
        }
    }

    /// A tree describes a statement if and only if it lacks nothing.
    pub proof fn lemma_complete_trees_compile(self)
        ensures
            self.sql() is Ok <==> self.complete(),
        decreases self,
    {
        if self.action == QueryAction::Select {
            if let Some(inner) = self.operated_in {
                inner.lemma_complete_trees_compile();
            }
            if let Some(chain) = self.where_conditions {
                if chain.len() == 0 {
                    assert(all_well_formed(chain));
                }
            }
        }
    }
}

/// Writes the projection of a SELECT.
fn projection_text(field_names: &Vec<String>) -> (out: String)
    ensures
        out@ == projection(texts(field_names@)),
{
    if field_names.len() == 0 {
        return String::from_str(" * ");
    }
    let ghost columns = texts(field_names@);
    let mut out = String::from_str(" ( ");
    let mut i: usize = 0;
    proof {
        lemma_separated_empty(","@);
        assert(columns.take(0) =~= Seq::<Seq<char>>::empty());
    }
    while i < field_names.len()
        invariant
            i <= field_names.len(),
            columns == texts(field_names@),
            out@ == " ( "@ + separated(columns.take(i as int), ","@),
        decreases field_names.len() - i,
    {
        if i > 0 {
            out.append(",");
        }
        out.append(field_names[i].as_str());
        proof {
            let sofar = columns.take(i as int);
            lemma_separated_push(sofar, ","@, columns[i as int]);
            assert(columns.take(i + 1) =~= sofar.push(columns[i as int]));
        }
        i += 1;
    }
    proof {
        assert(columns.take(i as int) =~= columns);
    }
    out.append(" )");
    out
}

/// Writes one assignment of an UPDATE.
fn assignment_text(param: &(String, String)) -> (out: String)
    ensures
        out@ == assignment((param.0@, param.1@)),
{
    let mut out = String::new();
    out.append(param.0.as_str());
    out.append(" = ");
    let literal = quoted_text(param.1.as_str());
    out.append(literal.as_str());
    out
}

/// Writes the assignments of an UPDATE in the order of the list.
fn assignment_list(params: &Vec<(String, String)>) -> (out: String)
    ensures
        out@ == assignments(assignment_views(params@)),
{
    let ghost written = assignment_texts(assignment_views(params@));
    let mut out = String::new();
    let mut i: usize = 0;
    proof {
        lemma_separated_empty(", "@);
        assert(written.take(0) =~= Seq::<Seq<char>>::empty());
    }
    while i < params.len()
        invariant
            i <= params.len(),
            written == assignment_texts(assignment_views(params@)),
            out@ == separated(written.take(i as int), ", "@),
        decreases params.len() - i,
    {
        if i > 0 {
            out.append(", ");
        }
        let one = assignment_text(&params[i]);
        out.append(one.as_str());
        proof {
            let sofar = written.take(i as int);
            lemma_separated_push(sofar, ", "@, written[i as int]);
            assert(written.take(i + 1) =~= sofar.push(written[i as int]));
        }
        i += 1;
    }
    proof {
        assert(written.take(i as int) =~= written);
    }
    out
}

impl QueryComponent {
    /// Turns the tree into the text of one statement.
    ///
    /// A SELECT compiles its nested statement first and fails with
    /// `NestedCompilationFailed` around the failure of that statement; an
    /// UPDATE without assignments fails with `MissingUpdateParams`; a DELETE
    /// without a WHERE chain fails with `MissingDeleteCondition`; a WHERE
    /// chain with a condition that has no value fails with `EmptyValueList`.
    /// Every other tree gives a text, and nothing of a text is returned
    /// together with a failure.
    pub fn build_to_string(self) -> (result: Result<String, ConstructionError>)
        ensures
            outcome(result) == self@.sql(),
            result is Ok <==> self@.complete(),
        decreases self,
    {
        let ghost tree = self@;
        proof {
            tree.lemma_complete_trees_compile();
        }
        let mut out = String::from_str(self.action.as_str());
        match self.action {
            QueryAction::Select => {
                let columns = projection_text(&self.field_names);
                out.append(columns.as_str());
                out.append(" FROM ");
                match self.operated_in {
                    Some(inner) => {
                        match (*inner).build_to_string() {
                            Ok(nested) => {
                                out.append("( ");
                                out.append(nested.as_str());
                                out.append(" )");
                            },
                            Err(e) => {
                                return Err(ConstructionError::NestedCompilationFailed(Box::new(e)));
                            },
                        }
                    },
                    None => {
                        out.append(self.table_name.as_str());
                    },
                }
                match &self.where_conditions {
                    Some(chain) => {
                        if chain.len() > 0 {
                            match build_where_condition(chain) {
                                Ok(clause) => {
                                    out.append(clause.as_str());
                                },
                                Err(e) => {
                                    return Err(e);
                                },
                            }
                        }
                    },
                    None => {},
                }
            },
            QueryAction::Update => {
                out.append(" ");
                out.append(self.table_name.as_str());
                out.append(" SET ");
                match &self.params {
                    Some(params) => {
                        let list = assignment_list(params);
                        out.append(list.as_str());
                    },
                    None => {
                        return Err(ConstructionError::MissingUpdateParams);
                    },
                }
            },
            QueryAction::Delete => {
                out.append(" FROM ");
                out.append(self.table_name.as_str());
                out.append(" ");
                match &self.where_conditions {
                    Some(chain) => {
                        match build_where_condition(chain) {
                            Ok(clause) => {
                                out.append(clause.as_str());
                            },
                            Err(e) => {
                                return Err(e);
                            },
                        }
                    },
                    None => {
                        return Err(ConstructionError::MissingDeleteCondition);
                    },
                }
            },
        }
        proof {
            assert(tree.sql() is Ok);
            assert(out@ =~= tree.sql().unwrap());
        }
        Ok(out)
    }
}

} // verus!
