//! The WHERE clause: one fragment for each condition of a chain, after the
//! keyword.

use vstd::prelude::*;
use crate::query_builder::error::{outcome, ConstructionError};
use crate::query_builder::model::{
    condition_views, texts, EnumToStr, LogicOperator, QueryOperator, WhereCondition,
    WhereConditionView,
};
use crate::query_builder::text::{
    lemma_separated_empty, lemma_separated_push, lemma_separated_three, separated,
};

verus! {

/// A literal value between single quotes. Nothing in it is escaped.
pub open spec fn quoted(value: Seq<char>) -> Seq<char> {
    "'"@ + value + "'"@
}

/// Each value of `values` between single quotes, in order.
pub open spec fn quoted_all(values: Seq<Seq<char>>) -> Seq<Seq<char>> {
    Seq::new(values.len(), |i: int| quoted(values[i]))
}

/// The members of a set between parentheses: each one quoted, a comma
/// between neighbours, one space inside each parenthesis. Without members
/// there is nothing to set apart, and the parentheses are one space apart.
pub open spec fn literal_list(values: Seq<Seq<char>>) -> Seq<char> {
    if values.len() == 0 {
        "( )"@
    } else {
        "( "@ + separated(quoted_all(values), ","@) + " )"@
    }
}

/// What a column is compared with: the first value quoted, the first value
/// as a quoted pattern that matches it anywhere, or all values as a set.
/// The comparing operators read no value but the first.
pub open spec fn operand(operator: QueryOperator, values: Seq<Seq<char>>) -> Seq<char> {
    match operator {
        QueryOperator::Equal | QueryOperator::NotEqual => quoted(values[0]),
        QueryOperator::Like | QueryOperator::NotLike => "'%"@ + values[0] + "%'"@,
        QueryOperator::In | QueryOperator::NotIn => literal_list(values),
    }
}

/// The test that a condition makes: column, operator, operand, each followed
/// by one space.
pub open spec fn predicate(condition: WhereConditionView) -> Seq<char> {
    condition.field_name + " "@ + condition.operator.token() + " "@ + operand(
        condition.operator,
        condition.value,
    ) + " "@
}

/// A connector and the space behind it; nothing where there is no connector.
pub open spec fn connector(logic_operator: Option<LogicOperator>) -> Seq<char> {
    match logic_operator {
        Some(op) => op.token() + " "@,
        None => Seq::empty(),
    }
}

/// What one condition adds to a WHERE clause: its connector, wherever in the
/// chain the condition stands, then its test.
pub open spec fn fragment(condition: WhereConditionView) -> Seq<char> {
    connector(condition.logic_operator) + predicate(condition)
}

/// The fragment of each condition of `chain`, in order.
pub open spec fn fragments(chain: Seq<WhereConditionView>) -> Seq<Seq<char>> {
    Seq::new(chain.len(), |i: int| fragment(chain[i]))
}

/// Every condition of `chain` has a literal value.
pub open spec fn all_well_formed(chain: Seq<WhereConditionView>) -> bool {
    forall|i: int| 0 <= i < chain.len() ==> (#[trigger] chain[i]).well_formed()
}

/// The WHERE clause of `chain`: the keyword between two spaces, then the
/// fragments with nothing between them. A chain with a condition that has no
/// value has no clause.
pub open spec fn where_clause(chain: Seq<WhereConditionView>) -> Result<
    Seq<char>,
    ConstructionError,
> {
    if all_well_formed(chain) {
        Ok(" WHERE "@ + fragments(chain).flatten())
    } else {
        Err(ConstructionError::EmptyValueList)
    }
}

/// Writes a literal value between single quotes.
pub(crate) fn quoted_text(value: &str) -> (out: String)
    ensures
        out@ == quoted(value@),
{
    let mut out = String::from_str("'");
    out.append(value);
    out.append("'");
    out
}

/// Writes the members of a set as a parenthesised list of quoted literals.
pub fn build_like_query(value: &[String]) -> (out: String)
    ensures
        out@ == literal_list(texts(value@)),
{
    if value.len() == 0 {
        return String::from_str("( )");
    }
    let ghost members = quoted_all(texts(value@));
    let mut out = String::from_str("( ");
    let mut i: usize = 0;
    proof {
        lemma_separated_empty(","@);
        assert(members.take(0) =~= Seq::<Seq<char>>::empty());
    }
    while i < value.len()
        invariant
            i <= value.len(),
            members == quoted_all(texts(value@)),
            out@ == "( "@ + separated(members.take(i as int), ","@),
        decreases value.len() - i,
    {
        if i > 0 {
            out.append(",");
        }
        let member = quoted_text(value[i].as_str());
        out.append(member.as_str());
        proof {
            let sofar = members.take(i as int);
            lemma_separated_push(sofar, ","@, members[i as int]);
            assert(members.take(i + 1) =~= sofar.push(members[i as int]));
        }
        i += 1;
    }
    proof {
        assert(members.take(i as int) =~= members);
    }
    out.append(" )");
    out
}

/// Writes the fragment of one condition that has a value.
fn condition_fragment(condition: &WhereCondition) -> (out: String)
    requires
        condition@.well_formed(),
    ensures
        out@ == fragment(condition@),
{
    let mut out = String::new();
    match &condition.logic_operator {
        Some(op) => {
            out.append(op.as_str());
            out.append(" ");
        },
        None => {},
    }
    out.append(condition.field_name.as_str());
    out.append(" ");
    out.append(condition.operator.as_str());
    out.append(" ");
    match condition.operator {
        QueryOperator::Equal | QueryOperator::NotEqual => {
            let literal = quoted_text(condition.value[0].as_str());
            out.append(literal.as_str());
        },
        QueryOperator::Like | QueryOperator::NotLike => {
            out.append("'%");
            out.append(condition.value[0].as_str());
            out.append("%'");
        },
        QueryOperator::In | QueryOperator::NotIn => {
            let list = build_like_query(condition.value.as_slice());
            out.append(list.as_str());
        },
    }
    out.append(" ");
    out
}

/// Writes the WHERE clause of a chain of conditions, in the order of the
/// chain. Fails with `EmptyValueList` if and only if a condition of the chain
/// has no value.
pub fn build_where_condition(where_conditions: &Vec<WhereCondition>) -> (result: Result<
    String,
    ConstructionError,
>)
    ensures
        outcome(result) == where_clause(condition_views(where_conditions@)),
        result is Ok <==> all_well_formed(condition_views(where_conditions@)),
{
    let ghost chain = condition_views(where_conditions@);
    let mut out = String::from_str(" WHERE ");
    let mut i: usize = 0;
    proof {
        assert(fragments(chain.take(0)) =~= Seq::<Seq<char>>::empty());
    }
    while i < where_conditions.len()
        invariant
            i <= where_conditions.len(),
            chain == condition_views(where_conditions@),
            all_well_formed(chain.take(i as int)),
            out@ == " WHERE "@ + fragments(chain.take(i as int)).flatten(),
        decreases where_conditions.len() - i,
    {
        let condition = &where_conditions[i];
        if condition.value.len() == 0 {
            assert(!chain[i as int].well_formed());
            return Err(ConstructionError::EmptyValueList);
        }
        let piece = condition_fragment(condition);
        out.append(piece.as_str());
        proof {
            let sofar = chain.take(i as int);
            assert(chain.take(i + 1) =~= sofar.push(chain[i as int]));
            assert(fragments(sofar.push(chain[i as int])) =~= fragments(sofar).push(
                fragment(chain[i as int]),
            ));
            fragments(sofar).lemma_flatten_push(fragment(chain[i as int]));
        }
        i += 1;
    }
    proof {
        assert(chain.take(i as int) =~= chain);
    }
    Ok(out)
}

/// A chain of one condition that has a value is written as the keyword and
/// the fragment of that condition.
pub proof fn lemma_where_clause_of_one(condition: WhereConditionView)
    requires
        condition.well_formed(),
    ensures
        where_clause(seq![condition]) == Ok::<Seq<char>, ConstructionError>(
            " WHERE "@ + fragment(condition),
        ),
{
    let chain = seq![condition];
    assert(all_well_formed(chain));
    assert(fragments(chain) =~= seq![fragment(condition)]);
    fragments(chain).lemma_flatten_singleton();
}

/// A set of three members is written as `( 'a','b','c' )`.
pub proof fn lemma_literal_list_of_three(a: Seq<char>, b: Seq<char>, c: Seq<char>)
    ensures
        literal_list(seq![a, b, c]) == "( "@ + (quoted(a) + ","@ + quoted(b) + ","@ + quoted(c))
            + " )"@,
{
    assert(quoted_all(seq![a, b, c]) =~= seq![quoted(a), quoted(b), quoted(c)]);
    lemma_separated_three(quoted(a), quoted(b), quoted(c), ","@);
}

} // verus!
