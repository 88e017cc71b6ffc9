//! What holds of every statement that the composer writes. Each law is
//! stated over the views of the tree and proved from the definitions.

use vstd::prelude::*;
use crate::query_builder::compile::{
    assignment_texts, optional_where, projection, select_source, select_sql,
};
use crate::query_builder::conditions::{
    all_well_formed, connector, fragment, fragments, lemma_literal_list_of_three,
    lemma_where_clause_of_one, predicate, quoted, where_clause,
};
use crate::query_builder::error::ConstructionError;
use crate::query_builder::model::{
    EnumToStr, LogicOperator, QueryAction, QueryComponentView, QueryOperator, WhereConditionView,
};
use crate::query_builder::text::{
    lemma_concat_grouping, lemma_occurs_between, lemma_separated_ends_with_last,
    lemma_separated_one, lemma_separated_two, lemma_starts_with, occurs_in, separated,
};

verus! {

/// `tree` with `chain` as its WHERE chain.
pub open spec fn with_conditions(
    tree: QueryComponentView,
    chain: Seq<WhereConditionView>,
) -> QueryComponentView {
    QueryComponentView { where_conditions: Some(chain), ..tree }
}

/// `tree` with `params` as its assignments.
pub open spec fn with_params(
    tree: QueryComponentView,
    params: Seq<(Seq<char>, Seq<char>)>,
) -> QueryComponentView {
    QueryComponentView { params: Some(params), ..tree }
}

/// What a SELECT that compiles reads from.
pub open spec fn source_of(tree: QueryComponentView) -> Seq<char> {
    select_source(
        tree.table_name,
        match tree.operated_in {
            Some(inner) => Some(inner.sql()),
            None => None,
        },
    ).unwrap()
}

/// The statement that lies `levels` levels below `tree`, where each level on
/// the way is a SELECT that reads from the next.
pub open spec fn nested_at(tree: QueryComponentView, levels: nat) -> Option<QueryComponentView>
    decreases levels,
{
    if levels == 0 {
        Some(tree)
    } else if tree.action == QueryAction::Select && tree.operated_in is Some {
        nested_at(*tree.operated_in.unwrap(), (levels - 1) as nat)
    } else {
        None
    }
}

/// A SELECT that names no column projects all of them: its text starts with
/// the keyword, the star and `FROM`, the latter two each between two spaces.
pub proof fn law_select_all_columns(tree: QueryComponentView)
    requires
        tree.action == QueryAction::Select,
        tree.field_names.len() == 0,
        tree.sql() is Ok,
    ensures
        "SELECT *  FROM "@.is_prefix_of(tree.sql().unwrap()),
        occurs_in("SELECT *  FROM "@, tree.sql().unwrap()),
{
    let text = tree.sql().unwrap();
    let head = "SELECT *  FROM "@;
    assert(head == "SELECT"@ + " * "@ + " FROM "@) by {
        reveal_strlit("SELECT");
        reveal_strlit(" * ");
        reveal_strlit(" FROM ");
        reveal_strlit("SELECT *  FROM ");
        assert(head =~= "SELECT"@ + " * "@ + " FROM "@);
    }
    let source = source_of(tree);
    let clause = optional_where(tree.where_conditions).unwrap();
    assert(text == head + source + clause);
    lemma_concat_grouping(head, source, clause);
    lemma_starts_with(head, source + clause);
}

/// A SELECT that names columns projects them between parentheses, in their
/// order, a comma between neighbours and none behind the last.
pub proof fn law_select_named_columns(tree: QueryComponentView)
    requires
        tree.action == QueryAction::Select,
        tree.field_names.len() > 0,
        tree.sql() is Ok,
    ensures
        ("SELECT ( "@ + separated(tree.field_names, ","@) + " ) FROM "@).is_prefix_of(
            tree.sql().unwrap(),
        ),
        occurs_in(
            "SELECT ( "@ + separated(tree.field_names, ","@) + " ) FROM "@,
            tree.sql().unwrap(),
        ),
        tree.field_names.last().is_suffix_of(separated(tree.field_names, ","@)),
{
    let text = tree.sql().unwrap();
    let columns = separated(tree.field_names, ","@);
    let head = "SELECT ( "@ + columns + " ) FROM "@;
    assert("SELECT ( "@ == "SELECT"@ + " ( "@) by {
        reveal_strlit("SELECT");
        reveal_strlit(" ( ");
        reveal_strlit("SELECT ( ");
        assert("SELECT ( "@ =~= "SELECT"@ + " ( "@);
    }
    assert(" ) FROM "@ == " )"@ + " FROM "@) by {
        reveal_strlit(" )");
        reveal_strlit(" FROM ");
        reveal_strlit(" ) FROM ");
        assert(" ) FROM "@ =~= " )"@ + " FROM "@);
    }
    assert(head =~= "SELECT"@ + (" ( "@ + columns + " )"@) + " FROM "@);
    let source = source_of(tree);
    let clause = optional_where(tree.where_conditions).unwrap();
    assert(text == head + source + clause);
    lemma_concat_grouping(head, source, clause);
    lemma_starts_with(head, source + clause);
    lemma_separated_ends_with_last(tree.field_names, ","@);
}

/// A SELECT of two columns writes them as `( first,second )`.
pub proof fn law_select_two_columns(
    tree: QueryComponentView,
    first: Seq<char>,
    second: Seq<char>,
)
    requires
        tree.action == QueryAction::Select,
        tree.field_names == seq![first, second],
        tree.sql() is Ok,
    ensures
        occurs_in("SELECT ( "@ + first + ","@ + second + " ) FROM "@, tree.sql().unwrap()),
{
    law_select_named_columns(tree);
    lemma_separated_two(first, second, ","@);
    assert("SELECT ( "@ + (first + ","@ + second) + " ) FROM "@ =~= "SELECT ( "@ + first + ","@
        + second + " ) FROM "@);
}

/// A SELECT without a nested statement reads its table: the text starts with
/// the keyword and holds `FROM`, between spaces, before the table's name.
pub proof fn law_select_reads_its_table(tree: QueryComponentView)
    requires
        tree.action == QueryAction::Select,
        tree.operated_in is None,
        tree.sql() is Ok,
    ensures
        "SELECT"@.is_prefix_of(tree.sql().unwrap()),
        occurs_in(" FROM "@ + tree.table_name, tree.sql().unwrap()),
{
    let text = tree.sql().unwrap();
    let before = "SELECT"@ + projection(tree.field_names);
    let clause = optional_where(tree.where_conditions).unwrap();
    let needle = " FROM "@ + tree.table_name;
    assert(text == before + " FROM "@ + tree.table_name + clause);
    lemma_concat_grouping(before, " FROM "@, tree.table_name);
    lemma_occurs_between(before, needle, clause);
    lemma_concat_grouping("SELECT"@, projection(tree.field_names), needle);
    lemma_concat_grouping("SELECT"@, projection(tree.field_names) + needle, clause);
    lemma_starts_with("SELECT"@, projection(tree.field_names) + needle + clause);
}

/// A SELECT over a nested statement that compiles holds the text of that
/// statement, as compiling it alone gives it, between parentheses behind
/// `FROM`; and it compiles unless its own WHERE chain does not.
pub proof fn law_subquery_is_wrapped(outer: QueryComponentView)
    requires
        outer.action == QueryAction::Select,
        outer.operated_in is Some,
        outer.operated_in.unwrap().sql() is Ok,
    ensures
        outer.sql() is Ok <==> optional_where(outer.where_conditions) is Ok,
        outer.sql() is Ok ==> outer.sql().unwrap() == "SELECT"@ + projection(outer.field_names)
            + (" FROM ( "@ + outer.operated_in.unwrap().sql().unwrap() + " )"@) + optional_where(
            outer.where_conditions,
        ).unwrap(),
        outer.sql() is Ok ==> occurs_in(
            " FROM ( "@ + outer.operated_in.unwrap().sql().unwrap() + " )"@,
            outer.sql().unwrap(),
        ),
{
    let inner = outer.operated_in.unwrap().sql().unwrap();
    let nested = Some(outer.operated_in.unwrap().sql());
    assert(outer.sql() == select_sql(
        outer.field_names,
        outer.table_name,
        nested,
        outer.where_conditions,
    ));
    if outer.sql() is Ok {
        let before = "SELECT"@ + projection(outer.field_names);
        let clause = optional_where(outer.where_conditions).unwrap();
        let wrapped = "( "@ + inner + " )"@;
        let needle = " FROM ( "@ + inner + " )"@;
        assert(outer.sql().unwrap() == before + " FROM "@ + wrapped + clause);
        assert(" FROM ( "@ == " FROM "@ + "( "@) by {
            reveal_strlit(" FROM ");
            reveal_strlit("( ");
            reveal_strlit(" FROM ( ");
            assert(" FROM ( "@ =~= " FROM "@ + "( "@);
        }
        assert(needle == " FROM "@ + wrapped) by {
            lemma_concat_grouping(" FROM "@, "( "@, inner);
            lemma_concat_grouping(" FROM "@, "( "@ + inner, " )"@);
        }
        assert(before + " FROM "@ + wrapped == before + needle) by {
            lemma_concat_grouping(before, " FROM "@, wrapped);
        }
        lemma_occurs_between(before, needle, clause);
    }
}

/// A DELETE without a WHERE chain is refused, whatever else the tree holds;
/// the same DELETE with one condition that has a value is written, and its
/// text is `DELETE FROM`, the table, two spaces, and `WHERE` with the
/// fragment of that condition.
pub proof fn law_delete_guard(tree: QueryComponentView, condition: WhereConditionView)
    requires
        tree.action == QueryAction::Delete,
        tree.where_conditions is None,
        condition.well_formed(),
    ensures
        tree.sql() == Err::<Seq<char>, ConstructionError>(
            ConstructionError::MissingDeleteCondition,
        ),
        with_conditions(tree, seq![condition]).sql() == Ok::<Seq<char>, ConstructionError>(
            "DELETE FROM "@ + tree.table_name + "  WHERE "@ + fragment(condition),
        ),
        occurs_in(
            "DELETE FROM "@ + tree.table_name + "  WHERE "@,
            with_conditions(tree, seq![condition]).sql().unwrap(),
        ),
{
    lemma_where_clause_of_one(condition);
    let guarded = with_conditions(tree, seq![condition]);
    let head = "DELETE FROM "@ + tree.table_name + "  WHERE "@;
    assert("DELETE FROM "@ == "DELETE"@ + " FROM "@) by {
        reveal_strlit("DELETE");
        reveal_strlit(" FROM ");
        reveal_strlit("DELETE FROM ");
        assert("DELETE FROM "@ =~= "DELETE"@ + " FROM "@);
    }
    assert("  WHERE "@ == " "@ + " WHERE "@) by {
        reveal_strlit(" ");
        reveal_strlit(" WHERE ");
        reveal_strlit("  WHERE ");
        assert("  WHERE "@ =~= " "@ + " WHERE "@);
    }
    assert(guarded.sql().unwrap() == "DELETE"@ + " FROM "@ + tree.table_name + " "@ + (" WHERE "@
        + fragment(condition)));
    assert(guarded.sql().unwrap() =~= head + fragment(condition));
    lemma_starts_with(head, fragment(condition));
}

/// An UPDATE without assignments is refused, whatever else the tree holds;
/// the same UPDATE with one assignment is written as `UPDATE`, the table,
/// `SET`, the column, an equals sign and the quoted value.
pub proof fn law_update_guard(tree: QueryComponentView, column: Seq<char>, value: Seq<char>)
    requires
        tree.action == QueryAction::Update,
        tree.params is None,
    ensures
        tree.sql() == Err::<Seq<char>, ConstructionError>(ConstructionError::MissingUpdateParams),
        with_params(tree, seq![(column, value)]).sql() == Ok::<Seq<char>, ConstructionError>(
            "UPDATE "@ + tree.table_name + " SET "@ + column + " = '"@ + value + "'"@,
        ),
{
    let params = seq![(column, value)];
    let written = column + " = "@ + ("'"@ + value + "'"@);
    assert(assignment_texts(params) =~= seq![written]);
    lemma_separated_one(written, ", "@);
    assert("UPDATE "@ == "UPDATE"@ + " "@) by {
        reveal_strlit("UPDATE");
        reveal_strlit(" ");
        reveal_strlit("UPDATE ");
        assert("UPDATE "@ =~= "UPDATE"@ + " "@);
    }
    assert(" = '"@ == " = "@ + "'"@) by {
        reveal_strlit(" = ");
        reveal_strlit("'");
        reveal_strlit(" = '");
        assert(" = '"@ =~= " = "@ + "'"@);
    }
    assert(with_params(tree, params).sql().unwrap() == "UPDATE"@ + " "@ + tree.table_name
        + " SET "@ + written);
    assert(with_params(tree, params).sql().unwrap() =~= "UPDATE "@ + tree.table_name + " SET "@
        + column + " = '"@ + value + "'"@);
}

/// The keyword `IN` between a column and a set, as one text.
proof fn lemma_in_test_spelled(field: Seq<char>, members: Seq<char>)
    ensures
        field + " "@ + "IN"@ + " "@ + ("( "@ + members + " )"@) + " "@ == field + " IN ( "@
            + members + " ) "@,
        field + " "@ + "IN"@ + " "@ + ("( "@ + members + " )"@) + " "@ == field + " "@ + ("IN ( "@
            + members + " )"@) + " "@,
{
    assert("IN ( "@ == "IN"@ + " "@ + "( "@) by {
        reveal_strlit("IN");
        reveal_strlit(" ");
        reveal_strlit("( ");
        reveal_strlit("IN ( ");
        assert("IN ( "@ =~= "IN"@ + " "@ + "( "@);
    }
    assert(" IN ( "@ == " "@ + "IN ( "@) by {
        reveal_strlit(" ");
        reveal_strlit("IN ( ");
        reveal_strlit(" IN ( ");
        assert(" IN ( "@ =~= " "@ + "IN ( "@);
    }
    assert(" ) "@ == " )"@ + " "@) by {
        reveal_strlit(" ");
        reveal_strlit(" )");
        reveal_strlit(" ) ");
        assert(" ) "@ =~= " )"@ + " "@);
    }
    let list = "IN ( "@ + members + " )"@;
    assert(field + " "@ + "IN"@ + " "@ + ("( "@ + members + " )"@) + " "@ =~= field + " "@ + list
        + " "@);
    assert(field + " "@ + list + " "@ =~= field + (" "@ + "IN ( "@) + members + (" )"@ + " "@));
}

/// The members of an `IN` set are written in their order, each one between
/// single quotes of its own, a comma between neighbours: for three members
/// `a`, `b`, `c` the test is `field IN ( 'a','b','c' ) `.
pub proof fn law_in_list_of_three(
    condition: WhereConditionView,
    a: Seq<char>,
    b: Seq<char>,
    c: Seq<char>,
)
    requires
        condition.operator == QueryOperator::In,
        condition.value == seq![a, b, c],
    ensures
        predicate(condition) == condition.field_name + " IN ( "@ + (quoted(a) + ","@ + quoted(b)
            + ","@ + quoted(c)) + " ) "@,
        occurs_in(
            "IN ( "@ + (quoted(a) + ","@ + quoted(b) + ","@ + quoted(c)) + " )"@,
            fragment(condition),
        ),
{
    let field = condition.field_name;
    let members = quoted(a) + ","@ + quoted(b) + ","@ + quoted(c);
    let list = "IN ( "@ + members + " )"@;
    lemma_literal_list_of_three(a, b, c);
    lemma_in_test_spelled(field, members);
    assert(predicate(condition) == field + " "@ + "IN"@ + " "@ + ("( "@ + members + " )"@) + " "@);
    let before = connector(condition.logic_operator) + field + " "@;
    assert(fragment(condition) == before + list + " "@) by {
        lemma_concat_grouping(field + " "@, list, " "@);
        lemma_concat_grouping(connector(condition.logic_operator), field + " "@, list + " "@);
        lemma_concat_grouping(before, list, " "@);
    }
    lemma_occurs_between(before, list, " "@);
}

/// In a chain of two conditions of which only the second has a connector,
/// the connector stands directly before the test of the second condition,
/// and nothing stands between the keyword and the test of the first.
pub proof fn law_connector_placement(
    first: WhereConditionView,
    second: WhereConditionView,
    op: LogicOperator,
)
    requires
        first.well_formed(),
        second.well_formed(),
        first.logic_operator is None,
        second.logic_operator == Some(op),
    ensures
        where_clause(seq![first, second]) == Ok::<Seq<char>, ConstructionError>(
            " WHERE "@ + predicate(first) + op.token() + " "@ + predicate(second),
        ),
{
    let chain = seq![first, second];
    assert(all_well_formed(chain));
    assert(fragments(chain) =~= seq![fragment(first)].push(fragment(second)));
    seq![fragment(first)].lemma_flatten_singleton();
    seq![fragment(first)].lemma_flatten_push(fragment(second));
    assert(where_clause(chain).unwrap() =~= " WHERE "@ + predicate(first) + op.token() + " "@
        + predicate(second));
}

/// A connector on the first condition of a chain is written like any other:
/// it stands between the keyword and the test.
pub proof fn law_leading_connector_is_kept(condition: WhereConditionView, op: LogicOperator)
    requires
        condition.well_formed(),
        condition.logic_operator == Some(op),
    ensures
        where_clause(seq![condition]) == Ok::<Seq<char>, ConstructionError>(
            " WHERE "@ + op.token() + " "@ + predicate(condition),
        ),
{
    lemma_where_clause_of_one(condition);
    assert(" WHERE "@ + fragment(condition) =~= " WHERE "@ + op.token() + " "@ + predicate(
        condition,
    ));
}

/// The comparing operators read the first value of a condition and no other:
/// two conditions that differ in their later values only are written alike.
pub proof fn law_later_values_are_not_read(one: WhereConditionView, other: WhereConditionView)
    requires
        one.operator != QueryOperator::In,
        one.operator != QueryOperator::NotIn,
        other.operator == one.operator,
        other.field_name == one.field_name,
        other.logic_operator == one.logic_operator,
        other.value[0] == one.value[0],
    ensures
        fragment(other) == fragment(one),
{
}

/// Each failure has one cause. An UPDATE fails for want of assignments, a
/// DELETE for want of a WHERE chain; a statement whose WHERE chain is
/// written fails for want of a value in it, a SELECT only where its nested
/// statement did not fail; and a SELECT whose nested statement fails with
/// `inner` fails with `inner` wrapped once.
pub proof fn law_each_failure_has_its_cause(tree: QueryComponentView, inner: ConstructionError)
    ensures
        tree.sql() == Err::<Seq<char>, ConstructionError>(ConstructionError::MissingUpdateParams)
            <==> tree.action == QueryAction::Update && tree.params is None,
        tree.sql() == Err::<Seq<char>, ConstructionError>(
            ConstructionError::MissingDeleteCondition,
        ) <==> tree.action == QueryAction::Delete && tree.where_conditions is None,
        tree.sql() == Err::<Seq<char>, ConstructionError>(ConstructionError::EmptyValueList) <==> {
            &&& tree.action != QueryAction::Update
            &&& tree.where_conditions is Some
            &&& !all_well_formed(tree.where_conditions.unwrap())
            &&& tree.action == QueryAction::Select && tree.operated_in is Some
                ==> tree.operated_in.unwrap().sql() is Ok
        },
        tree.sql() == Err::<Seq<char>, ConstructionError>(
            ConstructionError::NestedCompilationFailed(Box::new(inner)),
        ) <==> {
            &&& tree.action == QueryAction::Select
            &&& tree.operated_in is Some
            &&& tree.operated_in.unwrap().sql() == Err::<Seq<char>, ConstructionError>(inner)
        },
{
    if let Some(chain) = tree.where_conditions {
        if chain.len() == 0 {
            assert(all_well_formed(chain));
        }
    }
}

/// A failure tells where it arose: as many levels below the tree as the
/// failure is wrapped lies a statement that fails by itself, with the
/// innermost failure, and that failure is no wrapper.
pub proof fn law_failure_names_its_level(tree: QueryComponentView)
    requires
        tree.sql() is Err,
    ensures
        nested_at(tree, tree.sql()->Err_0.level()) is Some,
        nested_at(tree, tree.sql()->Err_0.level()).unwrap().sql() == Err::<
            Seq<char>,
            ConstructionError,
        >(tree.sql()->Err_0.innermost()),
        !(tree.sql()->Err_0.innermost() is NestedCompilationFailed),
    decreases tree,
{
    let failure = tree.sql()->Err_0;
    if failure is NestedCompilationFailed {
        let inner = *tree.operated_in.unwrap();
        assert(inner.sql() is Err);
        law_failure_names_its_level(inner);
        assert(failure.level() == inner.sql()->Err_0.level() + 1);
    }
}

/// A well-formed tree never fails for want of a value: if it fails, a
/// statement in it lacks its assignments or its WHERE chain.
pub proof fn law_well_formed_fails_on_missing_parts_only(tree: QueryComponentView)
    requires
        tree.well_formed(),
        tree.sql() is Err,
    ensures
        tree.sql()->Err_0.innermost() is MissingUpdateParams
            || tree.sql()->Err_0.innermost() is MissingDeleteCondition,
    decreases tree,
{
    let failure = tree.sql()->Err_0;
    if failure is NestedCompilationFailed {
        let inner = *tree.operated_in.unwrap();
        assert(inner.sql() is Err);
        law_well_formed_fails_on_missing_parts_only(inner);
    }
}

} // verus!
