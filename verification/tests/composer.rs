use sqlx_template::query_builder::{
    build_like_query, build_where_condition, ConstructionError, EnumToStr, LogicOperator,
    QueryAction, QueryBuilder, QueryComponent, QueryOperator, WhereCondition,
};

fn strings(items: &[&str]) -> Vec<String> {
    items.iter().map(|s| s.to_string()).collect()
}

fn condition(
    field: &str,
    values: &[&str],
    logic: Option<LogicOperator>,
    operator: QueryOperator,
) -> WhereCondition {
    WhereCondition {
        field_name: field.to_string(),
        value: strings(values),
        logic_operator: logic,
        operator,
    }
}

fn component(action: QueryAction, table: &str) -> QueryComponent {
    QueryComponent {
        action,
        table_name: table.to_string(),
        field_names: vec![],
        operated_in: None,
        params: None,
        where_conditions: None,
    }
}

/// The text with every run of white space collapsed to one space.
fn collapsed(text: &str) -> String {
    text.split_whitespace().collect::<Vec<&str>>().join(" ")
}

#[test]
fn test_build_query() {
    let query = QueryComponent {
        action: QueryAction::Delete,
        table_name: String::from("TB"),
        field_names: vec![String::from("id")],
        operated_in: Some(Box::new(QueryComponent {
            action: QueryAction::Select,
            table_name: String::from("SUB_TB"),
            field_names: vec![],
            operated_in: None,
            params: None,
            where_conditions: Some(vec![WhereCondition {
                field_name: String::from("A"),
                value: vec![String::from("B")],
                logic_operator: None,
                operator: QueryOperator::In,
            }]),
        })),
        params: None,
        where_conditions: Some(vec![WhereCondition {
            field_name: String::from("A"),
            value: vec![String::from("B")],
            logic_operator: None,
            operator: QueryOperator::In,
        }]),
    };

    println!("{}", query.build_to_string().unwrap())
}

#[test]
fn delete_over_a_nested_select_writes_only_the_delete() {
    let inner = QueryComponent {
        where_conditions: Some(vec![condition("A", &["B"], None, QueryOperator::In)]),
        ..component(QueryAction::Select, "SUB_TB")
    };
    let outer = QueryComponent {
        field_names: strings(&["id"]),
        operated_in: Some(Box::new(inner)),
        where_conditions: Some(vec![condition("A", &["B"], None, QueryOperator::In)]),
        ..component(QueryAction::Delete, "TB")
    };
    let sql = outer.build_to_string().unwrap();
    assert_eq!(sql, "DELETE FROM TB  WHERE A IN ( 'B' ) ");
    assert!(sql.contains("DELETE FROM TB"));
    assert!(sql.contains("WHERE A IN ( 'B' )"));
    assert!(!sql.contains("SUB_TB"));
}

#[test]
fn nested_select_alone_and_under_a_select() {
    let inner = || QueryComponent {
        where_conditions: Some(vec![condition("A", &["B"], None, QueryOperator::In)]),
        ..component(QueryAction::Select, "SUB_TB")
    };
    let alone = inner().build_to_string().unwrap();
    assert_eq!(alone, "SELECT *  FROM SUB_TB WHERE A IN ( 'B' ) ");
    let outer = QueryComponent {
        operated_in: Some(Box::new(inner())),
        ..component(QueryAction::Select, "TB")
    };
    let sql = outer.build_to_string().unwrap();
    assert_eq!(sql, "SELECT *  FROM ( SELECT *  FROM SUB_TB WHERE A IN ( 'B' )  )");
    assert!(sql.contains(&format!("FROM ( {} )", alone)));
    assert!(!sql.contains(" TB"));
}

#[test]
fn delete_by_id_is_written_exactly() {
    let query = QueryComponent {
        where_conditions: Some(vec![condition("id", &["5"], None, QueryOperator::Equal)]),
        ..component(QueryAction::Delete, "users")
    };
    assert_eq!(query.build_to_string(), Ok("DELETE FROM users  WHERE id = '5' ".to_string()));
}

#[test]
fn select_without_columns_projects_all() {
    let sql = component(QueryAction::Select, "users").build_to_string().unwrap();
    assert_eq!(sql, "SELECT *  FROM users");
    assert!(sql.starts_with("SELECT *  FROM "));
    assert!(collapsed(&sql).contains("SELECT * FROM"));
}

#[test]
fn select_with_columns_lists_them_without_trailing_comma() {
    let query = QueryComponent {
        field_names: strings(&["id", "email"]),
        ..component(QueryAction::Select, "users")
    };
    let sql = query.build_to_string().unwrap();
    assert_eq!(sql, "SELECT ( id,email ) FROM users");
    assert!(sql.contains("SELECT ( id,email ) FROM"));
    assert!(!sql.contains(", )"));
    assert!(!sql.contains(",)"));
}

#[test]
fn select_with_one_column() {
    let query = QueryComponent {
        field_names: strings(&["id"]),
        ..component(QueryAction::Select, "users")
    };
    assert_eq!(query.build_to_string().unwrap(), "SELECT ( id ) FROM users");
}

#[test]
fn select_with_three_columns_keeps_their_order() {
    let query = QueryComponent {
        field_names: strings(&["c", "a", "b"]),
        ..component(QueryAction::Select, "t")
    };
    assert_eq!(query.build_to_string().unwrap(), "SELECT ( c,a,b ) FROM t");
}

#[test]
fn select_with_where_chain() {
    let query = QueryComponent {
        field_names: strings(&["id"]),
        where_conditions: Some(vec![
            condition("active", &["1"], None, QueryOperator::Equal),
            condition("email", &["example.org"], Some(LogicOperator::And), QueryOperator::Like),
        ]),
        ..component(QueryAction::Select, "users")
    };
    assert_eq!(
        query.build_to_string().unwrap(),
        "SELECT ( id ) FROM users WHERE active = '1' AND email LIKE '%example.org%' "
    );
}

#[test]
fn select_with_an_empty_chain_has_no_where_clause() {
    let query = QueryComponent {
        where_conditions: Some(vec![]),
        ..component(QueryAction::Select, "users")
    };
    let sql = query.build_to_string().unwrap();
    assert_eq!(sql, "SELECT *  FROM users");
    assert!(!sql.contains("WHERE"));
}

#[test]
fn select_reads_its_nested_statement_and_not_its_table() {
    let inner = QueryComponent {
        field_names: strings(&["id"]),
        ..component(QueryAction::Select, "T")
    };
    let alone = QueryComponent {
        field_names: strings(&["id"]),
        ..component(QueryAction::Select, "T")
    }
    .build_to_string()
    .unwrap();
    let outer = QueryComponent {
        operated_in: Some(Box::new(inner)),
        where_conditions: Some(vec![condition("id", &["7"], None, QueryOperator::NotEqual)]),
        ..component(QueryAction::Select, "ignored")
    };
    let sql = outer.build_to_string().unwrap();
    assert_eq!(sql, "SELECT *  FROM ( SELECT ( id ) FROM T ) WHERE id <> '7' ");
    assert!(sql.contains(&format!("FROM ( {} )", alone)));
    assert!(sql.contains("FROM T"));
    assert!(!sql.contains("ignored"));
}

#[test]
fn select_nested_twice() {
    let innermost = component(QueryAction::Select, "base");
    let middle = QueryComponent {
        operated_in: Some(Box::new(innermost)),
        ..component(QueryAction::Select, "")
    };
    let outer = QueryComponent {
        operated_in: Some(Box::new(middle)),
        ..component(QueryAction::Select, "")
    };
    assert_eq!(
        outer.build_to_string().unwrap(),
        "SELECT *  FROM ( SELECT *  FROM ( SELECT *  FROM base ) )"
    );
}

#[test]
fn delete_without_conditions_is_refused() {
    let query = component(QueryAction::Delete, "users");
    assert_eq!(query.build_to_string(), Err(ConstructionError::MissingDeleteCondition));
}

#[test]
fn delete_with_one_condition_is_written() {
    let query = QueryComponent {
        where_conditions: Some(vec![condition("name", &["x"], None, QueryOperator::Equal)]),
        ..component(QueryAction::Delete, "accounts")
    };
    let sql = query.build_to_string().unwrap();
    assert_eq!(sql, "DELETE FROM accounts  WHERE name = 'x' ");
    assert!(collapsed(&sql).contains("DELETE FROM accounts WHERE"));
}

#[test]
fn delete_with_an_empty_chain_writes_the_keyword_alone() {
    let query = QueryComponent {
        where_conditions: Some(vec![]),
        ..component(QueryAction::Delete, "users")
    };
    assert_eq!(query.build_to_string().unwrap(), "DELETE FROM users  WHERE ");
}

#[test]
fn update_without_params_is_refused() {
    let query = component(QueryAction::Update, "users");
    assert_eq!(query.build_to_string(), Err(ConstructionError::MissingUpdateParams));
}

#[test]
fn update_with_one_param_is_written() {
    let query = QueryComponent {
        params: Some(vec![("password".to_string(), "x".to_string())]),
        ..component(QueryAction::Update, "users")
    };
    let sql = query.build_to_string().unwrap();
    assert_eq!(sql, "UPDATE users SET password = 'x'");
    assert!(sql.contains("UPDATE users SET password = 'x'"));
}

#[test]
fn update_with_two_params_keeps_their_order() {
    let query = QueryComponent {
        params: Some(vec![
            ("password".to_string(), "x".to_string()),
            ("email".to_string(), "a@b.c".to_string()),
        ]),
        ..component(QueryAction::Update, "users")
    };
    assert_eq!(
        query.build_to_string().unwrap(),
        "UPDATE users SET password = 'x', email = 'a@b.c'"
    );
}

#[test]
fn update_with_no_assignment_writes_none() {
    let query = QueryComponent {
        params: Some(vec![]),
        ..component(QueryAction::Update, "users")
    };
    assert_eq!(query.build_to_string().unwrap(), "UPDATE users SET ");
}

#[test]
fn update_has_no_where_clause() {
    let query = QueryComponent {
        params: Some(vec![("a".to_string(), "1".to_string())]),
        where_conditions: Some(vec![condition("id", &["5"], None, QueryOperator::Equal)]),
        field_names: strings(&["id"]),
        ..component(QueryAction::Update, "t")
    };
    assert_eq!(query.build_to_string().unwrap(), "UPDATE t SET a = '1'");
}

#[test]
fn values_are_inlined_without_escaping() {
    let query = QueryComponent {
        params: Some(vec![("name".to_string(), "O'Brien".to_string())]),
        ..component(QueryAction::Update, "people")
    };
    assert_eq!(query.build_to_string().unwrap(), "UPDATE people SET name = 'O'Brien'");
}

#[test]
fn in_list_quotes_each_member_in_order() {
    let chain = vec![condition("id", &["1", "2", "3"], None, QueryOperator::In)];
    let clause = build_where_condition(&chain).unwrap();
    assert_eq!(clause, " WHERE id IN ( '1','2','3' ) ");
    assert!(clause.contains("IN ( '1','2','3' )"));
}

#[test]
fn not_in_list() {
    let chain = vec![condition("id", &["9", "8"], None, QueryOperator::NotIn)];
    assert_eq!(build_where_condition(&chain).unwrap(), " WHERE id NOT IN ( '9','8' ) ");
}

#[test]
fn comparing_operators_quote_the_first_value() {
    let equal = vec![condition("a", &["x"], None, QueryOperator::Equal)];
    assert_eq!(build_where_condition(&equal).unwrap(), " WHERE a = 'x' ");
    let not_equal = vec![condition("a", &["x"], None, QueryOperator::NotEqual)];
    assert_eq!(build_where_condition(&not_equal).unwrap(), " WHERE a <> 'x' ");
}

#[test]
fn like_operators_match_anywhere() {
    let like = vec![condition("a", &["x"], None, QueryOperator::Like)];
    assert_eq!(build_where_condition(&like).unwrap(), " WHERE a LIKE '%x%' ");
    let not_like = vec![condition("a", &["x"], None, QueryOperator::NotLike)];
    assert_eq!(build_where_condition(&not_like).unwrap(), " WHERE a NOT LIKE '%x%' ");
}

#[test]
fn comparing_operators_read_no_value_but_the_first() {
    let chain = vec![
        condition("a", &["x", "y", "z"], None, QueryOperator::Equal),
        condition("b", &["p", "q"], Some(LogicOperator::Or), QueryOperator::NotLike),
    ];
    assert_eq!(build_where_condition(&chain).unwrap(), " WHERE a = 'x' OR b NOT LIKE '%p%' ");
}

#[test]
fn connector_stands_before_the_second_condition_only() {
    let chain = vec![
        condition("a", &["1"], None, QueryOperator::Equal),
        condition("b", &["2"], Some(LogicOperator::And), QueryOperator::Equal),
    ];
    let clause = build_where_condition(&chain).unwrap();
    assert_eq!(clause, " WHERE a = '1' AND b = '2' ");
    assert!(clause.starts_with(" WHERE a"));
    assert!(clause.contains("AND b = '2'"));
    assert_eq!(clause.matches("AND").count(), 1);
}

#[test]
fn chain_of_three_with_each_connector() {
    let chain = vec![
        condition("a", &["1"], None, QueryOperator::Equal),
        condition("b", &["2"], Some(LogicOperator::Or), QueryOperator::NotEqual),
        condition("c", &["3", "4"], Some(LogicOperator::Not), QueryOperator::In),
    ];
    assert_eq!(
        build_where_condition(&chain).unwrap(),
        " WHERE a = '1' OR b <> '2' NOT c IN ( '3','4' ) "
    );
}

#[test]
fn connector_on_the_first_condition_is_kept() {
    let chain = vec![condition("a", &["1"], Some(LogicOperator::And), QueryOperator::Equal)];
    assert_eq!(build_where_condition(&chain).unwrap(), " WHERE AND a = '1' ");
}

#[test]
fn chain_without_conditions_is_the_keyword() {
    let chain: Vec<WhereCondition> = vec![];
    assert_eq!(build_where_condition(&chain).unwrap(), " WHERE ");
}

#[test]
fn condition_without_a_value_is_refused() {
    let chain = vec![condition("a", &[], None, QueryOperator::Equal)];
    assert_eq!(build_where_condition(&chain), Err(ConstructionError::EmptyValueList));
    let set = vec![condition("a", &[], None, QueryOperator::In)];
    assert_eq!(build_where_condition(&set), Err(ConstructionError::EmptyValueList));
    let later = vec![
        condition("a", &["1"], None, QueryOperator::Equal),
        condition("b", &[], Some(LogicOperator::And), QueryOperator::Like),
    ];
    assert_eq!(build_where_condition(&later), Err(ConstructionError::EmptyValueList));
}

#[test]
fn statements_refuse_a_condition_without_a_value() {
    let select = QueryComponent {
        where_conditions: Some(vec![condition("a", &[], None, QueryOperator::Equal)]),
        ..component(QueryAction::Select, "t")
    };
    assert_eq!(select.build_to_string(), Err(ConstructionError::EmptyValueList));
    let delete = QueryComponent {
        where_conditions: Some(vec![condition("a", &[], None, QueryOperator::NotIn)]),
        ..component(QueryAction::Delete, "t")
    };
    assert_eq!(delete.build_to_string(), Err(ConstructionError::EmptyValueList));
}

#[test]
fn failure_of_a_nested_statement_is_kept() {
    let outer = QueryComponent {
        operated_in: Some(Box::new(component(QueryAction::Delete, "inner"))),
        ..component(QueryAction::Select, "outer")
    };
    let error = outer.build_to_string().unwrap_err();
    assert_eq!(
        error,
        ConstructionError::NestedCompilationFailed(Box::new(
            ConstructionError::MissingDeleteCondition
        ))
    );
    assert_eq!(error.root_cause(), &ConstructionError::MissingDeleteCondition);
    assert_eq!(error.message(), "Error when creating select query: Missing delete condition");
}

#[test]
fn failure_two_levels_down_is_wrapped_twice() {
    let middle = QueryComponent {
        operated_in: Some(Box::new(component(QueryAction::Update, "inner"))),
        ..component(QueryAction::Select, "middle")
    };
    let outer = QueryComponent {
        operated_in: Some(Box::new(middle)),
        ..component(QueryAction::Select, "outer")
    };
    let error = outer.build_to_string().unwrap_err();
    assert_eq!(
        error,
        ConstructionError::NestedCompilationFailed(Box::new(
            ConstructionError::NestedCompilationFailed(Box::new(
                ConstructionError::MissingUpdateParams
            ))
        ))
    );
    assert_eq!(error.root_cause(), &ConstructionError::MissingUpdateParams);
    assert_eq!(
        error.message(),
        "Error when creating select query: Error when creating select query: Missing update param"
    );
}

#[test]
fn nested_failure_comes_before_a_failure_of_the_chain() {
    let outer = QueryComponent {
        operated_in: Some(Box::new(component(QueryAction::Update, "inner"))),
        where_conditions: Some(vec![condition("a", &[], None, QueryOperator::Equal)]),
        ..component(QueryAction::Select, "outer")
    };
    assert_eq!(
        outer.build_to_string(),
        Err(ConstructionError::NestedCompilationFailed(Box::new(
            ConstructionError::MissingUpdateParams
        )))
    );
}

#[test]
fn messages_of_the_plain_failures() {
    assert_eq!(ConstructionError::MissingUpdateParams.message(), "Missing update param");
    assert_eq!(ConstructionError::MissingDeleteCondition.message(), "Missing delete condition");
    assert_eq!(
        ConstructionError::EmptyValueList.message(),
        "Empty value list in where condition"
    );
    assert_eq!(
        ConstructionError::EmptyValueList.root_cause(),
        &ConstructionError::EmptyValueList
    );
}

#[test]
fn literal_list_of_members() {
    assert_eq!(build_like_query(&strings(&["B"])), "( 'B' )");
    assert_eq!(build_like_query(&strings(&["1", "2", "3"])), "( '1','2','3' )");
    assert_eq!(build_like_query(&strings(&["", "a b"])), "( '','a b' )");
}

#[test]
fn literal_list_without_members() {
    assert_eq!(build_like_query(&[]), "( )");
}

#[test]
fn tokens_of_the_comparison_operators() {
    assert_eq!(QueryOperator::Equal.as_str(), "=");
    assert_eq!(QueryOperator::NotEqual.as_str(), "<>");
    assert_eq!(QueryOperator::In.as_str(), "IN");
    assert_eq!(QueryOperator::NotIn.as_str(), "NOT IN");
    assert_eq!(QueryOperator::Like.as_str(), "LIKE");
    assert_eq!(QueryOperator::NotLike.as_str(), "NOT LIKE");
}

#[test]
fn tokens_of_the_connectors() {
    assert_eq!(LogicOperator::Not.as_str(), "NOT");
    assert_eq!(LogicOperator::And.as_str(), "AND");
    assert_eq!(LogicOperator::Or.as_str(), "OR");
}

#[test]
fn tokens_of_the_actions() {
    assert_eq!(QueryAction::Select.as_str(), "SELECT");
    assert_eq!(QueryAction::Update.as_str(), "UPDATE");
    assert_eq!(QueryAction::Delete.as_str(), "DELETE");
}

#[test]
fn well_formed_trees_pass_the_check() {
    let inner = QueryComponent {
        where_conditions: Some(vec![condition("a", &["1"], None, QueryOperator::Equal)]),
        ..component(QueryAction::Select, "inner")
    };
    let outer = QueryComponent {
        operated_in: Some(Box::new(inner)),
        params: Some(vec![
            ("a".to_string(), "1".to_string()),
            ("b".to_string(), "1".to_string()),
        ]),
        where_conditions: Some(vec![]),
        ..component(QueryAction::Select, "outer")
    };
    assert!(outer.is_well_formed());
    assert!(component(QueryAction::Delete, "t").is_well_formed());
    assert!(condition("a", &["1"], None, QueryOperator::Equal).is_well_formed());
}

#[test]
fn column_assigned_twice_is_not_well_formed() {
    let query = QueryComponent {
        params: Some(vec![
            ("a".to_string(), "1".to_string()),
            ("b".to_string(), "2".to_string()),
            ("a".to_string(), "3".to_string()),
        ]),
        ..component(QueryAction::Update, "t")
    };
    assert!(!query.is_well_formed());
    assert_eq!(query.build_to_string().unwrap(), "UPDATE t SET a = '1', b = '2', a = '3'");
}

#[test]
fn condition_without_a_value_is_not_well_formed() {
    assert!(!condition("a", &[], None, QueryOperator::In).is_well_formed());
    let query = QueryComponent {
        where_conditions: Some(vec![
            condition("a", &["1"], None, QueryOperator::Equal),
            condition("b", &[], Some(LogicOperator::And), QueryOperator::Equal),
        ]),
        ..component(QueryAction::Select, "t")
    };
    assert!(!query.is_well_formed());
}

#[test]
fn flaw_in_a_nested_statement_is_found() {
    let inner = QueryComponent {
        where_conditions: Some(vec![condition("a", &[], None, QueryOperator::Equal)]),
        ..component(QueryAction::Select, "inner")
    };
    let outer = QueryComponent {
        operated_in: Some(Box::new(inner)),
        ..component(QueryAction::Delete, "outer")
    };
    assert!(!outer.is_well_formed());
}

#[test]
fn macro_result_holds_the_statement() {
    let query = QueryComponent {
        where_conditions: Some(vec![condition("id", &["5"], None, QueryOperator::Equal)]),
        ..component(QueryAction::Delete, "users")
    };
    assert_eq!(query.build_for_macro().unwrap(), "DELETE FROM users  WHERE id = '5' ");
}

#[test]
fn macro_error_carries_the_message() {
    let delete = component(QueryAction::Delete, "users");
    let error = delete.build_for_macro().unwrap_err();
    assert_eq!(error.to_string(), "Missing delete condition");
    let update = component(QueryAction::Update, "users");
    assert_eq!(update.build_for_macro().unwrap_err().to_string(), "Missing update param");
    let nested = QueryComponent {
        operated_in: Some(Box::new(component(QueryAction::Delete, "inner"))),
        ..component(QueryAction::Select, "outer")
    };
    assert_eq!(
        nested.build_for_macro().unwrap_err().to_string(),
        "Error when creating select query: Missing delete condition"
    );
}

#[test]
fn copy_of_a_tree_gives_the_same_text() {
    let inner = QueryComponent {
        field_names: strings(&["id", "email"]),
        where_conditions: Some(vec![
            condition("a", &["1", "2"], None, QueryOperator::In),
            condition("b", &["x"], Some(LogicOperator::Or), QueryOperator::Like),
        ]),
        ..component(QueryAction::Select, "users")
    };
    let outer = QueryComponent {
        operated_in: Some(Box::new(inner)),
        params: Some(vec![("k".to_string(), "v".to_string())]),
        ..component(QueryAction::Select, "unused")
    };
    let copy = outer.clone();
    assert_eq!(copy.params, Some(vec![("k".to_string(), "v".to_string())]));
    assert_eq!(copy.table_name, "unused");
    let text = outer.build_to_string().unwrap();
    assert_eq!(
        text,
        "SELECT *  FROM ( SELECT ( id,email ) FROM users WHERE a IN ( '1','2' ) OR b LIKE '%x%'  )"
    );
    assert_eq!(copy.build_to_string().unwrap(), text);
}

#[test]
fn copy_of_a_condition_and_of_a_failure() {
    let first = condition("a", &["1", "2"], Some(LogicOperator::Not), QueryOperator::NotIn);
    let copy = first.clone();
    assert_eq!(
        build_where_condition(&vec![copy]).unwrap(),
        build_where_condition(&vec![first]).unwrap()
    );
    let failure = ConstructionError::NestedCompilationFailed(Box::new(
        ConstructionError::EmptyValueList,
    ));
    assert_eq!(failure.clone(), failure);
}

struct Recorder {
    steps: Vec<String>,
}

impl QueryBuilder<u8> for Recorder {
    fn select_field(self, param: Vec<String>) {
        assert_eq!(param.len(), self.steps.len());
    }

    fn from(self, builder: Self) {
        assert_eq!(builder.steps, self.steps);
    }

    fn where_condition(self, param: Vec<WhereCondition>) {
        assert!(param.iter().all(|c| c.is_well_formed()));
    }

    fn update(self, param: Vec<(String, String)>) {
        assert!(param.is_empty());
    }

    fn delete(self) {
        assert!(self.steps.is_empty());
    }
}

#[test]
fn builder_steps_can_be_implemented() {
    Recorder { steps: strings(&["a"]) }.select_field(strings(&["id"]));
    Recorder { steps: vec![] }.from(Recorder { steps: vec![] });
    Recorder { steps: vec![] }
        .where_condition(vec![condition("a", &["1"], None, QueryOperator::Equal)]);
    Recorder { steps: vec![] }.update(vec![]);
    Recorder { steps: vec![] }.delete();
}
