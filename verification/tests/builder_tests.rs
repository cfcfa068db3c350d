use query_wrapper::{Page, QueryWrapper};

#[test]
fn render_no_conditions() {
    let sql = QueryWrapper::new().build_sql("t");
    assert_eq!(sql, "SELECT * FROM t");
}

#[test]
fn render_selected_columns() {
    let sql = QueryWrapper::new().select(vec!["a", "b"]).build_sql("t");
    assert_eq!(sql, "SELECT a, b FROM t");
}

#[test]
fn render_single_column() {
    let sql = QueryWrapper::new().select(vec!["a"]).build_sql("t");
    assert_eq!(sql, "SELECT a FROM t");
}

#[test]
fn predicates_in_call_order() {
    let sql = QueryWrapper::new()
        .eq("a", 1)
        .ne("b", 2)
        .gt("c", 3)
        .lt("d", 4)
        .like("e", "x")
        .build_sql("t");
    assert_eq!(
        sql,
        "SELECT * FROM t WHERE a = '1' AND b != '2' AND c > '3' AND d < '4' AND e LIKE '%x%'"
    );
}

#[test]
fn string_and_numeric_values_quoted_alike() {
    let by_number = QueryWrapper::new().eq("id", 7).build_sql("t");
    let by_text = QueryWrapper::new().eq("id", "7").build_sql("t");
    assert_eq!(by_number, by_text);
    assert_eq!(by_number, "SELECT * FROM t WHERE id = '7'");
}

#[test]
fn render_order_by_multi_key() {
    let sql = QueryWrapper::new()
        .order_by("x", true)
        .order_by("y", false)
        .build_sql("t");
    assert!(sql.ends_with(" ORDER BY x ASC, y DESC"));
    assert_eq!(sql, "SELECT * FROM t ORDER BY x ASC, y DESC");
}

#[test]
fn render_limit_before_offset() {
    let mut wrapper = QueryWrapper::new();
    wrapper.limit(10);
    wrapper.offset(5);
    let sql = wrapper.build_sql("t");
    assert!(sql.ends_with(" LIMIT 10 OFFSET 5"));
    assert_eq!(sql, "SELECT * FROM t LIMIT 10 OFFSET 5");
}

#[test]
fn limit_last_call_wins() {
    let mut wrapper = QueryWrapper::new();
    wrapper.limit(1);
    wrapper.limit(5);
    let sql = wrapper.build_sql("t");
    assert_eq!(sql, "SELECT * FROM t LIMIT 5");
}

#[test]
fn limit_zero_and_largest() {
    let mut wrapper = QueryWrapper::new();
    wrapper.limit(0);
    assert_eq!(wrapper.build_sql("t"), "SELECT * FROM t LIMIT 0");
    let mut wrapper = QueryWrapper::new();
    wrapper.limit(u64::MAX);
    assert_eq!(
        wrapper.build_sql("t"),
        "SELECT * FROM t LIMIT 18446744073709551615"
    );
}

#[test]
fn render_joins_in_call_order() {
    let sql = QueryWrapper::new()
        .inner_join("u", "t.id = u.t_id")
        .left_join("v", "t.id = v.t_id")
        .right_join("w", "t.id = w.t_id")
        .build_sql("t");
    assert_eq!(
        sql,
        "SELECT * FROM t INNER JOIN u ON t.id = u.t_id \
         LEFT JOIN v ON t.id = v.t_id RIGHT JOIN w ON t.id = w.t_id"
    );
}

#[test]
fn custom_sql_appends_where_when_keyword_absent() {
    let sql = QueryWrapper::new()
        .custom_sql("SELECT * FROM t")
        .eq("id", 1)
        .build_sql("t");
    assert_eq!(sql, "SELECT * FROM t WHERE id = '1'");
}

#[test]
fn custom_sql_appends_and_when_keyword_present() {
    let sql = QueryWrapper::new()
        .custom_sql("SELECT * FROM t WHERE x=1")
        .eq("id", 1)
        .build_sql("t");
    assert_eq!(sql, "SELECT * FROM t WHERE x=1 AND id = '1'");
}

#[test]
fn custom_sql_keyword_check_ignores_case() {
    let sql = QueryWrapper::new()
        .custom_sql("select * from t where x=1")
        .eq("id", 1)
        .build_sql("t");
    assert_eq!(sql, "select * from t where x=1 AND id = '1'");
}

#[test]
fn custom_sql_keyword_check_is_textual() {
    // The heuristic looks for the bare letters, not for a WHERE clause:
    // a table name containing them already counts as one.
    let sql = QueryWrapper::new()
        .custom_sql("SELECT * FROM whereabouts")
        .eq("id", 1)
        .build_sql("t");
    assert_eq!(sql, "SELECT * FROM whereabouts AND id = '1'");
}

#[test]
fn custom_sql_keeps_tail_clauses() {
    let mut wrapper = QueryWrapper::new()
        .custom_sql("SELECT * FROM t")
        .order_by("x", true);
    wrapper.limit(3);
    wrapper.offset(6);
    let sql = wrapper.build_sql("ignored");
    assert_eq!(sql, "SELECT * FROM t ORDER BY x ASC LIMIT 3 OFFSET 6");
}

#[test]
fn count_sql_never_has_order_limit_offset() {
    let mut wrapper = QueryWrapper::new()
        .select(vec!["a"])
        .eq("id", 7)
        .order_by("x", true);
    wrapper.limit(10);
    wrapper.offset(5);
    let sql = wrapper.build_count_sql("t");
    assert_eq!(sql, "SELECT COUNT(*) FROM t WHERE id = '7'");
    assert!(!sql.contains("ORDER BY"));
    assert!(!sql.contains("LIMIT"));
    assert!(!sql.contains("OFFSET"));
}

#[test]
fn count_sql_with_joins() {
    let sql = QueryWrapper::new()
        .inner_join("u", "t.id = u.t_id")
        .eq("u.x", 1)
        .build_count_sql("t");
    assert_eq!(
        sql,
        "SELECT COUNT(*) FROM t INNER JOIN u ON t.id = u.t_id WHERE u.x = '1'"
    );
}

#[test]
fn count_sql_wraps_custom_body() {
    let mut wrapper = QueryWrapper::new().custom_sql("select * from m").order_by("x", false);
    wrapper.limit(2);
    let sql = wrapper.build_count_sql("t");
    assert_eq!(sql, "SELECT COUNT(*) FROM (select * from m) as t");
}

#[test]
fn count_sql_merges_predicates_into_custom_body() {
    let sql = QueryWrapper::new()
        .custom_sql("select * from m where a=1")
        .eq("b", 2)
        .build_count_sql("t");
    assert_eq!(sql, "SELECT COUNT(*) FROM (select * from m where a=1 AND b = '2') as t");
}

#[test]
fn delete_sql_uses_custom_body_and_clauses() {
    let sql = QueryWrapper::new().eq("id", 1).build_delete_sql("t");
    assert_eq!(sql, "delete from t WHERE id = '1'");
}

#[test]
fn delete_sql_keeps_tail_clauses() {
    // The general renderer appends ORDER BY and the window even to a
    // delete body; the odd SQL is deliberate.
    let mut wrapper = QueryWrapper::new().eq("id", 1).order_by("x", true);
    wrapper.limit(2);
    let sql = wrapper.build_delete_sql("t");
    assert_eq!(sql, "delete from t WHERE id = '1' ORDER BY x ASC LIMIT 2");
}

#[test]
fn page_new_derives_pages_and_has_next() {
    let page = Page::new(vec![1, 2], 25, 2, 10);
    assert_eq!(page.pages, 3);
    assert!(page.has_next);
    assert_eq!(page.total, 25);
    assert_eq!(page.page_no, 2);
    assert_eq!(page.page_size, 10);
    assert_eq!(page.records, vec![1, 2]);

    let empty: Page<i32> = Page::new(Vec::new(), 0, 1, 10);
    assert_eq!(empty.pages, 0);
    assert!(!empty.has_next);
}

#[test]
fn page_new_exact_fit_has_no_next() {
    let page: Page<i32> = Page::new(Vec::new(), 30, 3, 10);
    assert_eq!(page.pages, 3);
    assert!(!page.has_next);
}

#[test]
fn plan_page_skips_data_query_when_empty() {
    let wrapper = QueryWrapper::new().eq("id", 1);
    assert!(wrapper.plan_page(1, 10, 0).is_none());
}

#[test]
fn plan_page_computes_offset() {
    let wrapper = QueryWrapper::new();
    let windowed = wrapper.plan_page(3, 20, 100).unwrap();
    let sql = windowed.build_sql("t");
    assert!(sql.ends_with(" LIMIT 20 OFFSET 40"));
    assert_eq!(sql, "SELECT * FROM t LIMIT 20 OFFSET 40");
}

#[test]
fn plan_page_overrides_caller_window() {
    let mut wrapper = QueryWrapper::new();
    wrapper.limit(999);
    wrapper.offset(999);
    let windowed = wrapper.plan_page(2, 5, 11).unwrap();
    assert_eq!(windowed.build_sql("t"), "SELECT * FROM t LIMIT 5 OFFSET 5");
}

#[test]
fn plan_page_leaves_original_untouched() {
    let wrapper = QueryWrapper::new().eq("id", 1);
    let _ = wrapper.plan_page(2, 10, 50).unwrap();
    assert_eq!(wrapper.build_sql("t"), "SELECT * FROM t WHERE id = '1'");
}
