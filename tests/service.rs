use tasks_service::handlers::{create_task, delete_task, get_tasks, update_task, Reply};
use tasks_service::json::{json_int, json_nullable_int, json_text, row_json, rows_json};
use tasks_service::statement::{
    create_statement, delete_statement, list_statement, update_statement, Outcome, Statement,
};
use tasks_service::table::TaskTable;
use tasks_service::task::{CreateTaskRequest, CreateTaskRow, DbError, TaskRow, UpdateTaskRequest};

fn create(table: &mut TaskTable, name: &str, priority: Option<i32>) -> Result<Reply, Reply> {
    let stmt = create_statement(CreateTaskRequest { name: name.to_string(), priority });
    let outcome = table.execute(stmt).map(|o| match o {
        Outcome::Created(row) => row,
        _ => panic!("an insert hands back the created id"),
    });
    create_task(outcome)
}

fn list(table: &mut TaskTable) -> Result<Reply, Reply> {
    let outcome = table.execute(list_statement()).map(|o| match o {
        Outcome::Rows(rows) => rows,
        _ => panic!("a select hands back rows"),
    });
    get_tasks(outcome)
}

fn update(table: &mut TaskTable, id: i32, name: Option<&str>, priority: Option<i32>) -> Result<Reply, Reply> {
    let req = UpdateTaskRequest { name: name.map(|n| n.to_string()), priority };
    let outcome = table.execute(update_statement(id, req)).map(|_| ());
    update_task(outcome)
}

fn delete(table: &mut TaskTable, id: i32) -> Result<Reply, Reply> {
    let outcome = table.execute(delete_statement(id)).map(|_| ());
    delete_task(outcome)
}

fn ok(body: &str) -> Result<Reply, Reply> {
    Ok((200, body.to_string()))
}

fn ids(table: &TaskTable) -> Vec<i32> {
    table.list().iter().map(|r| r.id).collect()
}

#[test]
fn create_list_update_delete_round() {
    let mut t = TaskTable::new();
    assert_eq!(create(&mut t, "write spec", Some(2)), ok("{\"success\":true,\"data\":{\"id\":1}}"));
    assert_eq!(
        list(&mut t),
        ok("{\"success\":true,\"data\":[{\"id\":1,\"name\":\"write spec\",\"priority\":2}]}")
    );
    assert_eq!(update(&mut t, 1, Some("write spec"), None), ok("{\"success\":true}"));
    assert_eq!(
        list(&mut t),
        ok("{\"success\":true,\"data\":[{\"id\":1,\"name\":\"write spec\",\"priority\":null}]}")
    );
    assert_eq!(delete(&mut t, 1), ok("{\"success\":true}"));
    assert_eq!(list(&mut t), ok("{\"success\":true,\"data\":[]}"));
}

#[test]
fn created_ids_are_unique_and_listed() {
    let mut t = TaskTable::new();
    assert_eq!(create(&mut t, "a", None), ok("{\"success\":true,\"data\":{\"id\":1}}"));
    assert_eq!(create(&mut t, "b", Some(5)), ok("{\"success\":true,\"data\":{\"id\":2}}"));
    assert_eq!(ids(&t), vec![1, 2]);
    delete(&mut t, 2).unwrap();
    // a deleted id is not handed out again
    assert_eq!(create(&mut t, "c", None), ok("{\"success\":true,\"data\":{\"id\":3}}"));
    assert_eq!(ids(&t), vec![1, 3]);
}

#[test]
fn list_is_in_ascending_id_order() {
    let mut t = TaskTable::new();
    for name in ["x", "y", "z", "w"] {
        create(&mut t, name, None).unwrap();
    }
    delete(&mut t, 2).unwrap();
    update(&mut t, 1, Some("x2"), Some(9)).unwrap();
    create(&mut t, "v", Some(-1)).unwrap();
    assert_eq!(ids(&t), vec![1, 3, 4, 5]);
    assert_eq!(
        list(&mut t),
        ok("{\"success\":true,\"data\":[\
            {\"id\":1,\"name\":\"x2\",\"priority\":9},\
            {\"id\":3,\"name\":\"z\",\"priority\":null},\
            {\"id\":4,\"name\":\"w\",\"priority\":null},\
            {\"id\":5,\"name\":\"v\",\"priority\":-1}]}")
    );
}

#[test]
fn update_of_missing_id_succeeds() {
    let mut t = TaskTable::new();
    create(&mut t, "a", Some(1)).unwrap();
    assert_eq!(update(&mut t, 42, Some("b"), Some(3)), ok("{\"success\":true}"));
    assert_eq!(update(&mut t, 42, None, None), ok("{\"success\":true}"));
    assert_eq!(
        list(&mut t),
        ok("{\"success\":true,\"data\":[{\"id\":1,\"name\":\"a\",\"priority\":1}]}")
    );
}

#[test]
fn update_without_priority_writes_null() {
    let mut t = TaskTable::new();
    create(&mut t, "a", Some(7)).unwrap();
    create(&mut t, "b", Some(8)).unwrap();
    update(&mut t, 2, Some("b"), None).unwrap();
    let rows = t.list();
    assert_eq!(rows[0].priority, Some(7));
    assert_eq!(rows[1].priority, None);
    assert_eq!(rows[1].name, "b");
}

#[test]
fn update_with_null_name_breaks_not_null_constraint() {
    let mut t = TaskTable::new();
    create(&mut t, "a", Some(7)).unwrap();
    let r = update(&mut t, 1, None, Some(1));
    assert_eq!(
        r,
        Err((
            500,
            "{\"success\":false,\"message\":\"null value in column \\\"name\\\" of relation \\\"tasks\\\" violates not-null constraint\"}"
                .to_string()
        ))
    );
    assert_eq!(
        list(&mut t),
        ok("{\"success\":true,\"data\":[{\"id\":1,\"name\":\"a\",\"priority\":7}]}")
    );
}

#[test]
fn delete_of_missing_id_succeeds() {
    let mut t = TaskTable::new();
    create(&mut t, "a", None).unwrap();
    assert_eq!(delete(&mut t, 5), ok("{\"success\":true}"));
    assert_eq!(ids(&t), vec![1]);
    let mut empty = TaskTable::new();
    assert_eq!(delete(&mut empty, 1), ok("{\"success\":true}"));
}

#[test]
fn deleted_id_leaves_the_list() {
    let mut t = TaskTable::new();
    create(&mut t, "a", None).unwrap();
    create(&mut t, "b", None).unwrap();
    create(&mut t, "c", None).unwrap();
    delete(&mut t, 2).unwrap();
    assert_eq!(ids(&t), vec![1, 3]);
    assert!(!t.contains(2));
    assert!(t.contains(3));
}

#[test]
fn database_errors_answer_internal_server_error() {
    let err = || DbError { message: "pool timed out while waiting for an open connection".to_string() };
    let expected: Result<Reply, Reply> = Err((
        500,
        "{\"success\":false,\"message\":\"pool timed out while waiting for an open connection\"}".to_string(),
    ));
    assert_eq!(get_tasks(Err(err())), expected);
    assert_eq!(create_task(Err(err())), expected);
    assert_eq!(update_task(Err(err())), expected);
    assert_eq!(delete_task(Err(err())), expected);
    // the next request is answered as usual
    assert_eq!(create_task(Ok(CreateTaskRow { id: 3 })), ok("{\"success\":true,\"data\":{\"id\":3}}"));
}

#[test]
fn error_message_is_escaped() {
    let r = get_tasks(Err(DbError { message: "bad \"quote\"\nline".to_string() }));
    assert_eq!(r, Err((500, "{\"success\":false,\"message\":\"bad \\\"quote\\\"\\nline\"}".to_string())));
}

#[test]
fn scalars_encode_as_json() {
    assert_eq!(json_text("write spec"), "\"write spec\"");
    assert_eq!(json_text("a\\b\t"), "\"a\\\\b\\t\"");
    assert_eq!(json_int(0), "0");
    assert_eq!(json_int(-42), "-42");
    assert_eq!(json_int(i32::MAX), "2147483647");
    assert_eq!(json_int(i32::MIN), "-2147483648");
    assert_eq!(json_nullable_int(None), "null");
    assert_eq!(json_nullable_int(Some(12)), "12");
}

#[test]
fn rows_encode_as_json() {
    let rows = vec![
        TaskRow { id: 1, name: "a".to_string(), priority: None },
        TaskRow { id: 10, name: "\"b\"".to_string(), priority: Some(-3) },
    ];
    assert_eq!(row_json(&rows[0]), "{\"id\":1,\"name\":\"a\",\"priority\":null}");
    assert_eq!(
        rows_json(&rows),
        "[{\"id\":1,\"name\":\"a\",\"priority\":null},{\"id\":10,\"name\":\"\\\"b\\\"\",\"priority\":-3}]"
    );
    assert_eq!(rows_json(&Vec::new()), "[]");
    assert_eq!(
        get_tasks(Ok(rows)),
        ok("{\"success\":true,\"data\":[{\"id\":1,\"name\":\"a\",\"priority\":null},{\"id\":10,\"name\":\"\\\"b\\\"\",\"priority\":-3}]}")
    );
}

#[test]
fn statements_carry_their_sql() {
    assert_eq!(list_statement().sql(), "SELECT * FROM tasks ORDER BY id");
    let ins = create_statement(CreateTaskRequest { name: "n".to_string(), priority: Some(1) });
    assert_eq!(ins.sql(), "INSERT INTO tasks (name, priority) VALUES ($1, $2) RETURNING id");
    assert!(matches!(ins, Statement::Insert { ref name, priority: Some(1) } if name == "n"));
    let upd = update_statement(4, UpdateTaskRequest { name: None, priority: None });
    assert_eq!(upd.sql(), "UPDATE tasks SET name = $2, priority = $3 WHERE id = $1");
    assert!(matches!(upd, Statement::Update { id: 4, name: None, priority: None }));
    let del = delete_statement(4);
    assert_eq!(del.sql(), "DELETE FROM tasks WHERE id = $1");
    assert!(matches!(del, Statement::Delete { id: 4 }));
}
