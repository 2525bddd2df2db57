use saas_backend::task_query::{build_list_tasks_query, SqlParam, TaskQuery};

const BASE: &str = "
                SELECT
                    id, tenant_id, project_id, parent_task_id,
                    title, description, status, priority,
                    metadata, version, created_at, updated_at
                FROM tasks
                WHERE 1=1
                ";

fn none() -> TaskQuery {
    TaskQuery { project_id: None, search: None, status: None, label: None }
}

#[test]
fn no_filters() {
    let q = build_list_tasks_query(none());
    assert_eq!(q.sql, format!("{} ORDER BY created_at DESC", BASE));
    assert!(q.params.is_empty());
}

#[test]
fn all_filters_numbered_in_order() {
    let q = build_list_tasks_query(TaskQuery {
        project_id: Some(42),
        search: Some("deploy".to_string()),
        status: Some("todo".to_string()),
        label: Some("urgent".to_string()),
    });
    assert_eq!(
        q.sql,
        format!(
            "{} AND project_id = $1 AND search_vector @@ plainto_tsquery('english', $2) AND status = $3 AND metadata @> $4 ORDER BY created_at DESC",
            BASE
        )
    );
    assert_eq!(
        q.params,
        vec![
            SqlParam::Id(42),
            SqlParam::Text("deploy".to_string()),
            SqlParam::Text("todo".to_string()),
            SqlParam::LabelsContaining("urgent".to_string()),
        ]
    );
}

#[test]
fn skipped_filters_do_not_leave_gaps() {
    let q = build_list_tasks_query(TaskQuery {
        project_id: None,
        search: None,
        status: Some("done".to_string()),
        label: Some("bug".to_string()),
    });
    assert_eq!(
        q.sql,
        format!("{} AND status = $1 AND metadata @> $2 ORDER BY created_at DESC", BASE)
    );
    assert_eq!(
        q.params,
        vec![SqlParam::Text("done".to_string()), SqlParam::LabelsContaining("bug".to_string())]
    );
}

#[test]
fn search_only() {
    let q = build_list_tasks_query(TaskQuery { search: Some("a b".to_string()), ..none() });
    assert_eq!(
        q.sql,
        format!(
            "{} AND search_vector @@ plainto_tsquery('english', $1) ORDER BY created_at DESC",
            BASE
        )
    );
    assert_eq!(q.params, vec![SqlParam::Text("a b".to_string())]);
}

#[test]
fn every_placeholder_has_a_value() {
    for mask in 0u8..16 {
        let q = build_list_tasks_query(TaskQuery {
            project_id: if mask & 1 != 0 { Some(1) } else { None },
            search: if mask & 2 != 0 { Some("s".to_string()) } else { None },
            status: if mask & 4 != 0 { Some("t".to_string()) } else { None },
            label: if mask & 8 != 0 { Some("l".to_string()) } else { None },
        });
        let n = q.params.len();
        assert_eq!(n, mask.count_ones() as usize);
        assert_eq!(q.sql.matches('$').count(), n);
        for k in 1..=n {
            assert!(q.sql.contains(&format!("${}", k)));
        }
    }
}
