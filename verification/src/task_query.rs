//! The task search: a query text built from the filters the caller gave,
//! and the values bound to its numbered placeholders.

use vstd::prelude::*;
use vstd::string::*;

verus! {

/// The filters of a task search; each one that is given narrows the result.
#[derive(Debug, Clone)]
pub struct TaskQuery {
    /// Only tasks of this project.
    pub project_id: Option<u128>,
    /// Only tasks whose title or description match this full-text search.
    pub search: Option<String>,
    /// Only tasks in this status.
    pub status: Option<String>,
    /// Only tasks whose metadata lists this label.
    pub label: Option<String>,
}

/// A value bound to a placeholder of the query.
#[derive(Debug, Clone, PartialEq, Eq)]
pub enum SqlParam {
    /// An identifier.
    Id(u128),
    /// A text value.
    Text(String),
    /// The JSON document `{"labels": [label]}`, against which the task's
    /// metadata is tested for containment.
    LabelsContaining(String),
}

/// The mathematical form of a bound value.
pub enum SqlParamSpec {
    Id(u128),
    Text(Seq<char>),
    LabelsContaining(Seq<char>),
}

impl View for SqlParam {
    type V = SqlParamSpec;

    open spec fn view(&self) -> SqlParamSpec {
        match self {
            SqlParam::Id(id) => SqlParamSpec::Id(*id),
            SqlParam::Text(t) => SqlParamSpec::Text(t@),
            SqlParam::LabelsContaining(l) => SqlParamSpec::LabelsContaining(l@),
        }
    }
}

/// A query text with the values for its placeholders `$1`, `$2`, ... in order.
#[derive(Debug, Clone)]
pub struct TaskListQuery {
    pub sql: String,
    pub params: Vec<SqlParam>,
}

/// The view of a list of bound values.
pub open spec fn params_view(p: Seq<SqlParam>) -> Seq<SqlParamSpec> {
    p.map_values(|x: SqlParam| x@)
}

/// The columns read and the table searched; every filter is appended to it.
pub open spec fn base_sql() -> Seq<char> {
    "
                SELECT
                    id, tenant_id, project_id, parent_task_id,
                    title, description, status, priority,
                    metadata, version, created_at, updated_at
                FROM tasks
                WHERE 1=1
                "@
}

/// The ordering that closes the query: newest first.
pub open spec fn order_sql() -> Seq<char> {
    " ORDER BY created_at DESC"@
}

/// The decimal text of a placeholder number from 1 to 4.
pub open spec fn number_text(n: int) -> Seq<char> {
    if n == 1 {
        "1"@
    } else if n == 2 {
        "2"@
    } else if n == 3 {
        "3"@
    } else {
        "4"@
    }
}

pub open spec fn project_sql(n: int) -> Seq<char> {
    " AND project_id = $"@ + number_text(n)
}

pub open spec fn search_sql(n: int) -> Seq<char> {
    " AND search_vector @@ plainto_tsquery('english', $"@ + number_text(n) + ")"@
}

pub open spec fn status_sql(n: int) -> Seq<char> {
    " AND status = $"@ + number_text(n)
}

pub open spec fn label_sql(n: int) -> Seq<char> {
    " AND metadata @> $"@ + number_text(n)
}

/// `1` if the filter is given, `0` otherwise.
pub open spec fn count(given: bool) -> int {
    if given {
        1
    } else {
        0
    }
}

/// The text of the search query for the filters that are given, in the
/// order project, search, status, label, numbered from `$1` on.
pub open spec fn list_tasks_sql(project: bool, search: bool, status: bool, label: bool) -> Seq<char> {
    let n_search = 1 + count(project);
    let n_status = n_search + count(search);
    let n_label = n_status + count(status);
    base_sql()
        + (if project { project_sql(1) } else { seq![] })
        + (if search { search_sql(n_search) } else { seq![] })
        + (if status { status_sql(n_status) } else { seq![] })
        + (if label { label_sql(n_label) } else { seq![] })
        + order_sql()
}

/// The value bound for a filter, if it is given.
pub open spec fn opt_param<T>(o: Option<T>, f: spec_fn(T) -> SqlParamSpec) -> Seq<SqlParamSpec> {
    match o {
        Some(v) => seq![f(v)],
        None => seq![],
    }
}

/// The values bound to the search query, in placeholder order.
pub open spec fn list_tasks_params(q: TaskQuery) -> Seq<SqlParamSpec> {
    opt_param(q.project_id, |id: u128| SqlParamSpec::Id(id))
        + opt_param(q.search, |s: String| SqlParamSpec::Text(s@))
        + opt_param(q.status, |s: String| SqlParamSpec::Text(s@))
        + opt_param(q.label, |s: String| SqlParamSpec::LabelsContaining(s@))
}

/// The text of a placeholder number from 1 to 4.
fn number_string(n: u64) -> (s: String)
    requires
        1 <= n <= 4,
    ensures
        s@ == number_text(n as int),
{
    if n == 1 {
        String::from_str("1")
    } else if n == 2 {
        String::from_str("2")
    } else if n == 3 {
        String::from_str("3")
    } else {
        String::from_str("4")
    }
}

/// Appends a condition `head` followed by the placeholder number `n`.
fn push_condition(sql: &mut String, head: &str, n: u64)
    requires
        1 <= n <= 4,
    ensures
        final(sql)@ == old(sql)@ + head@ + number_text(n as int),
{
    sql.append(head);
    let t = number_string(n);
    sql.append(t.as_str());
}

/// Appends a bound value; the view of the list grows by its view.
fn push_param(params: &mut Vec<SqlParam>, p: SqlParam)
    ensures
        params_view(final(params)@) == params_view(old(params)@).push(p@),
{
    params.push(p);
    assert(params_view(params@) =~= params_view(old(params)@).push(p@));
}

/// Builds the search over a tenant's tasks: one condition per given filter,
/// each with its own numbered placeholder, and the values to bind, in the
/// order of the placeholders.
pub fn build_list_tasks_query(q: TaskQuery) -> (r: TaskListQuery)
    ensures
        r.sql@ == list_tasks_sql(q.project_id is Some, q.search is Some, q.status is Some, q.label is Some),
        params_view(r.params@) == list_tasks_params(q),
{
    let ghost q0 = q;
    let ghost n_search = 1 + count(q0.project_id is Some);
    let ghost n_status = n_search + count(q0.search is Some);
    let ghost n_label = n_status + count(q0.status is Some);
    let mut sql = String::from_str("
                SELECT
                    id, tenant_id, project_id, parent_task_id,
                    title, description, status, priority,
                    metadata, version, created_at, updated_at
                FROM tasks
                WHERE 1=1
                ");
    let mut params: Vec<SqlParam> = Vec::new();
    let mut i: u64 = 1;
    let ghost s0 = sql@;
    let ghost p0 = params_view(params@);
    assert(p0 =~= seq![]);

    if let Some(pid) = q.project_id {
        push_condition(&mut sql, " AND project_id = $", i);
        push_param(&mut params, SqlParam::Id(pid));
        i = i + 1;
    }
    let ghost s1 = sql@;
    let ghost p1 = params_view(params@);
    assert(s1 == s0 + (if q0.project_id is Some { project_sql(1) } else { seq![] })) by {
        if q0.project_id is None { assert(s1 =~= s0 + seq![]); } else { assert(s1 =~= s0 + project_sql(1)); }
    }
    assert(p1 =~= opt_param(q0.project_id, |id: u128| SqlParamSpec::Id(id)));

    if let Some(text) = q.search {
        push_condition(&mut sql, " AND search_vector @@ plainto_tsquery('english', $", i);
        sql.append(")");
        push_param(&mut params, SqlParam::Text(text));
        i = i + 1;
    }
    let ghost s2 = sql@;
    let ghost p2 = params_view(params@);
    assert(s2 == s1 + (if q0.search is Some { search_sql(n_search) } else { seq![] })) by {
        if q0.search is None { assert(s2 =~= s1 + seq![]); } else { assert(s2 =~= s1 + search_sql(n_search)); }
    }
    assert(p2 =~= p1 + opt_param(q0.search, |t: String| SqlParamSpec::Text(t@)));

    if let Some(st) = q.status {
        push_condition(&mut sql, " AND status = $", i);
        push_param(&mut params, SqlParam::Text(st));
        i = i + 1;
    }
    let ghost s3 = sql@;
    let ghost p3 = params_view(params@);
    assert(s3 == s2 + (if q0.status is Some { status_sql(n_status) } else { seq![] })) by {
        if q0.status is None { assert(s3 =~= s2 + seq![]); } else { assert(s3 =~= s2 + status_sql(n_status)); }
    }
    assert(p3 =~= p2 + opt_param(q0.status, |t: String| SqlParamSpec::Text(t@)));

    if let Some(l) = q.label {
        push_condition(&mut sql, " AND metadata @> $", i);
        push_param(&mut params, SqlParam::LabelsContaining(l));
    }
    let ghost s4 = sql@;
    let ghost p4 = params_view(params@);
    assert(s4 == s3 + (if q0.label is Some { label_sql(n_label) } else { seq![] })) by {
        if q0.label is None { assert(s4 =~= s3 + seq![]); } else { assert(s4 =~= s3 + label_sql(n_label)); }
    }
    assert(p4 =~= p3 + opt_param(q0.label, |t: String| SqlParamSpec::LabelsContaining(t@)));

    sql.append(" ORDER BY created_at DESC");
    assert(sql@ == s4 + order_sql());
    TaskListQuery { sql, params }
}

// ---------------------------------------------------------------------------
// Every placeholder of the query is bound, in order.

/// Whether `c` is a decimal digit.
pub open spec fn is_digit(c: char) -> bool {
    '0' <= c && c <= '9'
}

/// The numbers of the one-digit placeholders `$d` of a query text, in the
/// order they appear.
pub open spec fn placeholder_numbers(s: Seq<char>) -> Seq<int>
    decreases s.len(),
{
    if s.len() == 0 {
        seq![]
    } else if s[0] == '$' && s.len() > 1 && is_digit(s[1]) {
        seq![s[1] as int - 48] + placeholder_numbers(s.drop_first())
    } else {
        placeholder_numbers(s.drop_first())
    }
}

/// Whether a text holds no `$` at all.
pub open spec fn no_dollar(s: Seq<char>) -> bool {
    forall|i: int| 0 <= i < s.len() ==> s[i] != '$'
}

proof fn lemma_no_dollar_no_placeholders(s: Seq<char>)
    requires
        no_dollar(s),
    ensures
        placeholder_numbers(s) == Seq::<int>::empty(),
    decreases s.len(),
{
    if s.len() > 0 {
        assert(s[0] != '$');
        lemma_no_dollar_no_placeholders(s.drop_first());
    }
}

/// Placeholders of a concatenation, when the first part does not end in `$`.
proof fn lemma_placeholders_concat(a: Seq<char>, b: Seq<char>)
    requires
        a.len() == 0 || a.last() != '$',
    ensures
        placeholder_numbers(a + b) == placeholder_numbers(a) + placeholder_numbers(b),
    decreases a.len(),
{
    if a.len() == 0 {
        assert(a + b =~= b);
        assert(placeholder_numbers(a) + placeholder_numbers(b) =~= placeholder_numbers(b));
    } else {
        assert((a + b).drop_first() =~= a.drop_first() + b);
        if a.len() > 1 {
            assert(a.drop_first().last() == a.last());
            assert((a + b)[1] == a[1]);
        }
        lemma_placeholders_concat(a.drop_first(), b);
        if a[0] == '$' && a.len() > 1 && is_digit(a[1]) {
            assert(placeholder_numbers(a + b) =~= seq![a[1] as int - 48] + placeholder_numbers(a.drop_first() + b));
        }
    }
}

/// A text with exactly one `$`, followed by a digit, holds exactly that placeholder.
proof fn lemma_single_placeholder(s: Seq<char>, k: int)
    requires
        0 <= k,
        k + 1 < s.len(),
        s[k] == '$',
        is_digit(s[k + 1]),
        forall|i: int| 0 <= i < s.len() && i != k ==> s[i] != '$',
    ensures
        placeholder_numbers(s) == seq![s[k + 1] as int - 48],
{
    let pre = s.subrange(0, k);
    let rest = s.subrange(k, s.len() as int);
    assert(s =~= pre + rest);
    lemma_no_dollar_no_placeholders(pre);
    if k > 0 {
        assert(pre.last() == s[k - 1]);
    }
    lemma_placeholders_concat(pre, rest);
    assert(rest[0] == '$' && rest[1] == s[k + 1]);
    let tail = rest.drop_first();
    assert forall|i: int| 0 <= i < tail.len() implies tail[i] != '$' by {
        assert(tail[i] == s[k + 1 + i]);
    }
    lemma_no_dollar_no_placeholders(tail);
    assert(placeholder_numbers(rest) =~= seq![s[k + 1] as int - 48]);
    assert(placeholder_numbers(pre) + placeholder_numbers(rest) =~= placeholder_numbers(rest));
}

proof fn lemma_number_text(n: int)
    requires
        1 <= n <= 4,
    ensures
        number_text(n).len() == 1,
        is_digit(number_text(n)[0]),
        number_text(n)[0] as int - 48 == n,
{
    reveal_strlit("1");
    reveal_strlit("2");
    reveal_strlit("3");
    reveal_strlit("4");
}

proof fn lemma_fixed_parts()
    ensures
        no_dollar(base_sql()),
        no_dollar(order_sql()),
        base_sql().len() > 0 && base_sql().last() != '$',
{
    reveal_strlit("
                SELECT
                    id, tenant_id, project_id, parent_task_id,
                    title, description, status, priority,
                    metadata, version, created_at, updated_at
                FROM tasks
                WHERE 1=1
                ");
    reveal_strlit(" ORDER BY created_at DESC");
}

/// The placeholders of each condition: exactly its own number.
proof fn lemma_conditions(n: int)
    requires
        1 <= n <= 4,
    ensures
        placeholder_numbers(project_sql(n)) == seq![n],
        placeholder_numbers(search_sql(n)) == seq![n],
        placeholder_numbers(status_sql(n)) == seq![n],
        placeholder_numbers(label_sql(n)) == seq![n],
        project_sql(n).last() != '$',
        search_sql(n).last() != '$',
        status_sql(n).last() != '$',
        label_sql(n).last() != '$',
{
    lemma_number_text(n);
    reveal_strlit(" AND project_id = $");
    reveal_strlit(" AND search_vector @@ plainto_tsquery('english', $");
    reveal_strlit(")");
    reveal_strlit(" AND status = $");
    reveal_strlit(" AND metadata @> $");
    let d = number_text(n)[0];
    assert(d != '$');
    let p = project_sql(n);
    assert(p.len() == 20);
    lemma_single_placeholder(p, 18);
    let s = search_sql(n);
    assert(s.len() == 52);
    lemma_single_placeholder(s, 49);
    let t = status_sql(n);
    assert(t.len() == 16);
    lemma_single_placeholder(t, 14);
    let l = label_sql(n);
    assert(l.len() == 19);
    lemma_single_placeholder(l, 17);
}

/// An optional condition appended to a text that does not end in `$`.
proof fn lemma_optional_condition(acc: Seq<char>, given: bool, cond: Seq<char>, n: int)
    requires
        acc.len() > 0 && acc.last() != '$',
        cond.len() > 0 && cond.last() != '$',
        placeholder_numbers(cond) == seq![n],
    ensures
        placeholder_numbers(acc + (if given { cond } else { seq![] })) == placeholder_numbers(acc) + (if given { seq![n] } else { seq![] }),
        (acc + (if given { cond } else { seq![] })).len() > 0,
        (acc + (if given { cond } else { seq![] })).last() != '$',
{
    if given {
        lemma_placeholders_concat(acc, cond);
    } else {
        assert(acc + seq![] =~= acc);
        assert(placeholder_numbers(acc) + seq![] =~= placeholder_numbers(acc));
    }
}

/// Every placeholder of the search query is bound: its placeholders are
/// `$1`, `$2`, ... up to the number of bound values, each once and in order.
pub proof fn lemma_placeholders_match_params(q: TaskQuery)
    ensures
        placeholder_numbers(
            list_tasks_sql(q.project_id is Some, q.search is Some, q.status is Some, q.label is Some),
        ) == Seq::new(list_tasks_params(q).len(), |i: int| i + 1),
{
    let p = q.project_id is Some;
    let s = q.search is Some;
    let st = q.status is Some;
    let l = q.label is Some;
    let n_search = 1 + count(p);
    let n_status = n_search + count(s);
    let n_label = n_status + count(st);
    lemma_fixed_parts();
    lemma_no_dollar_no_placeholders(base_sql());
    lemma_no_dollar_no_placeholders(order_sql());
    lemma_conditions(1);
    lemma_conditions(n_search);
    lemma_conditions(n_status);
    lemma_conditions(n_label);
    let a0 = base_sql();
    let a1 = a0 + (if p { project_sql(1) } else { seq![] });
    lemma_optional_condition(a0, p, project_sql(1), 1);
    let a2 = a1 + (if s { search_sql(n_search) } else { seq![] });
    lemma_optional_condition(a1, s, search_sql(n_search), n_search);
    let a3 = a2 + (if st { status_sql(n_status) } else { seq![] });
    lemma_optional_condition(a2, st, status_sql(n_status), n_status);
    let a4 = a3 + (if l { label_sql(n_label) } else { seq![] });
    lemma_optional_condition(a3, l, label_sql(n_label), n_label);
    lemma_placeholders_concat(a4, order_sql());
    let total = count(p) + count(s) + count(st) + count(l);
    assert(list_tasks_params(q).len() == total);
    assert(placeholder_numbers(a4 + order_sql()) =~= Seq::new(total as nat, |i: int| i + 1));
}

// ---------------------------------------------------------------------------
// Each filter's value is bound to that filter's own placeholder.

/// Whether `prefix` occurs in `sql` at position `a`.
pub open spec fn occurs_at(sql: Seq<char>, prefix: Seq<char>, a: int) -> bool {
    0 <= a && a + prefix.len() < sql.len() && sql.subrange(a, a + prefix.len()) == prefix
}

/// The condition that starts with `prefix` and ends with the placeholder
/// `$k` is in `sql`, and the value bound to `$k` is `value`.
pub open spec fn binds(sql: Seq<char>, params: Seq<SqlParamSpec>, prefix: Seq<char>, value: SqlParamSpec) -> bool {
    exists|a: int|
        #[trigger] occurs_at(sql, prefix, a) && is_digit(sql[a + prefix.len()]) && 1 <= sql[a + prefix.len()] as int
            - 48 <= params.len() && params[sql[a + prefix.len()] as int - 48 - 1] == value
}

/// A condition `cond` placed between `pre` and `post` starts at `pre.len()`.
proof fn lemma_condition_placed(pre: Seq<char>, cond: Seq<char>, post: Seq<char>, prefix: Seq<char>, n: int)
    requires
        cond.len() > prefix.len(),
        cond.subrange(0, prefix.len() as int) == prefix,
        is_digit(cond[prefix.len() as int]),
        cond[prefix.len() as int] as int - 48 == n,
    ensures
        occurs_at(pre + cond + post, prefix, pre.len() as int),
        is_digit((pre + cond + post)[(pre.len() + prefix.len()) as int]),
        (pre + cond + post)[(pre.len() + prefix.len()) as int] as int - 48 == n,
{
    let s = pre + cond + post;
    assert(s.subrange(pre.len() as int, (pre.len() + prefix.len()) as int) =~= cond.subrange(0, prefix.len() as int));
    assert(s[(pre.len() + prefix.len()) as int] == cond[prefix.len() as int]);
}

/// The shape of the prefix, number and rest of each condition.
proof fn lemma_condition_shapes(n: int)
    requires
        1 <= n <= 4,
    ensures
        project_sql(n).subrange(0, " AND project_id = $"@.len() as int) == " AND project_id = $"@,
        project_sql(n).len() > " AND project_id = $"@.len(),
        project_sql(n)[" AND project_id = $"@.len() as int] == number_text(n)[0],
        search_sql(n).subrange(0, " AND search_vector @@ plainto_tsquery('english', $"@.len() as int)
            == " AND search_vector @@ plainto_tsquery('english', $"@,
        search_sql(n).len() > " AND search_vector @@ plainto_tsquery('english', $"@.len(),
        search_sql(n)[" AND search_vector @@ plainto_tsquery('english', $"@.len() as int] == number_text(n)[0],
        status_sql(n).subrange(0, " AND status = $"@.len() as int) == " AND status = $"@,
        status_sql(n).len() > " AND status = $"@.len(),
        status_sql(n)[" AND status = $"@.len() as int] == number_text(n)[0],
        label_sql(n).subrange(0, " AND metadata @> $"@.len() as int) == " AND metadata @> $"@,
        label_sql(n).len() > " AND metadata @> $"@.len(),
        label_sql(n)[" AND metadata @> $"@.len() as int] == number_text(n)[0],
{
    lemma_number_text(n);
    assert(project_sql(n).subrange(0, " AND project_id = $"@.len() as int) =~= " AND project_id = $"@);
    assert(search_sql(n).subrange(0, " AND search_vector @@ plainto_tsquery('english', $"@.len() as int)
        =~= " AND search_vector @@ plainto_tsquery('english', $"@);
    assert(status_sql(n).subrange(0, " AND status = $"@.len() as int) =~= " AND status = $"@);
    assert(label_sql(n).subrange(0, " AND metadata @> $"@.len() as int) =~= " AND metadata @> $"@);
}

/// The project condition's placeholder holds the project id.
proof fn lemma_project_binds(q: TaskQuery)
    requires
        q.project_id is Some,
    ensures
        binds(
            list_tasks_sql(q.project_id is Some, q.search is Some, q.status is Some, q.label is Some),
            list_tasks_params(q),
            " AND project_id = $"@,
            SqlParamSpec::Id(q.project_id->Some_0),
        ),
{
    let p = q.project_id is Some;
    let s = q.search is Some;
    let st = q.status is Some;
    let l = q.label is Some;
    let n_search = 1 + count(p);
    let n_status = n_search + count(s);
    let n_label = n_status + count(st);
    let c1: Seq<char> = if p { project_sql(1) } else { seq![] };
    let c2: Seq<char> = if s { search_sql(n_search) } else { seq![] };
    let c3: Seq<char> = if st { status_sql(n_status) } else { seq![] };
    let c4: Seq<char> = if l { label_sql(n_label) } else { seq![] };
    let sql = list_tasks_sql(p, s, st, l);
    assert(sql == base_sql() + c1 + c2 + c3 + c4 + order_sql());
    let params = list_tasks_params(q);
    let o1 = opt_param(q.project_id, |id: u128| SqlParamSpec::Id(id));
    let o2 = opt_param(q.search, |t: String| SqlParamSpec::Text(t@));
    let o3 = opt_param(q.status, |t: String| SqlParamSpec::Text(t@));
    let o4 = opt_param(q.label, |t: String| SqlParamSpec::LabelsContaining(t@));
    assert(params == o1 + o2 + o3 + o4);
    assert(o1.len() == count(p) && o2.len() == count(s) && o3.len() == count(st) && o4.len() == count(l));
    let v = q.project_id->Some_0;
    lemma_condition_shapes(1);
    lemma_number_text(1);
    let pre = base_sql();
    let post = c2 + c3 + c4 + order_sql();
    assert(sql =~= pre + c1 + post);
    lemma_condition_placed(pre, c1, post, " AND project_id = $"@, 1);
    assert(params[1 - 1] == SqlParamSpec::Id(q.project_id->Some_0));
    assert(occurs_at(sql, " AND project_id = $"@, pre.len() as int));
}

/// The full-text condition's placeholder holds the search text.
proof fn lemma_search_binds(q: TaskQuery)
    requires
        q.search is Some,
    ensures
        binds(
            list_tasks_sql(q.project_id is Some, q.search is Some, q.status is Some, q.label is Some),
            list_tasks_params(q),
            " AND search_vector @@ plainto_tsquery('english', $"@,
            SqlParamSpec::Text(q.search->Some_0@),
        ),
{
    let p = q.project_id is Some;
    let s = q.search is Some;
    let st = q.status is Some;
    let l = q.label is Some;
    let n_search = 1 + count(p);
    let n_status = n_search + count(s);
    let n_label = n_status + count(st);
    let c1: Seq<char> = if p { project_sql(1) } else { seq![] };
    let c2: Seq<char> = if s { search_sql(n_search) } else { seq![] };
    let c3: Seq<char> = if st { status_sql(n_status) } else { seq![] };
    let c4: Seq<char> = if l { label_sql(n_label) } else { seq![] };
    let sql = list_tasks_sql(p, s, st, l);
    assert(sql == base_sql() + c1 + c2 + c3 + c4 + order_sql());
    let params = list_tasks_params(q);
    let o1 = opt_param(q.project_id, |id: u128| SqlParamSpec::Id(id));
    let o2 = opt_param(q.search, |t: String| SqlParamSpec::Text(t@));
    let o3 = opt_param(q.status, |t: String| SqlParamSpec::Text(t@));
    let o4 = opt_param(q.label, |t: String| SqlParamSpec::LabelsContaining(t@));
    assert(params == o1 + o2 + o3 + o4);
    assert(o1.len() == count(p) && o2.len() == count(s) && o3.len() == count(st) && o4.len() == count(l));
    let v = q.search->Some_0;
    lemma_condition_shapes(n_search);
    lemma_number_text(n_search);
    let pre = base_sql() + c1;
    let post = c3 + c4 + order_sql();
    assert(sql =~= pre + c2 + post);
    lemma_condition_placed(pre, c2, post, " AND search_vector @@ plainto_tsquery('english', $"@, n_search);
    assert(params[n_search - 1] == SqlParamSpec::Text(q.search->Some_0@));
    assert(occurs_at(sql, " AND search_vector @@ plainto_tsquery('english', $"@, pre.len() as int));
}

/// The status condition's placeholder holds the status.
proof fn lemma_status_binds(q: TaskQuery)
    requires
        q.status is Some,
    ensures
        binds(
            list_tasks_sql(q.project_id is Some, q.search is Some, q.status is Some, q.label is Some),
            list_tasks_params(q),
            " AND status = $"@,
            SqlParamSpec::Text(q.status->Some_0@),
        ),
{
    let p = q.project_id is Some;
    let s = q.search is Some;
    let st = q.status is Some;
    let l = q.label is Some;
    let n_search = 1 + count(p);
    let n_status = n_search + count(s);
    let n_label = n_status + count(st);
    let c1: Seq<char> = if p { project_sql(1) } else { seq![] };
    let c2: Seq<char> = if s { search_sql(n_search) } else { seq![] };
    let c3: Seq<char> = if st { status_sql(n_status) } else { seq![] };
    let c4: Seq<char> = if l { label_sql(n_label) } else { seq![] };
    let sql = list_tasks_sql(p, s, st, l);
    assert(sql == base_sql() + c1 + c2 + c3 + c4 + order_sql());
    let params = list_tasks_params(q);
    let o1 = opt_param(q.project_id, |id: u128| SqlParamSpec::Id(id));
    let o2 = opt_param(q.search, |t: String| SqlParamSpec::Text(t@));
    let o3 = opt_param(q.status, |t: String| SqlParamSpec::Text(t@));
    let o4 = opt_param(q.label, |t: String| SqlParamSpec::LabelsContaining(t@));
    assert(params == o1 + o2 + o3 + o4);
    assert(o1.len() == count(p) && o2.len() == count(s) && o3.len() == count(st) && o4.len() == count(l));
    let v = q.status->Some_0;
    lemma_condition_shapes(n_status);
    lemma_number_text(n_status);
    let pre = base_sql() + c1 + c2;
    let post = c4 + order_sql();
    assert(sql =~= pre + c3 + post);
    lemma_condition_placed(pre, c3, post, " AND status = $"@, n_status);
    assert(params[n_status - 1] == SqlParamSpec::Text(q.status->Some_0@));
    assert(occurs_at(sql, " AND status = $"@, pre.len() as int));
}

/// The label condition's placeholder holds the label.
proof fn lemma_label_binds(q: TaskQuery)
    requires
        q.label is Some,
    ensures
        binds(
            list_tasks_sql(q.project_id is Some, q.search is Some, q.status is Some, q.label is Some),
            list_tasks_params(q),
            " AND metadata @> $"@,
            SqlParamSpec::LabelsContaining(q.label->Some_0@),
        ),
{
    let p = q.project_id is Some;
    let s = q.search is Some;
    let st = q.status is Some;
    let l = q.label is Some;
    let n_search = 1 + count(p);
    let n_status = n_search + count(s);
    let n_label = n_status + count(st);
    let c1: Seq<char> = if p { project_sql(1) } else { seq![] };
    let c2: Seq<char> = if s { search_sql(n_search) } else { seq![] };
    let c3: Seq<char> = if st { status_sql(n_status) } else { seq![] };
    let c4: Seq<char> = if l { label_sql(n_label) } else { seq![] };
    let sql = list_tasks_sql(p, s, st, l);
    assert(sql == base_sql() + c1 + c2 + c3 + c4 + order_sql());
    let params = list_tasks_params(q);
    let o1 = opt_param(q.project_id, |id: u128| SqlParamSpec::Id(id));
    let o2 = opt_param(q.search, |t: String| SqlParamSpec::Text(t@));
    let o3 = opt_param(q.status, |t: String| SqlParamSpec::Text(t@));
    let o4 = opt_param(q.label, |t: String| SqlParamSpec::LabelsContaining(t@));
    assert(params == o1 + o2 + o3 + o4);
    assert(o1.len() == count(p) && o2.len() == count(s) && o3.len() == count(st) && o4.len() == count(l));
    let v = q.label->Some_0;
    lemma_condition_shapes(n_label);
    lemma_number_text(n_label);
    let pre = base_sql() + c1 + c2 + c3;
    let post = order_sql();
    assert(sql =~= pre + c4 + post);
    lemma_condition_placed(pre, c4, post, " AND metadata @> $"@, n_label);
    assert(params[n_label - 1] == SqlParamSpec::LabelsContaining(q.label->Some_0@));
    assert(occurs_at(sql, " AND metadata @> $"@, pre.len() as int));
}

/// Each filter that is given appears in the query as its own condition,
/// and the value bound to that condition's placeholder is the filter's own
/// value: the project id for the project, the search text for the
/// full-text search, the status for the status, the label for the label.
pub proof fn lemma_each_filter_binds_its_value(q: TaskQuery)
    ensures
        ({
            let sql = list_tasks_sql(q.project_id is Some, q.search is Some, q.status is Some, q.label is Some);
            let params = list_tasks_params(q);
            &&& (q.project_id matches Some(id) ==> binds(sql, params, " AND project_id = $"@, SqlParamSpec::Id(id)))
            &&& (q.search matches Some(t) ==> binds(
                sql,
                params,
                " AND search_vector @@ plainto_tsquery('english', $"@,
                SqlParamSpec::Text(t@),
            ))
            &&& (q.status matches Some(t) ==> binds(sql, params, " AND status = $"@, SqlParamSpec::Text(t@)))
            &&& (q.label matches Some(t) ==> binds(
                sql,
                params,
                " AND metadata @> $"@,
                SqlParamSpec::LabelsContaining(t@),
            ))
        }),
{
    if q.project_id is Some {
        lemma_project_binds(q);
    }
    if q.search is Some {
        lemma_search_binds(q);
    }
    if q.status is Some {
        lemma_status_binds(q);
    }
    if q.label is Some {
        lemma_label_binds(q);
    }
}

/// Whatever the filters, the query selects the task columns from the
/// tasks table, starting from a condition that holds for every row, and
/// orders the result newest first.
pub proof fn lemma_query_frame(project: bool, search: bool, status: bool, label: bool)
    ensures
        ({
            let sql = list_tasks_sql(project, search, status, label);
            let head = "
                SELECT
                    id, tenant_id, project_id, parent_task_id,
                    title, description, status, priority,
                    metadata, version, created_at, updated_at
                FROM tasks
                WHERE 1=1
                "@;
            let tail = " ORDER BY created_at DESC"@;
            &&& sql.len() >= head.len() + tail.len()
            &&& sql.subrange(0, head.len() as int) == head
            &&& sql.subrange(sql.len() - tail.len(), sql.len() as int) == tail
        }),
{
    let sql = list_tasks_sql(project, search, status, label);
    let head = base_sql();
    let tail = order_sql();
    let c1: Seq<char> = if project { project_sql(1) } else { seq![] };
    let n_search = 1 + count(project);
    let n_status = n_search + count(search);
    let n_label = n_status + count(status);
    let c2: Seq<char> = if search { search_sql(n_search) } else { seq![] };
    let c3: Seq<char> = if status { status_sql(n_status) } else { seq![] };
    let c4: Seq<char> = if label { label_sql(n_label) } else { seq![] };
    let m = c1 + c2 + c3 + c4;
    assert(sql =~= head + m + tail);
    assert(sql.subrange(0, head.len() as int) =~= head);
    assert(sql.subrange(sql.len() - tail.len(), sql.len() as int) =~= tail);
}

} // verus!
