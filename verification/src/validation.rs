//! The bodies of the create requests, and the checks they must pass
//! before anything is written.

use vstd::prelude::*;
use vstd::string::*;

verus! {

/// A rule a field of a request must satisfy.
#[derive(Debug, Clone, Copy, PartialEq, Eq)]
pub enum Rule {
    /// At least this many characters.
    MinLength(u64),
    /// A well-formed e-mail address.
    Email,
}

/// One field of a request that broke one rule.
#[derive(Debug, Clone, PartialEq, Eq)]
pub struct FieldError {
    /// The name of the field.
    pub field: String,
    /// The rule it broke.
    pub rule: Rule,
    /// The value it had.
    pub value: String,
}

/// The mathematical form of a field error.
pub struct FieldErrorSpec {
    pub field: Seq<char>,
    pub rule: Rule,
    pub value: Seq<char>,
}

impl View for FieldError {
    type V = FieldErrorSpec;

    open spec fn view(&self) -> FieldErrorSpec {
        FieldErrorSpec { field: self.field@, rule: self.rule, value: self.value@ }
    }
}

/// The view of a list of field errors.
pub open spec fn errors_view(v: Seq<FieldError>) -> Seq<FieldErrorSpec> {
    v.map_values(|f: FieldError| f@)
}

/// Whether the `validator` crate accepts `s` as an e-mail address
/// (the HTML5 form of an address, with the length limits of RFC 5321).
pub uninterp spec fn email_accepted(s: Seq<char>) -> bool;

/// Calls `validator::ValidateEmail::validate_email` on the string.
/// The result is named `email_accepted`; the crate's source also shows that
/// no string without an `@` is accepted. The grammar it checks (two regular
/// expressions and an IDNA conversion of the domain) is not restated.
#[verifier::external_body]
fn check_email(s: &String) -> (ok: bool)
    ensures
        ok == email_accepted(s@),
        ok ==> s@.contains('@'),
{
    validator::ValidateEmail::validate_email(s)
}

/// Calls `validator::ValidateLength::validate_length(s, Some(min), None, None)`,
/// which compares the number of characters of `s` with `min`.
#[verifier::external_body]
fn check_min_length(s: &String, min: u64) -> (ok: bool)
    ensures
        ok == (s@.len() >= min),
{
    validator::ValidateLength::<u64>::validate_length(s, Some(min), None, None)
}

/// The error for a field shorter than `min` characters, if it is.
pub open spec fn length_errors(field: Seq<char>, value: Seq<char>, min: u64) -> Seq<FieldErrorSpec> {
    if value.len() >= min {
        seq![]
    } else {
        seq![FieldErrorSpec { field, rule: Rule::MinLength(min), value }]
    }
}

/// The error for a field that is not an accepted e-mail address, if it is not.
pub open spec fn email_errors(field: Seq<char>, value: Seq<char>) -> Seq<FieldErrorSpec> {
    if email_accepted(value) {
        seq![]
    } else {
        seq![FieldErrorSpec { field, rule: Rule::Email, value }]
    }
}

/// Checks that `value` has at least `min` characters; records the error if not.
fn push_length_error(errors: &mut Vec<FieldError>, field: &str, value: &String, min: u64)
    ensures
        errors_view(final(errors)@) == errors_view(old(errors)@) + length_errors(field@, value@, min),
{
    let ghost before = errors@;
    if !check_min_length(value, min) {
        errors.push(FieldError { field: String::from_str(field), rule: Rule::MinLength(min), value: value.clone() });
        assert(errors_view(errors@) =~= errors_view(before) + length_errors(field@, value@, min));
    } else {
        assert(errors_view(errors@) =~= errors_view(before) + length_errors(field@, value@, min));
    }
}

/// Checks that `value` is an accepted e-mail address; records the error if not.
fn push_email_error(errors: &mut Vec<FieldError>, field: &str, value: &String)
    ensures
        errors_view(final(errors)@) == errors_view(old(errors)@) + email_errors(field@, value@),
        email_accepted(value@) ==> value@.contains('@'),
{
    let ghost before = errors@;
    if !check_email(value) {
        errors.push(FieldError { field: String::from_str(field), rule: Rule::Email, value: value.clone() });
        assert(errors_view(errors@) =~= errors_view(before) + email_errors(field@, value@));
    } else {
        assert(errors_view(errors@) =~= errors_view(before) + email_errors(field@, value@));
    }
}

/// The outcome of a list of checks: success if none failed.
fn finish(errors: Vec<FieldError>) -> (r: Result<(), Vec<FieldError>>)
    ensures
        r is Ok <==> errors@.len() == 0,
        r matches Err(v) ==> v@ == errors@,
{
    if errors.len() == 0 {
        Ok(())
    } else {
        Err(errors)
    }
}

/// Whether a list of errors names the field `field`.
pub open spec fn lists_field(errors: Seq<FieldErrorSpec>, field: Seq<char>) -> bool {
    exists|i: int| 0 <= i < errors.len() && #[trigger] errors[i].field == field
}

proof fn lemma_field_names_differ()
    ensures
        "name"@ != "slug"@,
        "name"@ != "email"@,
{
    reveal_strlit("name");
    reveal_strlit("slug");
    reveal_strlit("email");
    assert("name"@[0] != "slug"@[0]);
    assert("name"@[0] != "email"@[0]);
}

/// The errors of a rule on one field name that field and no other.
proof fn lemma_lists_one_field(errors: Seq<FieldErrorSpec>, field: Seq<char>, other: Seq<char>)
    requires
        errors.len() <= 1,
        forall|i: int| 0 <= i < errors.len() ==> #[trigger] errors[i].field == field,
        field != other,
    ensures
        lists_field(errors, field) <==> errors.len() == 1,
        !lists_field(errors, other),
{
    if errors.len() == 1 {
        assert(errors[0].field == field);
    }
}

/// Whether a field is named in a concatenation of errors.
proof fn lemma_lists_concat(a: Seq<FieldErrorSpec>, b: Seq<FieldErrorSpec>, field: Seq<char>)
    ensures
        lists_field(a + b, field) <==> lists_field(a, field) || lists_field(b, field),
{
    if lists_field(a + b, field) {
        let i = choose|i: int| 0 <= i < (a + b).len() && #[trigger] (a + b)[i].field == field;
        if i < a.len() {
            assert(a[i] == (a + b)[i]);
        } else {
            assert(b[i - a.len()] == (a + b)[i]);
        }
    }
    if lists_field(a, field) {
        let i = choose|i: int| 0 <= i < a.len() && #[trigger] a[i].field == field;
        assert((a + b)[i] == a[i]);
    }
    if lists_field(b, field) {
        let i = choose|i: int| 0 <= i < b.len() && #[trigger] b[i].field == field;
        assert((a + b)[a.len() + i] == b[i]);
    }
}

/// The body of a request that creates a tenant.
#[derive(Debug, Clone)]
pub struct CreateTenantRequest {
    pub name: String,
    pub slug: String,
}

impl CreateTenantRequest {
    /// The rules the request breaks: a name and a slug of at least one character each.
    pub open spec fn failures(&self) -> Seq<FieldErrorSpec> {
        length_errors("name"@, self.name@, 1) + length_errors("slug"@, self.slug@, 1)
    }

    /// Checks the request; lists every field that breaks its rule. It
    /// succeeds exactly when both the name and the slug are non-empty, and
    /// a field is reported exactly when it is empty.
    pub fn validate(&self) -> (r: Result<(), Vec<FieldError>>)
        ensures
            r is Ok <==> self.failures().len() == 0,
            r matches Err(v) ==> errors_view(v@) == self.failures(),
            r is Ok <==> (self.name@.len() >= 1 && self.slug@.len() >= 1),
            r matches Err(v) ==> (lists_field(errors_view(v@), "name"@) <==> self.name@.len() == 0),
            r matches Err(v) ==> (lists_field(errors_view(v@), "slug"@) <==> self.slug@.len() == 0),
    {
        proof {
            lemma_tenant_request_rules(*self);
        }
        let mut errors: Vec<FieldError> = Vec::new();
        assert(errors_view(errors@) =~= seq![]);
        push_length_error(&mut errors, "name", &self.name, 1);
        push_length_error(&mut errors, "slug", &self.slug, 1);
        assert(errors_view(errors@) =~= self.failures());
        finish(errors)
    }
}

/// The body of a request that creates a user in the caller's tenant.
#[derive(Debug, Clone)]
pub struct CreateUserRequest {
    pub name: String,
    pub email: String,
}

impl CreateUserRequest {
    /// The rules the request breaks: a name of at least one character and an
    /// accepted e-mail address.
    pub open spec fn failures(&self) -> Seq<FieldErrorSpec> {
        length_errors("name"@, self.name@, 1) + email_errors("email"@, self.email@)
    }

    /// Checks the request; lists every field that breaks its rule. An
    /// address without an `@` is always refused.
    pub fn validate(&self) -> (r: Result<(), Vec<FieldError>>)
        ensures
            r is Ok <==> self.failures().len() == 0,
            r matches Err(v) ==> errors_view(v@) == self.failures(),
            !self.email@.contains('@') ==> r is Err,
            r is Ok <==> (self.name@.len() >= 1 && email_accepted(self.email@)),
            r matches Err(v) ==> (lists_field(errors_view(v@), "name"@) <==> self.name@.len() == 0),
            r matches Err(v) ==> (lists_field(errors_view(v@), "email"@) <==> !email_accepted(self.email@)),
    {
        proof {
            lemma_user_request_rules(*self);
        }
        let mut errors: Vec<FieldError> = Vec::new();
        assert(errors_view(errors@) =~= seq![]);
        push_length_error(&mut errors, "name", &self.name, 1);
        push_email_error(&mut errors, "email", &self.email);
        assert(errors_view(errors@) =~= self.failures());
        finish(errors)
    }
}

/// The body of a request that creates a project in the caller's tenant.
#[derive(Debug, Clone)]
pub struct CreateProjectRequest {
    pub name: String,
    pub description: Option<String>,
}

impl CreateProjectRequest {
    /// The rules the request breaks: a name of at least one character.
    pub open spec fn failures(&self) -> Seq<FieldErrorSpec> {
        length_errors("name"@, self.name@, 1)
    }

    /// Checks the request; lists every field that breaks its rule. It
    /// succeeds exactly when the name is non-empty, whatever the description.
    pub fn validate(&self) -> (r: Result<(), Vec<FieldError>>)
        ensures
            r is Ok <==> self.failures().len() == 0,
            r matches Err(v) ==> errors_view(v@) == self.failures(),
            r is Ok <==> self.name@.len() >= 1,
            r matches Err(v) ==> lists_field(errors_view(v@), "name"@),
    {
        proof {
            lemma_project_request_rules(*self);
        }
        let mut errors: Vec<FieldError> = Vec::new();
        assert(errors_view(errors@) =~= seq![]);
        push_length_error(&mut errors, "name", &self.name, 1);
        assert(errors_view(errors@) =~= self.failures());
        finish(errors)
    }
}

/// A JSON document, carried through unread.
#[verifier::external_type_specification]
#[verifier::external_body]
pub struct ExJsonValue(serde_json::Value);

/// The metadata stored with a new task.
pub enum TaskMetadata {
    /// The JSON document the request gave.
    Document(serde_json::Value),
    /// The empty JSON object `{}`, stored when the request gave none.
    EmptyObject,
}

/// The body of a request that creates a task in a project of the caller's tenant.
pub struct CreateTaskRequest {
    pub project_id: u128,
    pub parent_task_id: Option<u128>,
    pub title: String,
    pub description: Option<String>,
    pub metadata: Option<serde_json::Value>,
}

/// The values a validated task request hands to the store.
pub struct NewTask {
    pub project_id: u128,
    pub parent_task_id: Option<u128>,
    pub title: String,
    pub description: Option<String>,
    pub metadata: TaskMetadata,
}

impl CreateTaskRequest {
    /// The rules the request breaks: a title of at least one character.
    pub open spec fn failures(&self) -> Seq<FieldErrorSpec> {
        length_errors("title"@, self.title@, 1)
    }

    /// Checks the request; lists every field that breaks its rule. It
    /// succeeds exactly when the title is non-empty.
    pub fn validate(&self) -> (r: Result<(), Vec<FieldError>>)
        ensures
            r is Ok <==> self.failures().len() == 0,
            r matches Err(v) ==> errors_view(v@) == self.failures(),
            r is Ok <==> self.title@.len() >= 1,
    {
        let mut errors: Vec<FieldError> = Vec::new();
        assert(errors_view(errors@) =~= seq![]);
        push_length_error(&mut errors, "title", &self.title, 1);
        assert(errors_view(errors@) =~= self.failures());
        finish(errors)
    }

    /// The values to store: the request's fields, with the metadata an empty
    /// JSON object when the request gave none.
    pub fn into_new_task(self) -> (t: NewTask)
        ensures
            t.project_id == self.project_id,
            t.parent_task_id == self.parent_task_id,
            t.title == self.title,
            t.description == self.description,
            match self.metadata {
                Some(m) => t.metadata == TaskMetadata::Document(m),
                None => t.metadata == TaskMetadata::EmptyObject,
            },
    {
        let metadata = match self.metadata {
            Some(m) => TaskMetadata::Document(m),
            None => TaskMetadata::EmptyObject,
        };
        NewTask {
            project_id: self.project_id,
            parent_task_id: self.parent_task_id,
            title: self.title,
            description: self.description,
            metadata,
        }
    }
}


/// A tenant request is accepted exactly when its name and its slug each
/// have at least one character; the name is reported exactly when it is
/// empty, whatever the slug, and the slug exactly when it is empty,
/// whatever the name.
pub proof fn lemma_tenant_request_rules(req: CreateTenantRequest)
    ensures
        req.failures().len() == 0 <==> (req.name@.len() >= 1 && req.slug@.len() >= 1),
        lists_field(req.failures(), "name"@) <==> req.name@.len() == 0,
        lists_field(req.failures(), "slug"@) <==> req.slug@.len() == 0,
{
    lemma_field_names_differ();
    let a = length_errors("name"@, req.name@, 1);
    let b = length_errors("slug"@, req.slug@, 1);
    lemma_lists_one_field(a, "name"@, "slug"@);
    lemma_lists_one_field(b, "slug"@, "name"@);
    lemma_lists_concat(a, b, "name"@);
    lemma_lists_concat(a, b, "slug"@);
}

/// A user request is accepted exactly when its name has at least one
/// character and its address is accepted; the name is reported exactly when
/// it is empty, whatever the address, and the address exactly when it is
/// refused, whatever the name.
pub proof fn lemma_user_request_rules(req: CreateUserRequest)
    ensures
        req.failures().len() == 0 <==> (req.name@.len() >= 1 && email_accepted(req.email@)),
        lists_field(req.failures(), "name"@) <==> req.name@.len() == 0,
        lists_field(req.failures(), "email"@) <==> !email_accepted(req.email@),
{
    lemma_field_names_differ();
    let a = length_errors("name"@, req.name@, 1);
    let b = email_errors("email"@, req.email@);
    lemma_lists_one_field(a, "name"@, "email"@);
    lemma_lists_one_field(b, "email"@, "name"@);
    lemma_lists_concat(a, b, "name"@);
    lemma_lists_concat(a, b, "email"@);
}

/// A project request is accepted exactly when its name has at least one
/// character, whatever its description; a refused one reports the name.
pub proof fn lemma_project_request_rules(req: CreateProjectRequest)
    ensures
        req.failures().len() == 0 <==> req.name@.len() >= 1,
        req.name@.len() == 0 ==> lists_field(req.failures(), "name"@),
{
    lemma_field_names_differ();
    lemma_lists_one_field(req.failures(), "name"@, "slug"@);
}

} // verus!
