//! Users: stored rows, registration rules and profile updates.
use vstd::prelude::*;
use vstd::string::StringSliceAdditionalSpecFns;
use crate::error::AppError;
use crate::hub::ids;
use crate::text::{all_white_space, lemma_trimmed_empty, push_text, trim};

verus! {

/// A user as stored, password hash included.
#[derive(Debug, Clone)]
pub struct UserRow {
    pub id: String,
    pub username: String,
    pub password_hash: String,
    pub avatar_path: Option<String>,
    pub banner_path: Option<String>,
    pub bio: String,
    pub status_text: String,
    pub status_emoji: String,
    pub custom_css: String,
    pub social_links: String,
    pub created_at: String,
    pub updated_at: String,
}

/// A user as shown to clients: the stored row without its password hash.
/// `social_links` holds JSON text.
#[derive(Debug, Clone)]
pub struct User {
    pub id: String,
    pub username: String,
    pub avatar_path: Option<String>,
    pub banner_path: Option<String>,
    pub bio: String,
    pub status_text: String,
    pub status_emoji: String,
    pub custom_css: String,
    pub social_links: String,
    pub created_at: String,
    pub updated_at: String,
}

/// Whether `serde_json` reads `s` as one JSON value.
pub uninterp spec fn is_json(s: Seq<char>) -> bool;

/// Calls `serde_json::from_str::<serde_json::Value>` on `s` and reports
/// whether it succeeds. Parsing depends on the text alone; the contract
/// names the outcome.
#[verifier::external_body]
fn parses_as_json(s: &str) -> (res: bool)
    ensures
        res == is_json(s@),
{
    serde_json::from_str::<serde_json::Value>(s).is_ok()
}

/// Stored JSON text as served: the text itself when it is valid JSON, the
/// empty object `{}` otherwise.
pub open spec fn json_or_empty(s: Seq<char>) -> Seq<char> {
    if is_json(s) {
        s
    } else {
        "{}"@
    }
}

/// Keeps stored JSON text that reads as JSON, and replaces anything else by
/// the empty object `{}`.
pub fn json_or_empty_object(s: &str) -> (res: String)
    ensures
        res@ == json_or_empty(s@),
{
    if parses_as_json(s) {
        s.to_owned()
    } else {
        proof {
            reveal_strlit("{}");
        }
        "{}".to_owned()
    }
}

impl User {
    /// The public view of a stored user: every field but the password hash,
    /// with social links that do not read as JSON replaced by `{}`.
    pub fn from_row(row: UserRow) -> (res: User)
        ensures
            res.id == row.id,
            res.username == row.username,
            res.avatar_path == row.avatar_path,
            res.banner_path == row.banner_path,
            res.bio == row.bio,
            res.status_text == row.status_text,
            res.status_emoji == row.status_emoji,
            res.custom_css == row.custom_css,
            res.social_links@ == json_or_empty(row.social_links@),
            res.created_at == row.created_at,
            res.updated_at == row.updated_at,
    {
        let social_links = json_or_empty_object(row.social_links.as_str());
        User {
            id: row.id,
            username: row.username,
            avatar_path: row.avatar_path,
            banner_path: row.banner_path,
            bio: row.bio,
            status_text: row.status_text,
            status_emoji: row.status_emoji,
            custom_css: row.custom_css,
            social_links,
            created_at: row.created_at,
            updated_at: row.updated_at,
        }
    }
}

/// Request body to register.
#[derive(Debug, Clone)]
pub struct RegisterRequest {
    pub username: String,
    pub password: String,
}

/// Request body to log in.
#[derive(Debug, Clone)]
pub struct LoginRequest {
    pub username: String,
    pub password: String,
}

/// The length of `s` in bytes, as UTF-8 (what `str::len` returns).
pub open spec fn byte_len(s: &str) -> usize {
    s.spec_bytes().len() as usize
}

/// Checks a registration: the user name must hold something other than
/// white space and take at most 32 bytes, and the password at least 4 bytes.
pub fn validate_registration(username: &str, password: &str) -> (res: Result<(), AppError>)
    ensures
        if all_white_space(username@) || byte_len(username) > 32 {
            res is Err && res->Err_0 is BadRequest && res->Err_0->BadRequest_0@
                == "Le pseudo doit faire entre 1 et 32 caractères"@
        } else if byte_len(password) < 4 {
            res is Err && res->Err_0 is BadRequest && res->Err_0->BadRequest_0@
                == "Le mot de passe doit faire au moins 4 caractères"@
        } else {
            res is Ok
        },
{
    proof {
        lemma_trimmed_empty(username@);
    }
    if trim(username).is_empty() || username.len() > 32 {
        return Err(
            AppError::BadRequest("Le pseudo doit faire entre 1 et 32 caractères".to_owned()),
        );
    }
    if password.len() < 4 {
        return Err(
            AppError::BadRequest("Le mot de passe doit faire au moins 4 caractères".to_owned()),
        );
    }
    Ok(())
}

/// The outcome of a login attempt: it succeeds only when the user exists and
/// the password matches; both failures read the same, so that a client
/// cannot tell which one happened.
pub fn login_outcome(user_found: bool, password_valid: bool) -> (res: Result<(), AppError>)
    ensures
        res is Ok <==> user_found && password_valid,
        res is Err ==> res->Err_0 is Unauthorized && res->Err_0->Unauthorized_0@
            == "Pseudo ou mot de passe incorrect"@,
{
    if user_found && password_valid {
        Ok(())
    } else {
        Err(AppError::Unauthorized("Pseudo ou mot de passe incorrect".to_owned()))
    }
}

/// A profile update statement: its SQL and the values bound to its `?`
/// placeholders, in order.
#[derive(Debug, Clone)]
pub struct ProfileUpdate {
    pub sql: String,
    pub params: Vec<String>,
}

/// The assignment and value for an optional profile field.
pub open spec fn change(value: Option<&str>, assignment: Seq<char>) -> Seq<(Seq<char>, Seq<char>)> {
    match value {
        Some(v) => seq![(assignment, v@)],
        None => Seq::empty(),
    }
}

/// The profile fields to set, in column order, with their values.
pub open spec fn profile_changes(
    username: Option<&str>,
    bio: Option<&str>,
    status_text: Option<&str>,
    status_emoji: Option<&str>,
    social_links: Option<&str>,
    custom_css: Option<&str>,
) -> Seq<(Seq<char>, Seq<char>)> {
    change(username, "username = ?"@) + change(bio, "bio = ?"@) + change(
        status_text,
        "status_text = ?"@,
    ) + change(status_emoji, "status_emoji = ?"@) + change(social_links, "social_links = ?"@)
        + change(custom_css, "custom_css = ?"@)
}

/// The pieces of `list` separated by `sep`.
pub open spec fn joined(list: Seq<Seq<char>>, sep: Seq<char>) -> Seq<char>
    decreases list.len(),
{
    if list.len() == 0 {
        Seq::empty()
    } else if list.len() == 1 {
        list[0]
    } else {
        joined(list.drop_last(), sep) + sep + list.last()
    }
}

/// The texts of a list of string slices.
pub open spec fn texts(list: Seq<&str>) -> Seq<Seq<char>> {
    list.map_values(|s: &str| s@)
}

/// Joins the pieces of `list`, separated by `sep`.
pub fn join(list: &Vec<&str>, sep: &str) -> (res: String)
    ensures
        res@ == joined(texts(list@), sep@),
{
    let mut res = String::new();
    let mut i: usize = 0;
    while i < list.len()
        invariant
            i <= list@.len(),
            res@ == joined(texts(list@.subrange(0, i as int)), sep@),
        decreases list@.len() - i,
    {
        proof {
            assert(texts(list@.subrange(0, i + 1)).drop_last() =~= texts(list@.subrange(0, i as int)));
        }
        if i > 0 {
            push_text(&mut res, sep);
        }
        push_text(&mut res, list[i]);
        proof {
            if i == 0 {
                assert(res@ =~= texts(list@.subrange(0, 1))[0]);
            }
        }
        i += 1;
    }
    proof {
        assert(list@.subrange(0, i as int) =~= list@);
    }
    res
}

/// Adds one optional field to a statement under construction.
fn add_change(
    value: Option<&str>,
    assignment: &'static str,
    updates: &mut Vec<&'static str>,
    params: &mut Vec<String>,
)
    ensures
        texts(final(updates)@) == texts(old(updates)@) + change(value, assignment@).map_values(
            |c: (Seq<char>, Seq<char>)| c.0,
        ),
        ids(final(params)@) == ids(old(params)@) + change(value, assignment@).map_values(
            |c: (Seq<char>, Seq<char>)| c.1,
        ),
{
    if let Some(v) = value {
        updates.push(assignment);
        params.push(v.to_owned());
        proof {
            assert(texts(final(updates)@) =~= texts(old(updates)@) + change(value, assignment@).map_values(
                |c: (Seq<char>, Seq<char>)| c.0,
            ));
            assert(ids(final(params)@) =~= ids(old(params)@) + change(value, assignment@).map_values(
                |c: (Seq<char>, Seq<char>)| c.1,
            ));
        }
    } else {
        proof {
            assert(texts(final(updates)@) =~= texts(old(updates)@) + change(value, assignment@).map_values(
                |c: (Seq<char>, Seq<char>)| c.0,
            ));
            assert(ids(final(params)@) =~= ids(old(params)@) + change(value, assignment@).map_values(
                |c: (Seq<char>, Seq<char>)| c.1,
            ));
        }
    }
}

/// Builds the statement that updates a user's profile: one `column = ?` per
/// field given, in column order, then the update time, bound to the given
/// values and finally the user id. `None` when no field is given: there is
/// nothing to update.
pub fn profile_update_statement(
    user_id: &str,
    username: Option<&str>,
    bio: Option<&str>,
    status_text: Option<&str>,
    status_emoji: Option<&str>,
    social_links: Option<&str>,
    custom_css: Option<&str>,
) -> (res: Option<ProfileUpdate>)
    ensures
        ({
            let changes = profile_changes(
                username,
                bio,
                status_text,
                status_emoji,
                social_links,
                custom_css,
            );
            match res {
                None => changes.len() == 0,
                Some(u) => changes.len() > 0 && u.sql@ == update_sql(changes) && ids(u.params@)
                    == changes.map_values(
                    |c: (Seq<char>, Seq<char>)| c.1,
                ).push(user_id@),
            }
        }),
        // each field given sets its own column to its own value; the user id
        // is bound last
        ({
            let changes = profile_changes(
                username,
                bio,
                status_text,
                status_emoji,
                social_links,
                custom_css,
            );
            let p1 = given(username);
            let p2 = p1 + given(bio);
            let p3 = p2 + given(status_text);
            let p4 = p3 + given(status_emoji);
            let p5 = p4 + given(social_links);
            let n = p5 + given(custom_css);
            &&& (res is None <==> n == 0)
            &&& (res matches Some(u) ==> {
                &&& u.params@.len() == n + 1
                &&& u.params@[n]@ == user_id@
                &&& sets_column(u, changes, 0, username, "username = ?"@)
                &&& sets_column(u, changes, p1, bio, "bio = ?"@)
                &&& sets_column(u, changes, p2, status_text, "status_text = ?"@)
                &&& sets_column(u, changes, p3, status_emoji, "status_emoji = ?"@)
                &&& sets_column(u, changes, p4, social_links, "social_links = ?"@)
                &&& sets_column(u, changes, p5, custom_css, "custom_css = ?"@)
            })
        }),
{
    proof {
        law_each_field_sets_its_own_column(
            username,
            bio,
            status_text,
            status_emoji,
            social_links,
            custom_css,
        );
    }
    let mut updates: Vec<&'static str> = Vec::new();
    let mut params: Vec<String> = Vec::new();
    add_change(username, "username = ?", &mut updates, &mut params);
    add_change(bio, "bio = ?", &mut updates, &mut params);
    add_change(status_text, "status_text = ?", &mut updates, &mut params);
    add_change(status_emoji, "status_emoji = ?", &mut updates, &mut params);
    add_change(social_links, "social_links = ?", &mut updates, &mut params);
    add_change(custom_css, "custom_css = ?", &mut updates, &mut params);
    let ghost changes = profile_changes(
        username,
        bio,
        status_text,
        status_emoji,
        social_links,
        custom_css,
    );
    proof {
        assert(texts(updates@) =~= assignments(changes));
        assert(ids(params@) =~= changes.map_values(|c: (Seq<char>, Seq<char>)| c.1));
    }
    if updates.len() == 0 {
        return None;
    }
    let ghost before_updates = updates@;
    let ghost before_params = params@;
    updates.push("updated_at = CURRENT_TIMESTAMP");
    params.push(user_id.to_owned());
    let mut sql = "UPDATE users SET ".to_owned();
    let clauses = join(&updates, ", ");
    push_text(&mut sql, clauses.as_str());
    push_text(&mut sql, " WHERE id = ?");
    proof {
        assert(texts(updates@) =~= texts(before_updates).push("updated_at = CURRENT_TIMESTAMP"@));
        assert(ids(params@) =~= ids(before_params).push(user_id@));
    }
    let res = ProfileUpdate { sql, params };
    proof {
        let p1 = given(username);
        let p2 = p1 + given(bio);
        let p3 = p2 + given(status_text);
        let p4 = p3 + given(status_emoji);
        let p5 = p4 + given(social_links);
        let n = p5 + given(custom_css);
        assert(ids(res.params@)[n] == res.params@[n]@);
        lemma_sets_column(res, changes, user_id@, 0, username, "username = ?"@);
        lemma_sets_column(res, changes, user_id@, p1, bio, "bio = ?"@);
        lemma_sets_column(res, changes, user_id@, p2, status_text, "status_text = ?"@);
        lemma_sets_column(res, changes, user_id@, p3, status_emoji, "status_emoji = ?"@);
        lemma_sets_column(res, changes, user_id@, p4, social_links, "social_links = ?"@);
        lemma_sets_column(res, changes, user_id@, p5, custom_css, "custom_css = ?"@);
    }
    Some(res)
}

/// The assignments of a profile update, without their values.
pub open spec fn assignments(changes: Seq<(Seq<char>, Seq<char>)>) -> Seq<Seq<char>> {
    changes.map_values(|c: (Seq<char>, Seq<char>)| c.0)
}

/// The SQL text of a profile update: its assignments, then the update time,
/// for the row with the bound id.
pub open spec fn update_sql(changes: Seq<(Seq<char>, Seq<char>)>) -> Seq<char> {
    "UPDATE users SET "@ + joined(assignments(changes).push("updated_at = CURRENT_TIMESTAMP"@), ", "@)
        + " WHERE id = ?"@
}

proof fn lemma_change_assignment(a: Option<&str>, b: Option<&str>, assignment: Seq<char>)
    requires
        a is Some <==> b is Some,
    ensures
        assignments(change(a, assignment)) == assignments(change(b, assignment)),
{
    assert(assignments(change(a, assignment)) =~= assignments(change(b, assignment)));
}

proof fn lemma_assignments_add(x: Seq<(Seq<char>, Seq<char>)>, y: Seq<(Seq<char>, Seq<char>)>)
    ensures
        assignments(x + y) == assignments(x) + assignments(y),
{
    assert(assignments(x + y) =~= assignments(x) + assignments(y));
}

/// Whether the statement `u`, whose assignments are those of `changes`,
/// sets `column` to `value` through its parameter at position `at` when
/// `value` is given.
pub open spec fn sets_column(
    u: ProfileUpdate,
    changes: Seq<(Seq<char>, Seq<char>)>,
    at: int,
    value: Option<&str>,
    column: Seq<char>,
) -> bool {
    value matches Some(v) ==> assignments(changes)[at] == column && u.params@[at]@ == v@
}

proof fn lemma_sets_column(
    u: ProfileUpdate,
    changes: Seq<(Seq<char>, Seq<char>)>,
    user_id: Seq<char>,
    at: int,
    value: Option<&str>,
    column: Seq<char>,
)
    requires
        value is Some ==> 0 <= at < changes.len(),
        bound_at(changes, at, value, column),
        ids(u.params@) == changes.map_values(|c: (Seq<char>, Seq<char>)| c.1).push(user_id),
    ensures
        sets_column(u, changes, at, value, column),
{
    if value is Some {
        assert(ids(u.params@).len() == u.params@.len());
        assert(ids(u.params@)[at] == u.params@[at]@);
        assert(assignments(changes)[at] == changes[at].0);
    }
}

/// 1 when a field is given, 0 when not.
pub open spec fn given(value: Option<&str>) -> int {
    if value is Some {
        1
    } else {
        0
    }
}

/// Whether `changes` pairs the assignment `column` with `value` at position
/// `at` when `value` is given.
pub open spec fn bound_at(
    changes: Seq<(Seq<char>, Seq<char>)>,
    at: int,
    value: Option<&str>,
    column: Seq<char>,
) -> bool {
    value matches Some(v) ==> changes[at] == (column, v@)
}

/// Each field given is bound to the assignment of its own column: a profile
/// update holds one assignment per field given, in column order, and the
/// assignment of each column comes with that column's value (the position of
/// a field is the number of fields given before it).
pub proof fn law_each_field_sets_its_own_column(
    username: Option<&str>,
    bio: Option<&str>,
    status_text: Option<&str>,
    status_emoji: Option<&str>,
    social_links: Option<&str>,
    custom_css: Option<&str>,
)
    ensures
        ({
            let changes = profile_changes(
                username,
                bio,
                status_text,
                status_emoji,
                social_links,
                custom_css,
            );
            let p1 = given(username);
            let p2 = p1 + given(bio);
            let p3 = p2 + given(status_text);
            let p4 = p3 + given(status_emoji);
            let p5 = p4 + given(social_links);
            &&& changes.len() == p5 + given(custom_css)
            &&& bound_at(changes, 0, username, "username = ?"@)
            &&& bound_at(changes, p1, bio, "bio = ?"@)
            &&& bound_at(changes, p2, status_text, "status_text = ?"@)
            &&& bound_at(changes, p3, status_emoji, "status_emoji = ?"@)
            &&& bound_at(changes, p4, social_links, "social_links = ?"@)
            &&& bound_at(changes, p5, custom_css, "custom_css = ?"@)
        }),
{
    let c1 = change(username, "username = ?"@);
    let c2 = change(bio, "bio = ?"@);
    let c3 = change(status_text, "status_text = ?"@);
    let c4 = change(status_emoji, "status_emoji = ?"@);
    let c5 = change(social_links, "social_links = ?"@);
    let c6 = change(custom_css, "custom_css = ?"@);
    let s2 = c1 + c2;
    let s3 = s2 + c3;
    let s4 = s3 + c4;
    let s5 = s4 + c5;
    let s6 = s5 + c6;
    assert(s6 == profile_changes(username, bio, status_text, status_emoji, social_links, custom_css));
    assert(c1.len() == given(username));
    assert(c2.len() == given(bio));
    assert(c3.len() == given(status_text));
    assert(c4.len() == given(status_emoji));
    assert(c5.len() == given(social_links));
    assert(c6.len() == given(custom_css));
    if username is Some {
        assert(s6[0] == c1[0]);
    }
    if bio is Some {
        assert(s6[c1.len() as int] == c2[0]);
    }
    if status_text is Some {
        assert(s6[s2.len() as int] == c3[0]);
    }
    if status_emoji is Some {
        assert(s6[s3.len() as int] == c4[0]);
    }
    if social_links is Some {
        assert(s6[s4.len() as int] == c5[0]);
    }
    if custom_css is Some {
        assert(s6[s5.len() as int] == c6[0]);
    }
}

/// The values of a profile update never enter its SQL text: two updates that
/// give the same fields, whatever their values, have the same assignments,
/// hence the same statement text.
pub proof fn law_values_never_enter_the_sql(
    username: Option<&str>,
    bio: Option<&str>,
    status_text: Option<&str>,
    status_emoji: Option<&str>,
    social_links: Option<&str>,
    custom_css: Option<&str>,
    username2: Option<&str>,
    bio2: Option<&str>,
    status_text2: Option<&str>,
    status_emoji2: Option<&str>,
    social_links2: Option<&str>,
    custom_css2: Option<&str>,
)
    requires
        username is Some <==> username2 is Some,
        bio is Some <==> bio2 is Some,
        status_text is Some <==> status_text2 is Some,
        status_emoji is Some <==> status_emoji2 is Some,
        social_links is Some <==> social_links2 is Some,
        custom_css is Some <==> custom_css2 is Some,
    ensures
        update_sql(profile_changes(username, bio, status_text, status_emoji, social_links, custom_css))
            == update_sql(
            profile_changes(username2, bio2, status_text2, status_emoji2, social_links2, custom_css2),
        ),
{
    let c1 = change(username, "username = ?"@);
    let c2 = change(bio, "bio = ?"@);
    let c3 = change(status_text, "status_text = ?"@);
    let c4 = change(status_emoji, "status_emoji = ?"@);
    let c5 = change(social_links, "social_links = ?"@);
    let c6 = change(custom_css, "custom_css = ?"@);
    let d1 = change(username2, "username = ?"@);
    let d2 = change(bio2, "bio = ?"@);
    let d3 = change(status_text2, "status_text = ?"@);
    let d4 = change(status_emoji2, "status_emoji = ?"@);
    let d5 = change(social_links2, "social_links = ?"@);
    let d6 = change(custom_css2, "custom_css = ?"@);
    lemma_change_assignment(username, username2, "username = ?"@);
    lemma_change_assignment(bio, bio2, "bio = ?"@);
    lemma_change_assignment(status_text, status_text2, "status_text = ?"@);
    lemma_change_assignment(status_emoji, status_emoji2, "status_emoji = ?"@);
    lemma_change_assignment(social_links, social_links2, "social_links = ?"@);
    lemma_change_assignment(custom_css, custom_css2, "custom_css = ?"@);
    lemma_assignments_add(c1, c2);
    lemma_assignments_add(c1 + c2, c3);
    lemma_assignments_add(c1 + c2 + c3, c4);
    lemma_assignments_add(c1 + c2 + c3 + c4, c5);
    lemma_assignments_add(c1 + c2 + c3 + c4 + c5, c6);
    lemma_assignments_add(d1, d2);
    lemma_assignments_add(d1 + d2, d3);
    lemma_assignments_add(d1 + d2 + d3, d4);
    lemma_assignments_add(d1 + d2 + d3 + d4, d5);
    lemma_assignments_add(d1 + d2 + d3 + d4 + d5, d6);
}

} // verus!
