//! What holds of the service across statements and requests, given that the
//! database answers each statement as `crate::statements` describes it.
use vstd::prelude::*;

use crate::decimal::{decimal, digit_char, nat_digits};
use crate::error::{todo_not_found_text, ApiError, ApiErrorView, DbError};
use crate::handlers::{create_reply, delete_reply, get_reply, list_reply, update_reply, Reply};
use crate::statements::{
    coalesced, delete_allows, insert_allows, keyed, lists_table, rows_view, select_all_allows,
    select_one_allows, update_allows, update_params_allow, Param, Statement,
};
use crate::request_id::{ascii_bytes, hex_lower, hyphenated, nibble, request_id_bytes};
use tower_http::request_id::RequestId;
use crate::settings::AppEnv;
use crate::status::Status;
use crate::todo::{TodoRow, TodoView};

verus! {

/// A created todo carries the title it was created with, is not completed,
/// has an id no other todo had, and is in the table from then on; the
/// table stays keyed by id.
pub proof fn created_todo_is_new_and_open(
    before: Map<i32, TodoView>,
    title: Seq<char>,
    out: Result<TodoRow, DbError>,
    after: Map<i32, TodoView>,
)
    requires
        keyed(before),
        insert_allows(before, title, out, after),
    ensures
        keyed(after),
        create_reply(out) matches Reply::One(s, v) ==> {
            &&& s == Status::Created
            &&& v.title == title
            &&& !v.completed
            &&& !before.contains_key(v.id)
            &&& after.contains_key(v.id) && after[v.id] == v
        },
        create_reply(out) matches Reply::Failure(e) ==> e is InternalError,
{
}

/// Reading a todo right after creating it gives back the created todo,
/// unless the read itself fails for another reason than a missing row.
pub proof fn read_after_create(
    t0: Map<i32, TodoView>,
    title: Seq<char>,
    created: Result<TodoRow, DbError>,
    t1: Map<i32, TodoView>,
    read: Result<TodoRow, DbError>,
    t2: Map<i32, TodoView>,
)
    requires
        insert_allows(t0, title, created, t1),
        created is Ok,
        select_one_allows(t1, created->Ok_0.id, read, t2),
    ensures
        create_reply(created) == Reply::One(Status::Created, created->Ok_0@),
        read is Err && read->Err_0 is Other || get_reply(created->Ok_0.id, read) == Reply::One(
            Status::Okay,
            created->Ok_0@,
        ),
{
}

/// After a delete that answered "no content", reading the same id answers
/// "not found" (or fails for another reason).
pub proof fn read_after_delete(
    t0: Map<i32, TodoView>,
    id: i32,
    deleted: Result<u64, DbError>,
    t1: Map<i32, TodoView>,
    read: Result<TodoRow, DbError>,
    t2: Map<i32, TodoView>,
)
    requires
        delete_allows(t0, id, deleted, t1),
        delete_reply(id, deleted) == Reply::Bare(Status::NoContent),
        select_one_allows(t1, id, read, t2),
    ensures
        t0.contains_key(id),
        read is Err && read->Err_0 is Other || get_reply(id, read) == Reply::Failure(
            ApiErrorView::NotFound(todo_not_found_text(id)),
        ),
{
}

/// An update answers the todo with each given field replaced and the others
/// kept, and a read right after it gives the same todo back.
pub proof fn read_after_update(
    t0: Map<i32, TodoView>,
    id: i32,
    title: Option<Seq<char>>,
    completed: Option<bool>,
    updated: Result<TodoRow, DbError>,
    t1: Map<i32, TodoView>,
    read: Result<TodoRow, DbError>,
    t2: Map<i32, TodoView>,
)
    requires
        update_allows(t0, id, title, completed, updated, t1),
        updated is Ok,
        select_one_allows(t1, id, read, t2),
    ensures
        t0.contains_key(id),
        update_reply(id, updated) == Reply::One(
            Status::Okay,
            coalesced(t0[id], title, completed),
        ),
        read is Err && read->Err_0 is Other || get_reply(id, read) == Reply::One(
            Status::Okay,
            coalesced(t0[id], title, completed),
        ),
{
}

/// For an id that no todo has, reading, updating and deleting all answer
/// "not found" with the id in the message (or fail for another reason), and
/// the table is left as it was.
pub proof fn missing_todo_is_not_found(
    t: Map<i32, TodoView>,
    id: i32,
    read: Result<TodoRow, DbError>,
    t_read: Map<i32, TodoView>,
    title: Option<Seq<char>>,
    completed: Option<bool>,
    updated: Result<TodoRow, DbError>,
    t_updated: Map<i32, TodoView>,
    deleted: Result<u64, DbError>,
    t_deleted: Map<i32, TodoView>,
)
    requires
        !t.contains_key(id),
        select_one_allows(t, id, read, t_read),
        update_allows(t, id, title, completed, updated, t_updated),
        delete_allows(t, id, deleted, t_deleted),
    ensures
        read is Err && read->Err_0 is Other || get_reply(id, read) == Reply::Failure(
            ApiErrorView::NotFound(todo_not_found_text(id)),
        ) && t_read == t,
        updated is Err && updated->Err_0 is Other || update_reply(id, updated) == Reply::Failure(
            ApiErrorView::NotFound(todo_not_found_text(id)),
        ) && t_updated == t,
        deleted is Err && deleted->Err_0 is Other || delete_reply(id, deleted) == Reply::Failure(
            ApiErrorView::NotFound(todo_not_found_text(id)),
        ) && t_deleted == t,
{
}

/// Listing right after a create shows the created todo, once.
pub proof fn list_after_create(
    t0: Map<i32, TodoView>,
    title: Seq<char>,
    created: Result<TodoRow, DbError>,
    t1: Map<i32, TodoView>,
    listed: Result<Vec<TodoRow>, DbError>,
    t2: Map<i32, TodoView>,
)
    requires
        insert_allows(t0, title, created, t1),
        created is Ok,
        select_all_allows(t1, listed, t2),
        listed is Ok,
    ensures
        list_reply(listed) == Reply::Many(Status::Okay, rows_view(listed->Ok_0@)),
        exists|i: int|
            0 <= i < listed->Ok_0@.len() && #[trigger] rows_view(listed->Ok_0@)[i]
                == created->Ok_0@,
{
    let rows = rows_view(listed->Ok_0@);
    let k = created->Ok_0.id;
    assert(t1.contains_key(k));
    let i = choose|i: int| 0 <= i < rows.len() && #[trigger] rows[i].id == k;
    assert(rows[i] == created->Ok_0@);
}

/// A request succeeds (answers a 2xx status) exactly when its statement
/// succeeded (and, for a delete, removed a row); otherwise it answers a
/// client or server error status.
pub proof fn success_iff_statement_succeeded(
    id: i32,
    one: Result<TodoRow, DbError>,
    many: Result<Vec<TodoRow>, DbError>,
    count: Result<u64, DbError>,
)
    ensures
        create_reply(one).status().is_success() <==> one is Ok,
        list_reply(many).status().is_success() <==> many is Ok,
        get_reply(id, one).status().is_success() <==> one is Ok,
        update_reply(id, one).status().is_success() <==> one is Ok,
        delete_reply(id, count).status().is_success() <==> (count is Ok && count->Ok_0 != 0),
        400 <= create_reply(one).status().code_of() < 600 <==> one is Err,
        400 <= list_reply(many).status().code_of() < 600 <==> many is Err,
        400 <= get_reply(id, one).status().code_of() < 600 <==> one is Err,
        400 <= delete_reply(id, count).status().code_of() < 600 <==> !(count is Ok
            && count->Ok_0 != 0),
{
}

proof fn digit_chars_differ(a: int, b: int)
    requires
        0 <= a < 10,
        0 <= b < 10,
        a != b,
    ensures
        digit_char(a) != digit_char(b),
        digit_char(a) != '-',
{
}

proof fn nat_digits_long(n: nat)
    ensures
        nat_digits(n).len() >= 1,
        n >= 10 ==> nat_digits(n).len() >= 2,
        nat_digits(n)[0] != '-',
    decreases n,
{
    if n >= 10 {
        nat_digits_long(n / 10);
        assert(nat_digits(n)[0] == nat_digits(n / 10)[0]);
    } else {
        digit_chars_differ(n as int, if n == 0 { 1 } else { 0 });
    }
}

proof fn nat_digits_injective(a: nat, b: nat)
    requires
        nat_digits(a) == nat_digits(b),
    ensures
        a == b,
    decreases a,
{
    nat_digits_long(a);
    nat_digits_long(b);
    if a < 10 && b < 10 {
        if a != b {
            digit_chars_differ(a as int, b as int);
            assert(nat_digits(a)[0] != nat_digits(b)[0]);
        }
    } else if a >= 10 && b >= 10 {
        let da = nat_digits(a);
        assert(da.last() == digit_char((a % 10) as int));
        assert(nat_digits(b).last() == digit_char((b % 10) as int));
        if a % 10 != b % 10 {
            digit_chars_differ((a % 10) as int, (b % 10) as int);
        }
        assert(nat_digits(a / 10) =~= da.drop_last());
        assert(nat_digits(b / 10) =~= nat_digits(b).drop_last());
        nat_digits_injective(a / 10, b / 10);
    } else {
        assert(nat_digits(a).len() != nat_digits(b).len());
    }
}

/// Distinct integers are written differently in decimal.
pub proof fn decimal_injective(a: int, b: int)
    requires
        decimal(a) == decimal(b),
    ensures
        a == b,
{
    if a < 0 && b < 0 {
        assert(nat_digits((-a) as nat) =~= decimal(a).drop_first());
        assert(nat_digits((-b) as nat) =~= decimal(b).drop_first());
        nat_digits_injective((-a) as nat, (-b) as nat);
    } else if a >= 0 && b >= 0 {
        nat_digits_injective(a as nat, b as nat);
    } else if a < 0 {
        nat_digits_long(b as nat);
        assert(decimal(a)[0] == '-');
    } else {
        nat_digits_long(a as nat);
        assert(decimal(b)[0] == '-');
    }
}

/// The "not found" messages of two different ids differ: each names its id.
pub proof fn not_found_message_names_the_id(a: i32, b: i32)
    requires
        a != b,
    ensures
        todo_not_found_text(a) != todo_not_found_text(b),
{
    let p = "Todo with id \""@;
    let s = "\" not found"@;
    if todo_not_found_text(a) == todo_not_found_text(b) {
        let ta = todo_not_found_text(a);
        let tb = todo_not_found_text(b);
        assert(decimal(a as int) =~= ta.subrange(p.len() as int, ta.len() - s.len()));
        assert(decimal(b as int) =~= tb.subrange(p.len() as int, tb.len() - s.len()));
        decimal_injective(a as int, b as int);
    }
}

proof fn listing_counts(rows: Seq<TodoView>, table: Map<i32, TodoView>, v: TodoView)
    requires
        lists_table(rows, table),
    ensures
        rows.to_multiset().count(v) == if table.contains_key(v.id) && table[v.id] == v {
            1nat
        } else {
            0nat
        },
{
    broadcast use vstd::seq_lib::group_to_multiset_ensures;

    assert(rows.no_duplicates()) by {
        assert forall|i: int, j: int| 0 <= i < rows.len() && 0 <= j < rows.len() && i != j implies rows[i]
            != rows[j] by {
            if i < j {
                assert(rows[i].id < rows[j].id);
            } else {
                assert(rows[j].id < rows[i].id);
            }
        }
    }
    rows.lemma_multiset_has_no_duplicates();
    if table.contains_key(v.id) && table[v.id] == v {
        let i = choose|i: int| 0 <= i < rows.len() && #[trigger] rows[i].id == v.id;
        assert(rows[i] == v);
        assert(rows.contains(v));
    } else {
        if rows.contains(v) {
            let i = choose|i: int| 0 <= i < rows.len() && rows[i] == v;
            assert(table.contains_key(rows[i].id));
        }
    }
}

/// Listing after a create gives what listing before it gave, plus the
/// created todo (as a multiset; both listings are in id order).
pub proof fn list_after_create_adds_it(
    t0: Map<i32, TodoView>,
    listed_before: Result<Vec<TodoRow>, DbError>,
    t1: Map<i32, TodoView>,
    title: Seq<char>,
    created: Result<TodoRow, DbError>,
    t2: Map<i32, TodoView>,
    listed_after: Result<Vec<TodoRow>, DbError>,
    t3: Map<i32, TodoView>,
)
    requires
        select_all_allows(t0, listed_before, t1),
        insert_allows(t1, title, created, t2),
        select_all_allows(t2, listed_after, t3),
        listed_before is Ok,
        created is Ok,
        listed_after is Ok,
    ensures
        list_reply(listed_after) == Reply::Many(Status::Okay, rows_view(listed_after->Ok_0@)),
        rows_view(listed_after->Ok_0@).to_multiset() == rows_view(
            listed_before->Ok_0@,
        ).to_multiset().insert(created->Ok_0@),
{
    broadcast use vstd::multiset::group_multiset_axioms;

    let before = rows_view(listed_before->Ok_0@);
    let after = rows_view(listed_after->Ok_0@);
    let c = created->Ok_0@;
    assert forall|v: TodoView| #[trigger]
        after.to_multiset().count(v) == before.to_multiset().insert(c).count(v) by {
        listing_counts(before, t1, v);
        listing_counts(after, t2, v);
    }
    assert(after.to_multiset() =~= before.to_multiset().insert(c));
}

/// A listing answers the todos in increasing order of id.
pub proof fn list_is_in_id_order(
    t: Map<i32, TodoView>,
    listed: Result<Vec<TodoRow>, DbError>,
    after: Map<i32, TodoView>,
)
    requires
        select_all_allows(t, listed, after),
        listed is Ok,
    ensures
        list_reply(listed) == Reply::Many(Status::Okay, rows_view(listed->Ok_0@)),
        forall|i: int, j: int|
            0 <= i < j < listed->Ok_0@.len() ==> #[trigger] rows_view(listed->Ok_0@)[i].id
                < #[trigger] rows_view(listed->Ok_0@)[j].id,
{
}

/// Each status has its standard HTTP code; the success statuses are exactly
/// the 2xx ones, and the error statuses are client (4xx) or server (5xx)
/// errors as their names say.
pub proof fn status_codes_are_standard(s: Status)
    ensures
        Status::Okay.code_of() == 200,
        Status::Created.code_of() == 201,
        Status::NoContent.code_of() == 204,
        Status::BadRequest.code_of() == 400,
        Status::NotFound.code_of() == 404,
        Status::InternalServerError.code_of() == 500,
        s.is_success() <==> (s is Okay || s is Created || s is NoContent),
        (s is BadRequest || s is NotFound) <==> 400 <= s.code_of() < 500,
        s is InternalServerError <==> 500 <= s.code_of() < 600,
{
}

/// A bad request is answered 400, a missing todo 404 and an internal error
/// 500, whatever the message; the message is the one the error carries.
pub proof fn api_error_statuses(m: String)
    ensures
        (ApiError::BadRequest(m))@.status() == Status::BadRequest,
        (ApiError::NotFound(m))@.status() == Status::NotFound,
        (ApiError::InternalError(m))@.status() == Status::InternalServerError,
        (ApiError::BadRequest(m))@.status().code_of() == 400,
        (ApiError::NotFound(m))@.status().code_of() == 404,
        (ApiError::InternalError(m))@.status().code_of() == 500,
        (ApiError::BadRequest(m))@.message() == m@,
        (ApiError::NotFound(m))@.message() == m@,
        (ApiError::InternalError(m))@.message() == m@,
{
}

/// Each statement binds exactly the values it carries, in the order of its
/// SQL parameters: an update binds the id, the body's title and the body's
/// completion, unchanged.
pub proof fn statement_parameters(id: i32, title: String, new_title: Option<String>, completed: Option<bool>)
    ensures
        (Statement::InsertTodo { title }).param_list() == seq![Param::Text(title)],
        Statement::SelectTodos.param_list() == Seq::<Param>::empty(),
        (Statement::SelectTodo { id }).param_list() == seq![Param::Int(id)],
        (Statement::UpdateTodo { id, title: new_title, completed }).param_list() == seq![
            Param::Int(id),
            Param::MaybeText(new_title),
            Param::MaybeBool(completed),
        ],
        (Statement::DeleteTodo { id }).param_list() == seq![Param::Int(id)],
{
}

/// Updating an existing todo with a completion sets it to exactly that
/// completion (marking it not completed too), keeps its id, and sets the
/// title when one is given and keeps it otherwise.
pub proof fn update_sets_what_the_body_gives(
    t0: Map<i32, TodoView>,
    id: i32,
    title: Option<String>,
    completed: Option<bool>,
    out: Result<TodoRow, DbError>,
    t1: Map<i32, TodoView>,
)
    requires
        t0.contains_key(id),
        update_params_allow(
            t0,
            (Statement::UpdateTodo { id, title, completed }).param_list(),
            out,
            t1,
        ),
        out is Ok,
    ensures
        update_reply(id, out) matches Reply::One(s, v) && s == Status::Okay && v.id == t0[id].id
            && (completed matches Some(c) ==> v.completed == c) && (completed is None
            ==> v.completed == t0[id].completed) && (title matches Some(t) ==> v.title == t@)
            && (title is None ==> v.title == t0[id].title),
{
}

/// The environments are named `development`, `test` and `production`, and
/// these are the only names read as an environment.
pub proof fn environment_names(name: Seq<char>, env: AppEnv)
    ensures
        AppEnv::Development.label() == "development"@,
        AppEnv::Test.label() == "test"@,
        AppEnv::Production.label() == "production"@,
        AppEnv::named("development"@) == Some(AppEnv::Development),
        AppEnv::named("test"@) == Some(AppEnv::Test),
        AppEnv::named("production"@) == Some(AppEnv::Production),
        AppEnv::named(name) == Some(AppEnv::Development) ==> name == "development"@,
        AppEnv::named(name) == Some(AppEnv::Test) ==> name == "test"@,
        AppEnv::named(name) == Some(AppEnv::Production) ==> name == "production"@,
        AppEnv::named(name) is None <==> (name != "development"@ && name != "test"@ && name
            != "production"@),
{
    reveal_strlit("development");
    reveal_strlit("test");
    reveal_strlit("production");
    assert("test"@.len() != "development"@.len());
    assert("production"@.len() != "development"@.len());
    assert("production"@.len() != "test"@.len());
}

/// The environment file of each environment is `development.yaml`,
/// `test.yaml` or `production.yaml`.
pub proof fn environment_files()
    ensures
        AppEnv::Development.label() + ".yaml"@ == "development.yaml"@,
        AppEnv::Test.label() + ".yaml"@ == "test.yaml"@,
        AppEnv::Production.label() + ".yaml"@ == "production.yaml"@,
{
    reveal_strlit("development");
    reveal_strlit("test");
    reveal_strlit("production");
    reveal_strlit(".yaml");
    reveal_strlit("development.yaml");
    reveal_strlit("test.yaml");
    reveal_strlit("production.yaml");
    assert(AppEnv::Development.label() + ".yaml"@ =~= "development.yaml"@);
    assert(AppEnv::Test.label() + ".yaml"@ =~= "test.yaml"@);
    assert(AppEnv::Production.label() + ".yaml"@ =~= "production.yaml"@);
}

/// Where the `i`-th hexadecimal digit (of 32) stands in the hyphenated text.
spec fn text_position(i: int) -> int {
    i + if i < 8 {
        0int
    } else if i < 12 {
        1int
    } else if i < 16 {
        2int
    } else if i < 20 {
        3int
    } else {
        4int
    }
}

proof fn hyphenated_digit(bytes: Seq<u8>, i: int)
    requires
        bytes.len() == 16,
        0 <= i < 32,
    ensures
        hyphenated(bytes).len() == 36,
        0 <= text_position(i) < 36,
        hyphenated(bytes)[text_position(i)] == hex_lower(nibble(bytes, i)),
{
}

proof fn hex_digit_byte(n: int)
    requires
        0 <= n < 16,
    ensures
        (hex_lower(n) as u8) as int == if n < 10 {
            n + 48
        } else {
            n + 87
        },
{
}

/// The text of a UUID names every one of its sixteen bytes: two UUIDs with
/// the same text (as header bytes) are the same UUID.
pub proof fn uuid_text_names_every_byte(a: Seq<u8>, b: Seq<u8>)
    requires
        a.len() == 16,
        b.len() == 16,
        ascii_bytes(hyphenated(a)) == ascii_bytes(hyphenated(b)),
    ensures
        a == b,
{
    assert forall|k: int| 0 <= k < 16 implies a[k] == b[k] by {
        hyphenated_digit(a, 2 * k);
        hyphenated_digit(b, 2 * k);
        hyphenated_digit(a, 2 * k + 1);
        hyphenated_digit(b, 2 * k + 1);
        let p = text_position(2 * k);
        let q = text_position(2 * k + 1);
        assert(ascii_bytes(hyphenated(a))[p] == ascii_bytes(hyphenated(b))[p]);
        assert(ascii_bytes(hyphenated(a))[q] == ascii_bytes(hyphenated(b))[q]);
        assert((2 * k) % 2 == 0 && (2 * k) / 2 == k);
        assert((2 * k + 1) % 2 == 1 && (2 * k + 1) / 2 == k);
        assert(nibble(a, 2 * k) == a[k] / 16 && nibble(b, 2 * k) == b[k] / 16);
        assert(nibble(a, 2 * k + 1) == a[k] % 16 && nibble(b, 2 * k + 1) == b[k] % 16);
        assert(ascii_bytes(hyphenated(a))[p] == hyphenated(a)[p] as u8);
        assert(ascii_bytes(hyphenated(b))[p] == hyphenated(b)[p] as u8);
        assert(ascii_bytes(hyphenated(a))[q] == hyphenated(a)[q] as u8);
        assert(ascii_bytes(hyphenated(b))[q] == hyphenated(b)[q] as u8);
        hex_digit_byte(nibble(a, 2 * k));
        hex_digit_byte(nibble(b, 2 * k));
        hex_digit_byte(nibble(a, 2 * k + 1));
        hex_digit_byte(nibble(b, 2 * k + 1));
        assert(nibble(a, 2 * k) == nibble(b, 2 * k));
        assert(nibble(a, 2 * k + 1) == nibble(b, 2 * k + 1));
    }
    assert(a =~= b);
}

/// Request ids made from different UUIDs differ: `request_id_from_uuid_bytes`
/// keeps every byte of the UUID it is given.
pub proof fn request_ids_of_different_uuids_differ(
    a: Seq<u8>,
    b: Seq<u8>,
    id_a: RequestId,
    id_b: RequestId,
)
    requires
        a.len() == 16,
        b.len() == 16,
        a != b,
        request_id_bytes(id_a) == ascii_bytes(hyphenated(a)),
        request_id_bytes(id_b) == ascii_bytes(hyphenated(b)),
    ensures
        request_id_bytes(id_a) != request_id_bytes(id_b),
{
    if request_id_bytes(id_a) == request_id_bytes(id_b) {
        uuid_text_names_every_byte(a, b);
    }
}

} // verus!
