//! What holds of the handlers over every table and every request.

use vstd::prelude::*;
use crate::carrera::CarreraView;
use crate::codec::{decoded, encoded, encoded_all, framed, text_member};
use crate::handlers::{path_id, route_of, Route};
use crate::id::{all_digits, decimal_digits, decimal_text, decimal_value, digits_of, id_value, is_digit};
use crate::json::{json_document, json_quoted};
use crate::request::RequestView;
use crate::response::{ResponseView, Status};
use crate::store::{find_row, has_row, lemma_find_row, lemma_ran_well_formed, served, well_formed, TableView};

verus! {

/// The one row with a given id stands where `find_row` finds it.
pub proof fn lemma_find_row_at(t: TableView, i: int)
    requires
        well_formed(t),
        0 <= i < t.rows.len(),
    ensures
        find_row(t.rows, t.rows[i].id->0, 0) == i,
{
    lemma_find_row(t.rows, t.rows[i].id->0, 0);
}

/// A create request with a body that decodes is answered with success. The
/// table then holds one row more, the last: it has the body's name and
/// key, and an id that no row had before. A listing leaves the table as it
/// is and returns exactly its rows.
pub proof fn lemma_create_then_list(t: TableView, create: RequestView, list: RequestView)
    requires
        well_formed(t),
        t.next_id < i32::MAX,
        route_of(create.method, create.path) == Route::Create,
        decoded(create.body) is Ok,
        route_of(list.method, list.path) == Route::GetAll,
    ensures
        served(t, create).1.status == Status::Success,
        well_formed(served(t, create).0),
        decoded(create.body) matches Ok(c) && ({
            let after = served(t, create).0;
            &&& after.rows == t.rows.push(CarreraView { id: Some(t.next_id), name: c.name, key: c.key })
            &&& forall|i: int| 0 <= i < t.rows.len() ==> (#[trigger] t.rows[i]).id != Some(t.next_id)
            &&& served(after, list).0 == after
            &&& served(after, list).1 == (ResponseView {
                status: Status::Success,
                body: encoded_all(after.rows),
            })
        }),
{
    if let Ok(c) = decoded(create.body) {
        lemma_ran_well_formed(
            t,
            crate::handlers::CommandView::Insert { name: c.name, key: c.key },
        );
    }
}

/// Where no row has the id that the path names, get-one and delete both
/// answer 404 and leave the table as it is.
pub proof fn lemma_absent_id(t: TableView, request: RequestView, id: int)
    requires
        well_formed(t),
        route_of(request.method, request.path) == Route::GetOne || route_of(
            request.method,
            request.path,
        ) == Route::Delete,
        path_id(request.path) == Some(id),
        forall|i: int| 0 <= i < t.rows.len() ==> (#[trigger] t.rows[i]).id != Some(id),
    ensures
        served(t, request).1.status == Status::NotFound,
        served(t, request).0 == t,
{
    lemma_find_row(t.rows, id, 0);
}

/// Where a row has the id that the path names, get-one answers 200 with
/// that row, encoded, and leaves the table as it is.
pub proof fn lemma_present_id(t: TableView, request: RequestView, i: int)
    requires
        well_formed(t),
        route_of(request.method, request.path) == Route::GetOne,
        0 <= i < t.rows.len(),
        path_id(request.path) == t.rows[i].id,
    ensures
        served(t, request).1 == (ResponseView {
            status: Status::Success,
            body: encoded(t.rows[i]),
        }),
        served(t, request).0 == t,
{
    lemma_find_row_at(t, i);
}

/// The record that a body decodes to has the text of the body's `name` and
/// `key`, and its encoding holds these two as JSON string literals.
pub proof fn lemma_encode_after_decode(body: Seq<char>)
    requires
        decoded(body) is Ok,
    ensures
        decoded(body) matches Ok(c) && json_document(body) matches Some(doc) && ({
            &&& text_member(doc, "name"@) == Some(c.name)
            &&& text_member(doc, "key"@) == Some(c.key)
            &&& encoded(c) == framed(None, json_quoted(c.name), json_quoted(c.key))
        }),
{
}

/// Serving an update a second time changes nothing: the table is as after
/// the first time, and so is the response.
pub proof fn lemma_update_twice(t: TableView, request: RequestView)
    requires
        well_formed(t),
        route_of(request.method, request.path) == Route::Update,
    ensures
        served(served(t, request).0, request) == served(t, request),
{
    let after = served(t, request).0;
    if let Some(id) = path_id(request.path) {
        if let Ok(c) = decoded(request.body) {
            lemma_find_row(t.rows, id, 0);
            lemma_find_row(after.rows, id, 0);
            if has_row(t.rows, id) {
                let p = find_row(t.rows, id, 0);
                let q = find_row(after.rows, id, 0);
                assert(after.rows[p].id == Some(id));
                if q < p {
                    assert(after.rows[q] == t.rows[q]);
                }
                assert(q == p);
                assert(after.rows.update(p, CarreraView { id: Some(id), name: c.name, key: c.key })
                    =~= after.rows);
            }
        }
    }
}

/// The first delete of a row that is there answers 200, and the same delete
/// right after it answers 404.
pub proof fn lemma_delete_twice(t: TableView, request: RequestView, i: int)
    requires
        well_formed(t),
        route_of(request.method, request.path) == Route::Delete,
        0 <= i < t.rows.len(),
        path_id(request.path) == t.rows[i].id,
    ensures
        served(t, request).1.status == Status::Success,
        served(served(t, request).0, request).1.status == Status::NotFound,
{
    let id = t.rows[i].id->0;
    let after = served(t, request).0;
    lemma_find_row_at(t, i);
    lemma_find_row(after.rows, id, 0);
    let q = find_row(after.rows, id, 0);
    if q < after.rows.len() {
        let k = if q < i { q } else { q + 1 };
        assert(after.rows[q] == t.rows[k]);
        assert(t.rows[k].id == t.rows[i].id);
        if k < i {
            assert(t.rows[k].id != t.rows[i].id);
        } else {
            assert(t.rows[i].id != t.rows[k].id);
        }
    }
}

/// The digits written for a number are digits, at least one, and are worth
/// that number.
pub proof fn lemma_decimal_digits(n: nat)
    ensures
        decimal_digits(n).len() > 0,
        all_digits(decimal_digits(n)),
        decimal_value(decimal_digits(n)) == n,
    decreases n,
{
    let s = decimal_digits(n);
    if n < 10 {
        assert(s.drop_last() =~= Seq::<char>::empty());
        assert(decimal_value(s.drop_last()) == 0);
        assert(is_digit(s[0]));
    } else {
        lemma_decimal_digits(n / 10);
        assert(s.drop_last() =~= decimal_digits(n / 10));
        assert(is_digit(s.last()));
        assert forall|i: int| 0 <= i < s.len() implies is_digit(#[trigger] s[i]) by {
            if i < s.len() - 1 {
                assert(s[i] == decimal_digits(n / 10)[i]);
            }
        }
    }
}

/// An id that was written in decimal is read back as the same id.
pub proof fn lemma_id_text_round_trip(n: int)
    requires
        i32::MIN <= n <= i32::MAX,
    ensures
        id_value(decimal_text(n)) == Some(n),
{
    let s = decimal_text(n);
    if n < 0 {
        lemma_decimal_digits((-n) as nat);
        assert(digits_of(s) =~= decimal_digits((-n) as nat));
    } else {
        lemma_decimal_digits(n as nat);
        assert(is_digit(s[0]));
        assert(digits_of(s) == s);
    }
}

} // verus!
