//! JSON text of rows and of the response envelope
//! `{"success":..,"data":..}` / `{"success":false,"message":..}`.
//!
//! Strings and integers are encoded by serde_json; the objects, arrays and
//! envelopes around them are framed here.

use vstd::prelude::*;
use vstd::string::StringExecFns;
use crate::task::{TaskModel, TaskRow, rows_view};

verus! {

#[verifier::external_type_specification]
#[verifier::external_body]
pub struct ExJsonError(serde_json::Error);

/// The JSON string literal that serde_json writes for a text: quoted, with
/// its escapes.
pub uninterp spec fn json_string(s: Seq<char>) -> Seq<char>;

/// The character of one decimal digit.
pub open spec fn digit_char(d: nat) -> char {
    if d == 0 { '0' }
    else if d == 1 { '1' }
    else if d == 2 { '2' }
    else if d == 3 { '3' }
    else if d == 4 { '4' }
    else if d == 5 { '5' }
    else if d == 6 { '6' }
    else if d == 7 { '7' }
    else if d == 8 { '8' }
    else { '9' }
}

/// The decimal digits of a natural number, most significant first.
pub open spec fn digits(n: nat) -> Seq<char>
    decreases n,
{
    if n < 10 {
        seq![digit_char(n)]
    } else {
        digits(n / 10).push(digit_char(n % 10))
    }
}

/// An integer as a JSON number: its digits, after a minus sign if negative.
pub open spec fn decimal(n: int) -> Seq<char> {
    if n < 0 {
        seq!['-'] + digits((-n) as nat)
    } else {
        digits(n as nat)
    }
}

/// A nullable integer as JSON: `null` or its number.
pub open spec fn nullable_int_text(p: Option<i32>) -> Seq<char> {
    match p {
        Some(v) => decimal(v as int),
        None => "null"@,
    }
}

/// A row as a JSON object with the keys `id`, `name` and `priority`.
pub open spec fn row_text(r: TaskModel) -> Seq<char> {
    "{\"id\":"@ + decimal(r.id) + ",\"name\":"@ + json_string(r.name) + ",\"priority\":"@
        + nullable_int_text(r.priority) + "}"@
}

/// The row objects of a sequence of rows, separated by commas.
pub open spec fn items_text(s: Seq<TaskModel>) -> Seq<char>
    decreases s.len(),
{
    if s.len() == 0 {
        Seq::empty()
    } else if s.len() == 1 {
        row_text(s[0])
    } else {
        items_text(s.drop_last()) + ","@ + row_text(s.last())
    }
}

/// A sequence of rows as a JSON array.
pub open spec fn rows_text(s: Seq<TaskModel>) -> Seq<char> {
    "["@ + items_text(s) + "]"@
}

/// The object `{"id":..}` that a create answers with.
pub open spec fn id_text(id: int) -> Seq<char> {
    "{\"id\":"@ + decimal(id) + "}"@
}

/// The success envelope, with its data if it carries any.
pub open spec fn success_text(data: Option<Seq<char>>) -> Seq<char> {
    match data {
        Some(d) => "{\"success\":true,\"data\":"@ + d + "}"@,
        None => "{\"success\":true}"@,
    }
}

/// The failure envelope, carrying a message.
pub open spec fn failure_text(message: Seq<char>) -> Seq<char> {
    "{\"success\":false,\"message\":"@ + json_string(message) + "}"@
}

/// Relies on serde_json::to_string for a `str`: it writes the quoted,
/// escaped literal into a `Vec`, which cannot fail, and a `str` always
/// serializes.
#[verifier::external_body]
fn encode_str(s: &str) -> (r: Result<String, serde_json::Error>)
    ensures
        r is Ok,
        r is Ok ==> r->Ok_0@ == json_string(s@),
{
    serde_json::to_string(s)
}

/// Relies on serde_json::to_string for an `i32`: the number in decimal,
/// with a leading `-` when negative; writing into a `Vec` cannot fail.
#[verifier::external_body]
fn encode_i32(n: i32) -> (r: Result<String, serde_json::Error>)
    ensures
        r is Ok,
        r is Ok ==> r->Ok_0@ == decimal(n as int),
{
    serde_json::to_string(&n)
}

/// A text as a JSON string literal.
pub fn json_text(s: &str) -> (r: String)
    ensures
        r@ == json_string(s@),
{
    match encode_str(s) {
        Ok(t) => t,
        Err(_) => String::new(),
    }
}

/// An integer as a JSON number.
pub fn json_int(n: i32) -> (r: String)
    ensures
        r@ == decimal(n as int),
{
    match encode_i32(n) {
        Ok(t) => t,
        Err(_) => String::new(),
    }
}

/// A nullable integer as JSON.
pub fn json_nullable_int(p: Option<i32>) -> (r: String)
    ensures
        r@ == nullable_int_text(p),
{
    match p {
        Some(v) => json_int(v),
        None => String::from_str("null"),
    }
}

/// A row as a JSON object.
pub fn row_json(row: &TaskRow) -> (r: String)
    ensures
        r@ == row_text(row@),
{
    let mut out = String::from_str("{\"id\":");
    out.append(json_int(row.id).as_str());
    out.append(",\"name\":");
    out.append(json_text(row.name.as_str()).as_str());
    out.append(",\"priority\":");
    out.append(json_nullable_int(row.priority).as_str());
    out.append("}");
    out
}

/// Rows as a JSON array of row objects, in order.
pub fn rows_json(rows: &Vec<TaskRow>) -> (r: String)
    ensures
        r@ == rows_text(rows_view(rows@)),
{
    let ghost s = rows_view(rows@);
    let mut items = String::new();
    let mut i: usize = 0;
    while i < rows.len()
        invariant
            i <= rows@.len(),
            s == rows_view(rows@),
            items@ == items_text(s.take(i as int)),
        decreases rows@.len() - i,
    {
        assert(s.take(i as int + 1).drop_last() =~= s.take(i as int));
        assert(s.take(i as int + 1).last() == rows@[i as int]@);
        if i > 0 {
            items.append(",");
        } else {
            assert(s.take(0) =~= Seq::<TaskModel>::empty());
            assert(items@ =~= Seq::<char>::empty());
        }
        items.append(row_json(&rows[i]).as_str());
        proof {
            if i > 0 {
                assert(items@ =~= items_text(s.take(i as int)) + ","@ + row_text(s.take(i as int + 1).last()));
            } else {
                assert(items@ =~= row_text(s.take(1)[0]));
            }
        }
        i = i + 1;
    }
    assert(s.take(i as int) =~= s);
    let mut out = String::from_str("[");
    out.append(items.as_str());
    out.append("]");
    assert(out@ =~= rows_text(s));
    out
}

/// The success envelope, with data already in JSON.
pub fn success_json(data: Option<&str>) -> (r: String)
    ensures
        r@ == success_text(
            match data {
                Some(d) => Some(d@),
                None => None,
            },
        ),
{
    match data {
        Some(d) => {
            let mut out = String::from_str("{\"success\":true,\"data\":");
            out.append(d);
            out.append("}");
            out
        },
        None => String::from_str("{\"success\":true}"),
    }
}

/// The failure envelope for a message.
pub fn failure_json(message: &str) -> (r: String)
    ensures
        r@ == failure_text(message@),
{
    let mut out = String::from_str("{\"success\":false,\"message\":");
    out.append(json_text(message).as_str());
    out.append("}");
    out
}

} // verus!
