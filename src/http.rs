//! How the front end maps requests and results: the id in a path, the status
//! code of each outcome, and the body of an error response.
use vstd::prelude::*;
use vstd::string::StringSliceAdditionalSpecFns;
use crate::todo::TodoError;

verus! {

/// The five operations that the front end exposes.
#[derive(PartialEq, Eq, Structural, Clone, Copy, Debug)]
pub enum Operation {
    List,
    Create,
    Read,
    Update,
    Delete,
}

pub const STATUS_OK: u16 = 200;

pub const STATUS_CREATED: u16 = 201;

pub const STATUS_NO_CONTENT: u16 = 204;

pub const STATUS_BAD_REQUEST: u16 = 400;

pub const STATUS_NOT_FOUND: u16 = 404;

pub const STATUS_INTERNAL_ERROR: u16 = 500;

pub open spec fn success_status_spec(op: Operation) -> u16 {
    match op {
        Operation::Create => 201,
        Operation::Delete => 204,
        _ => 200,
    }
}

pub open spec fn error_status_spec(e: TodoError) -> u16 {
    match e {
        TodoError::NotFound => 404,
        TodoError::Validation => 400,
        TodoError::Persistence => 500,
    }
}

/// The status of a successful response to the operation.
pub fn success_status(op: Operation) -> (r: u16)
    ensures
        r == success_status_spec(op),
{
    match op {
        Operation::Create => STATUS_CREATED,
        Operation::Delete => STATUS_NO_CONTENT,
        _ => STATUS_OK,
    }
}

/// The status of a response that reports the error.
pub fn error_status(e: TodoError) -> (r: u16)
    ensures
        r == error_status_spec(e),
{
    match e {
        TodoError::NotFound => STATUS_NOT_FOUND,
        TodoError::Validation => STATUS_BAD_REQUEST,
        TodoError::Persistence => STATUS_INTERNAL_ERROR,
    }
}

/// The status of the response to an operation that ended with `r`.
pub fn status_of<T>(op: Operation, r: &Result<T, TodoError>) -> (s: u16)
    ensures
        s == match r {
            Ok(_) => success_status_spec(op),
            Err(e) => error_status_spec(*e),
        },
{
    match r {
        Ok(_) => success_status(op),
        Err(e) => error_status(*e),
    }
}

pub open spec fn error_body_spec(e: TodoError) -> Seq<char> {
    match e {
        TodoError::NotFound => "{\"error\":\"not found\"}"@,
        TodoError::Validation => "{\"error\":\"invalid request\"}"@,
        TodoError::Persistence => "{\"error\":\"storage failure\"}"@,
    }
}

/// The JSON body of a response that reports the error.
pub fn error_body(e: TodoError) -> (r: &'static str)
    ensures
        r@ == error_body_spec(e),
{
    match e {
        TodoError::NotFound => "{\"error\":\"not found\"}",
        TodoError::Validation => "{\"error\":\"invalid request\"}",
        TodoError::Persistence => "{\"error\":\"storage failure\"}",
    }
}

pub open spec fn is_digit(b: u8) -> bool {
    48 <= b <= 57
}

pub open spec fn all_digits(b: Seq<u8>) -> bool {
    forall|i: int| 0 <= i < b.len() ==> is_digit(#[trigger] b[i])
}

/// The number that a run of decimal digits writes.
pub open spec fn digits_value(b: Seq<u8>) -> int
    decreases b.len(),
{
    if b.len() == 0 {
        0
    } else {
        digits_value(b.drop_last()) * 10 + (b.last() - 48)
    }
}

/// An id in a path is a non-empty run of decimal digits whose value fits in
/// an `i64`.
pub open spec fn valid_id_text(b: Seq<u8>) -> bool {
    &&& b.len() > 0
    &&& all_digits(b)
    &&& digits_value(b) <= i64::MAX
}

proof fn lemma_digits_value_grows(b: Seq<u8>, k: int)
    requires
        all_digits(b),
        0 <= k <= b.len(),
    ensures
        0 <= digits_value(b.take(k)) <= digits_value(b),
    decreases b.len(),
{
    if b.len() > 0 {
        let p = b.drop_last();
        assert(all_digits(p)) by {
            assert forall|i: int| 0 <= i < p.len() implies is_digit(#[trigger] p[i]) by {
                assert(p[i] == b[i]);
            }
        }
        assert(is_digit(b[b.len() - 1]));
        if k == b.len() {
            assert(b.take(k) =~= b);
            lemma_digits_value_grows(p, 0);
        } else {
            assert(p.take(k) =~= b.take(k));
            lemma_digits_value_grows(p, k);
        }
    } else {
        assert(b.take(k) =~= b);
    }
}

/// Reads the id in a path segment; anything but a non-empty run of decimal
/// digits that fits in an `i64` is a malformed request.
pub fn parse_id(segment: &str) -> (r: Result<i64, TodoError>)
    ensures
        valid_id_text(segment.spec_bytes()) ==> r == Ok::<i64, TodoError>(
            digits_value(segment.spec_bytes()) as i64,
        ),
        !valid_id_text(segment.spec_bytes()) ==> r == Err::<i64, TodoError>(
            TodoError::Validation,
        ),
{
    let b = segment.as_bytes();
    let n = b.len();
    if n == 0 {
        return Err(TodoError::Validation);
    }
    let mut i: usize = 0;
    while i < n
        invariant
            n == b@.len(),
            b@ == segment.spec_bytes(),
            0 <= i <= n,
            all_digits(b@.take(i as int)),
        decreases n - i,
    {
        if b[i] < 48 || b[i] > 57 {
            assert(!all_digits(b@));
            return Err(TodoError::Validation);
        }
        assert(b@.take(i + 1) =~= b@.take(i as int).push(b@[i as int]));
        i = i + 1;
    }
    assert(b@.take(n as int) =~= b@);
    let mut acc: i64 = 0;
    let mut j: usize = 0;
    while j < n
        invariant
            n == b@.len(),
            b@ == segment.spec_bytes(),
            all_digits(b@),
            0 <= j <= n,
            acc as int == digits_value(b@.take(j as int)),
        decreases n - j,
    {
        let d = (b[j] - 48) as i64;
        let ghost t = b@.take(j + 1);
        assert(t.drop_last() =~= b@.take(j as int));
        assert(t.last() == b@[j as int]);
        if acc > (i64::MAX - d) / 10 {
            proof {
                lemma_digits_value_grows(b@, j + 1);
                assert(is_digit(b@[j as int]));
            }
            return Err(TodoError::Validation);
        }
        proof {
            lemma_digits_value_grows(b@, j as int);
            assert(0 <= acc * 10 + d <= i64::MAX) by (nonlinear_arith)
                requires
                    0 <= acc,
                    0 <= d <= 9,
                    acc <= (i64::MAX - d) / 10,
            ;
        }
        acc = acc * 10 + d;
        j = j + 1;
    }
    assert(b@.take(n as int) =~= b@);
    Ok(acc)
}

} // verus!
