//! How each endpoint frames its answer: the HTTP status code, the `status`
//! word, the elapsed time in milliseconds, and the data or the error text.
use vstd::prelude::*;

verus! {

/// The character of the decimal digit `d`.
pub open spec fn digit_char(d: int) -> char {
    (d + 48) as char
}

/// The decimal digits of `n`, most significant first, without leading zeros.
pub open spec fn decimal(n: nat) -> Seq<char>
    decreases n,
{
    if n < 10 {
        seq![digit_char(n as int)]
    } else {
        decimal(n / 10).push(digit_char((n % 10) as int))
    }
}

/// The number that a string of decimal digits denotes.
pub open spec fn digits_value(s: Seq<char>) -> int
    decreases s.len(),
{
    if s.len() == 0 {
        0
    } else {
        digits_value(s.drop_last()) * 10 + (s.last() as int - 48)
    }
}

/// Whether `c` is one of `0` to `9`.
pub open spec fn is_digit(c: char) -> bool {
    48 <= c as int <= 57
}

/// The text of the elapsed time of `ms` milliseconds.
pub open spec fn response_time_text(ms: nat) -> Seq<char> {
    decimal(ms) + " ms"@
}

/// The text of one decimal digit.
fn digit_str(d: u8) -> (s: &'static str)
    requires
        d < 10,
    ensures
        s@ == seq![digit_char(d as int)],
{
    proof {
        reveal_strlit("0");
        reveal_strlit("1");
        reveal_strlit("2");
        reveal_strlit("3");
        reveal_strlit("4");
        reveal_strlit("5");
        reveal_strlit("6");
        reveal_strlit("7");
        reveal_strlit("8");
        reveal_strlit("9");
    }
    let s = match d {
        0 => "0",
        1 => "1",
        2 => "2",
        3 => "3",
        4 => "4",
        5 => "5",
        6 => "6",
        7 => "7",
        8 => "8",
        _ => "9",
    };
    assert(s@ =~= seq![digit_char(d as int)]);
    s
}

/// Writes `n` in decimal.
pub fn decimal_string(n: u128) -> (s: String)
    ensures
        s@ == decimal(n as nat),
    decreases n,
{
    if n < 10 {
        String::from_str(digit_str(n as u8))
    } else {
        let mut s = decimal_string(n / 10);
        s.append(digit_str((n % 10) as u8));
        s
    }
}


/// Decimal writing is faithful: the text of `n` is made of digits, starts
/// with a digit other than `0` unless `n` is `0`, and denotes `n`.
pub proof fn lemma_decimal_denotes(n: nat)
    ensures
        decimal(n).len() > 0,
        forall|i: int| 0 <= i < decimal(n).len() ==> is_digit(#[trigger] decimal(n)[i]),
        n > 0 ==> decimal(n)[0] != '0',
        digits_value(decimal(n)) == n,
    decreases n,
{
    assert(digit_char((n % 10) as int) as int == (n % 10) + 48);
    if n < 10 {
        assert(decimal(n).drop_last() =~= Seq::<char>::empty());
        assert(digits_value(decimal(n)) == digits_value(decimal(n).drop_last()) * 10 + (decimal(n).last() as int - 48));
    } else {
        lemma_decimal_denotes(n / 10);
        let s = decimal(n);
        assert(s.drop_last() =~= decimal(n / 10));
        assert forall|i: int| 0 <= i < s.len() implies is_digit(#[trigger] s[i]) by {
            if i < s.len() - 1 {
                assert(s[i] == decimal(n / 10)[i]);
            }
        }
        assert(s[0] == decimal(n / 10)[0]);
        assert(s.last() == digit_char((n % 10) as int));
        assert(digits_value(s) == digits_value(s.drop_last()) * 10 + (s.last() as int - 48));
        assert(n == (n / 10) * 10 + n % 10);
    }
}

/// Law: the elapsed-time text of `ms` milliseconds is the decimal digits of
/// `ms` (no leading zero, denoting `ms`) followed by a space and `ms`,
/// for every `ms`.
pub proof fn lemma_response_time_text(ms: nat)
    ensures
        ({
            let t = response_time_text(ms);
            let n = t.len() as int;
            &&& n >= 4
            &&& t[n - 3] == ' ' && t[n - 2] == 'm' && t[n - 1] == 's'
            &&& forall|i: int| 0 <= i < n - 3 ==> 48 <= #[trigger] t[i] as int <= 57
            &&& ms > 0 ==> t[0] != '0'
            &&& digits_value(t.subrange(0, n - 3)) == ms
        }),
{
    reveal_strlit(" ms");
    lemma_decimal_denotes(ms);
    let d = decimal(ms);
    let t = response_time_text(ms);
    assert(t.subrange(0, t.len() - 3) =~= d);
    assert forall|i: int| 0 <= i < t.len() - 3 implies 48 <= #[trigger] t[i] as int <= 57 by {
        assert(t[i] == d[i]);
        assert(is_digit(d[i]));
    }
}

/// Status code of an answer that carries data.
pub const OK_CODE: u16 = 200;

/// Status code of an answer that carries an error.
pub const BAD_REQUEST_CODE: u16 = 400;

/// An endpoint's answer: the HTTP status code, the `status` word, the
/// elapsed time, and either the data or the error text.
pub struct Envelope<T> {
    pub code: u16,
    pub status: String,
    pub response_time: String,
    pub body: Result<T, String>,
}

/// The `status` word of an answer.
pub open spec fn status_word(ok: bool) -> Seq<char> {
    if ok {
        "ok"@
    } else {
        "error"@
    }
}

/// Law: an answer with data has status code 200 and the word `ok`; an answer
/// with an error has status code 400 and the word `error`.
pub proof fn lemma_answer_words()
    ensures
        OK_CODE == 200,
        BAD_REQUEST_CODE == 400,
        status_word(true) == "ok"@,
        status_word(false) == "error"@,
{
}

/// Writes an elapsed time of `ms` milliseconds as `"<ms> ms"`.
pub fn response_time(ms: u128) -> (s: String)
    ensures
        s@ == response_time_text(ms as nat),
{
    let mut s = decimal_string(ms);
    s.append(" ms");
    s
}

/// Frames the outcome of a query that took `elapsed_ms` milliseconds: data
/// is answered with status `200` and the word `ok`, an error with status
/// `400`, the word `error` and the error text.
pub fn respond<T>(outcome: Result<T, String>, elapsed_ms: u128) -> (e: Envelope<T>)
    ensures
        e.code == (if outcome is Ok { OK_CODE } else { BAD_REQUEST_CODE }),
        e.status@ == status_word(outcome is Ok),
        e.response_time@ == response_time_text(elapsed_ms as nat),
        e.body == outcome,
{
    let response_time = response_time(elapsed_ms);
    match outcome {
        Ok(data) => Envelope {
            code: OK_CODE,
            status: String::from_str("ok"),
            response_time,
            body: Ok(data),
        },
        Err(err) => Envelope {
            code: BAD_REQUEST_CODE,
            status: String::from_str("error"),
            response_time,
            body: Err(err),
        },
    }
}

} // verus!
