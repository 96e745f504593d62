//! From the answer of the price service to a price in cents.
//!
//! The service answers with a JSON object that holds the price in dollars
//! under the key `USD`. The price is kept as a whole number of cents.

use vstd::prelude::*;
use vstd::string::*;
use vstd::utf8::valid_utf8;

verus! {

/// A JSON number as the parser hands it out: the digits before the point,
/// the digits behind it with their count, the exponent and the sign.
#[derive(Clone, Copy, Debug, PartialEq, Eq)]
pub struct NumberValue {
    pub integer: u64,
    pub fraction: u64,
    pub fraction_length: u32,
    pub exponent: i32,
    pub negative: bool,
}

/// What a member of a JSON object holds, as far as a price is concerned.
#[derive(Clone, Copy, Debug, PartialEq, Eq)]
pub enum Member {
    /// A number.
    Number(NumberValue),
    /// Anything else.
    Other,
}

/// A JSON document, as far as a price is concerned.
#[derive(Clone, Debug, PartialEq, Eq)]
pub enum Document {
    /// An object, with its members in the order they were written in.
    Object(Vec<(Vec<char>, Member)>),
    /// Anything else.
    Other,
}

/// A JSON document as plain values.
pub ghost enum DocumentView {
    Object(Seq<(Seq<char>, Member)>),
    Other,
}

impl View for Document {
    type V = DocumentView;

    open spec fn view(&self) -> DocumentView {
        match self {
            Document::Object(members) => DocumentView::Object(
                Seq::new(members@.len(), |i: int| (members@[i].0@, members@[i].1)),
            ),
            Document::Other => DocumentView::Other,
        }
    }
}

/// What went wrong with a request.
#[derive(Clone, Copy, Debug, PartialEq, Eq)]
pub enum HttpError {
    /// The deadline passed before the answer was there.
    DeadlineReached,
    /// The request could not be sent, or the answer not be read.
    IoError,
    /// The answer is not one that can be used.
    Unknown,
}

/// How a request ended.
#[derive(Clone, Debug, PartialEq, Eq)]
pub enum HttpOutcome {
    /// The request could not be sent.
    NotSent,
    /// The deadline passed before the answer was there.
    TimedOut,
    /// Waiting for the answer failed.
    Failed(HttpError),
    /// The answer: its status code and its body.
    Response { code: u16, body: Vec<u8> },
}

/// The address that the price is fetched from.
pub const PRICE_URL: &'static str = "https://min-api.cryptocompare.com/data/price?fsym=BTC&tsyms=USD";

/// How long a request may take, in milliseconds.
pub const FETCH_TIMEOUT_MS: u64 = 6_000;

/// A byte that is an ASCII digit.
pub open spec fn is_digit(b: u8) -> bool {
    48 <= b <= 57
}

/// All bytes from `from` up to `to` are digits.
pub open spec fn digits_between(s: Seq<u8>, from: int, to: int) -> bool {
    forall|k: int| from <= k < to ==> is_digit(#[trigger] s[k])
}

/// What stands at `at` would be read as an exponent: it follows an `e` or
/// `E`, with or without a sign between.
pub open spec fn after_exponent_mark(s: Seq<u8>, at: int) -> bool {
    ||| at >= 1 && (s[at - 1] == 101 || s[at - 1] == 69)
    ||| at >= 2 && (s[at - 1] == 43 || s[at - 1] == 45) && (s[at - 2] == 101 || s[at - 2] == 69)
}

/// No run of digits is longer than 19, and none that would be read as an
/// exponent is longer than 9: every number in the text fits the integer
/// that the parser reads it into.
pub open spec fn numbers_fit(s: Seq<u8>) -> bool {
    forall|from: int, to: int|
        0 <= from <= to <= s.len() && #[trigger] digits_between(s, from, to) ==> to - from <= 19
            && (after_exponent_mark(s, from) ==> to - from <= 9)
}

/// The text can be handed to the parser: its length fits the parser's
/// 32-bit positions, and its numbers fit.
pub open spec fn parsable(s: Seq<u8>) -> bool {
    s.len() < u32::MAX && numbers_fit(s)
}

/// The document that the text `input` is read as, if it is one JSON
/// document.
pub uninterp spec fn json_document(input: Seq<char>) -> Option<DocumentView>;

/// Calls `lite_json::parse_json` and keeps of its result what a price is
/// read from: whether the text is one JSON document, whether that is an
/// object, and of each member its key and, where it holds a number, the
/// number. The result depends on the text alone. The parser adds up digits
/// in a `u64`, or an `i32` for an exponent, and counts positions in a
/// `u32`, without checking; the precondition keeps the text to what fits.
#[verifier::external_body]
pub(crate) fn parse_json(input: &str) -> (document: Option<Document>)
    requires
        parsable(input.spec_bytes()),
    ensures
        match document {
            Some(d) => json_document(input@) == Some(d@),
            None => json_document(input@) is None,
        },
{
    let members = match lite_json::parse_json(input) {
        Ok(lite_json::JsonValue::Object(members)) => members,
        Ok(_) => return Some(Document::Other),
        Err(_) => return None,
    };
    let kept = members.into_iter().map(|(key, value)| match value {
        lite_json::JsonValue::Number(n) => (key, Member::Number(NumberValue {
            integer: n.integer, fraction: n.fraction, fraction_length: n.fraction_length,
            exponent: n.exponent, negative: n.negative,
        })),
        _ => (key, Member::Other),
    });
    Some(Document::Object(kept.collect()))
}

/// Calls `core::str::from_utf8`, which accepts exactly the byte strings
/// that are valid UTF-8 and hands out the same bytes as text.
#[verifier::external_body]
pub(crate) fn utf8_text(body: &[u8]) -> (text: Option<&str>)
    ensures
        text is Some == valid_utf8(body@),
        text is Some ==> text->Some_0.spec_bytes() == body@,
{
    core::str::from_utf8(body).ok()
}

/// Tells whether every number in the text fits what the parser reads it
/// into.
pub fn check_numbers_fit(bytes: &[u8]) -> (ok: bool)
    ensures
        ok == numbers_fit(bytes@),
{
    let ghost s = bytes@;
    let mut run: usize = 0;
    let mut marked = false;
    let mut i: usize = 0;
    while i < bytes.len()
        invariant
            s == bytes@,
            0 <= i <= s.len(),
            0 <= run <= i,
            run <= 19,
            digits_between(s, i - run, i as int),
            i - run == 0 || !is_digit(s[i - run - 1]),
            run > 0 ==> marked == after_exponent_mark(s, i - run),
            run > 0 && marked ==> run <= 9,
            forall|from: int, to: int|
                0 <= from <= to <= i && #[trigger] digits_between(s, from, to) ==> to - from <= 19
                    && (after_exponent_mark(s, from) ==> to - from <= 9),
        decreases s.len() - i,
    {
        let b = bytes[i];
        if 48 <= b && b <= 57 {
            if run == 0 {
                let direct = i >= 1 && (bytes[i - 1] == 101 || bytes[i - 1] == 69);
                let signed = i >= 2 && (bytes[i - 1] == 43 || bytes[i - 1] == 45) && (bytes[i - 2]
                    == 101 || bytes[i - 2] == 69);
                marked = direct || signed;
            }
            run = run + 1;
            let ghost start = i + 1 - run;
            assert(digits_between(s, start, i + 1));
            if run > 19 || (marked && run > 9) {
                return false;
            }
            assert forall|from: int, to: int|
                0 <= from <= to <= i + 1 && #[trigger] digits_between(s, from, to) implies to - from
                <= 19 && (after_exponent_mark(s, from) ==> to - from <= 9) by {
                if to == i + 1 && from < to {
                    if from < start {
                        assert(is_digit(s[start - 1]));
                    }
                    if from > start {
                        assert(is_digit(s[from - 1]));
                    }
                } else if from < to {
                    assert(to <= i);
                }
            }
        } else {
            run = 0;
            assert forall|from: int, to: int|
                0 <= from <= to <= i + 1 && #[trigger] digits_between(s, from, to) implies to - from
                <= 19 && (after_exponent_mark(s, from) ==> to - from <= 9) by {
                if to == i + 1 && from < to {
                    assert(is_digit(s[i as int]));
                }
            }
        }
        i = i + 1;
    }
    true
}

/// Ten to the power of `n`.
pub open spec fn pow10(n: nat) -> nat
    decreases n,
{
    if n == 0 {
        1
    } else {
        10 * pow10((n - 1) as nat)
    }
}

/// The powers of ten grow with the exponent.
pub proof fn lemma_pow10_grows(a: nat, b: nat)
    requires
        a <= b,
    ensures
        0 < pow10(a) <= pow10(b),
    decreases b,
{
    if a < b {
        lemma_pow10_grows(a, (b - 1) as nat);
    } else if a > 0 {
        lemma_pow10_grows((a - 1) as nat, (b - 1) as nat);
    }
}

/// How many digits of the fraction lie beyond the cents.
pub open spec fn surplus_digits(number: NumberValue) -> nat {
    if number.fraction_length >= 2 {
        (number.fraction_length - 2) as nat
    } else {
        0
    }
}

/// The number in cents: a hundred times the digits before the point, and
/// the digits behind it without those beyond the cents. The sign and the
/// exponent are not looked at.
pub open spec fn cents(number: NumberValue) -> int {
    number.integer * 100 + number.fraction as int / pow10(surplus_digits(number)) as int
}

/// The price that a number stands for: its value in cents, where that fits
/// 32 bits.
pub open spec fn price_in_cents(number: NumberValue) -> Option<u32> {
    if cents(number) <= u32::MAX {
        Some(cents(number) as u32)
    } else {
        None
    }
}

/// The key under which the price stands: `USD`.
pub open spec fn usd_key() -> Seq<char> {
    seq!['U', 'S', 'D']
}

/// The first member under the key `USD`, if there is one.
pub open spec fn usd_member(members: Seq<(Seq<char>, Member)>) -> Option<Member>
    decreases members.len(),
{
    if members.len() == 0 {
        None
    } else if members[0].0 == usd_key() {
        Some(members[0].1)
    } else {
        usd_member(members.drop_first())
    }
}

/// The price that a document holds: that of the number under the first key
/// `USD` of an object.
pub open spec fn price_of(document: DocumentView) -> Option<u32> {
    match document {
        DocumentView::Object(members) => match usd_member(members) {
            Some(Member::Number(number)) => price_in_cents(number),
            _ => None,
        },
        DocumentView::Other => None,
    }
}

/// The price that a text holds, if it can be handed to the parser and is
/// read as a document with a price.
pub open spec fn price_of_text(text: Seq<char>, bytes: Seq<u8>) -> Option<u32> {
    if parsable(bytes) {
        match json_document(text) {
            Some(document) => price_of(document),
            None => None,
        }
    } else {
        None
    }
}

/// The price that a number stands for, in cents.
pub fn number_to_cents(number: &NumberValue) -> (price: Option<u32>)
    ensures
        price == price_in_cents(*number),
{
    let exp: u32 = number.fraction_length.saturating_sub(2);
    let mut power: u64 = 1;
    let mut k: u32 = 0;
    let mut beyond = false;
    while k < exp && !beyond
        invariant
            0 <= k <= exp,
            exp == surplus_digits(*number),
            !beyond ==> power == pow10(k as nat),
            beyond ==> pow10(exp as nat) > u64::MAX,
        decreases exp - k + if beyond { 0int } else { 1int },
    {
        match power.checked_mul(10) {
            Some(next) => {
                power = next;
                k = k + 1;
            },
            None => {
                proof {
                    lemma_pow10_grows((k + 1) as nat, exp as nat);
                }
                beyond = true;
            },
        }
    }
    let whole: u128 = (number.integer as u128) * 100;
    let part: u64 = if beyond {
        proof {
            let p = pow10(exp as nat) as int;
            assert(number.fraction as int / p == 0) by (nonlinear_arith)
                requires
                    0 <= number.fraction as int,
                    (number.fraction as int) < p,
            ;
        }
        0
    } else {
        proof {
            lemma_pow10_grows(0, k as nat);
        }
        number.fraction / power
    };
    let total: u128 = whole + part as u128;
    if total <= u32::MAX as u128 {
        Some(total as u32)
    } else {
        None
    }
}

/// Whether `key` spells `USD`.
fn is_usd(key: &Vec<char>) -> (r: bool)
    ensures
        r == (key@ == usd_key()),
{
    if key.len() != 3 {
        return false;
    }
    let r = key[0] == 'U' && key[1] == 'S' && key[2] == 'D';
    if r {
        assert(key@ =~= usd_key());
    }
    r
}

/// The price that a document holds.
pub fn document_price(document: &Document) -> (price: Option<u32>)
    ensures
        price == price_of(document@),
{
    match document {
        Document::Object(members) => {
            let ghost all = document@->Object_0;
            let mut i: usize = 0;
            assert(all.skip(0) =~= all);
            while i < members.len()
                invariant
                    0 <= i <= members@.len(),
                    document@ == DocumentView::Object(all),
                    all == Seq::new(members@.len(), |j: int| (members@[j].0@, members@[j].1)),
                    usd_member(all) == usd_member(all.skip(i as int)),
                decreases members@.len() - i,
            {
                let ghost rest = all.skip(i as int);
                assert(rest[0] == all[i as int]);
                assert(rest.drop_first() =~= all.skip(i + 1));
                if is_usd(&members[i].0) {
                    assert(usd_member(rest) == Some(rest[0].1));
                    assert(rest[0].1 == members@[i as int].1);
                    return match members[i].1 {
                        Member::Number(number) => number_to_cents(&number),
                        Member::Other => None,
                    };
                }
                i = i + 1;
            }
            assert(all.skip(i as int).len() == 0);
            None
        },
        Document::Other => None,
    }
}

/// The price in cents that the text holds: the text has to be a JSON
/// object with a number under the key `USD`, and the number in cents has to
/// fit 32 bits.
pub fn parse_price(price_str: &str) -> (price: Option<u32>)
    ensures
        price == price_of_text(price_str@, price_str.spec_bytes()),
{
    let bytes = price_str.as_bytes();
    if bytes.len() >= u32::MAX as usize {
        return None;
    }
    if !check_numbers_fit(bytes) {
        return None;
    }
    match parse_json(price_str) {
        Some(document) => document_price(&document),
        None => None,
    }
}

/// The moment at which a request sent at `now` is given up, both in
/// milliseconds since the epoch.
pub fn fetch_deadline(now: u64) -> (deadline: u64)
    ensures
        deadline == if now + FETCH_TIMEOUT_MS > u64::MAX {
            u64::MAX
        } else {
            (now + FETCH_TIMEOUT_MS) as u64
        },
{
    now.saturating_add(FETCH_TIMEOUT_MS)
}

/// What a request for the price has brought: the price, where the answer
/// has the status 200 and a body that is text with a price in it; else the
/// reason why there is none.
pub open spec fn fetched_price(outcome: HttpOutcome) -> Result<u32, HttpError> {
    match outcome {
        HttpOutcome::NotSent => Err(HttpError::IoError),
        HttpOutcome::TimedOut => Err(HttpError::DeadlineReached),
        HttpOutcome::Failed(e) => Err(e),
        HttpOutcome::Response { code, body } => {
            if code != 200 || !valid_utf8(body@) {
                Err(HttpError::Unknown)
            } else {
                match price_of_text(vstd::utf8::decode_utf8(body@), body@) {
                    Some(price) => Ok(price),
                    None => Err(HttpError::Unknown),
                }
            }
        },
    }
}

/// Reads the price out of what a request for it has brought.
pub fn fetch_price(outcome: &HttpOutcome) -> (r: Result<u32, HttpError>)
    ensures
        r == fetched_price(*outcome),
{
    match outcome {
        HttpOutcome::NotSent => Err(HttpError::IoError),
        HttpOutcome::TimedOut => Err(HttpError::DeadlineReached),
        HttpOutcome::Failed(e) => Err(*e),
        HttpOutcome::Response { code, body } => {
            if *code != 200 {
                return Err(HttpError::Unknown);
            }
            let body_str = match utf8_text(body.as_slice()) {
                Some(text) => text,
                None => {
                    return Err(HttpError::Unknown);
                },
            };
            proof {
                vstd::utf8::decode_utf8_encode_utf8(body@);
                vstd::utf8::encode_utf8_decode_utf8(body_str@);
            }
            match parse_price(body_str) {
                Some(price) => Ok(price),
                None => Err(HttpError::Unknown),
            }
        },
    }
}

} // verus!
