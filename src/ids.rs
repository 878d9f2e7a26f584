//! Server time and message ids.
//!
//! A message id is 32 characters: the send time in milliseconds written in
//! base 36 over 10 characters, then the queue's send counter written in
//! base 62 over 22 characters.
use vstd::prelude::*;
use vstd::string::{StrSliceExecFns, StringExecFns};
use crate::error::RsmqError;

verus! {

/// Characters of the time part of an id.
pub const TIME_DIGITS: usize = 10;
/// Characters of the counter part of an id.
pub const COUNTER_DIGITS: usize = 22;
/// Base of the time part.
pub const TIME_BASE: u64 = 36;
/// Base of the counter part.
pub const COUNTER_BASE: u64 = 62;
/// First millisecond time that no longer fits the time part (36 to the 10th).
pub const ID_TIME_LIMIT_MS: u64 = 3656158440062976;

pub open spec fn pow(b: nat, e: nat) -> nat
    decreases e,
{
    if e == 0 {
        1
    } else {
        b * pow(b, (e - 1) as nat)
    }
}

/// Digit `d` as a character: `0-9`, then `a-z`, then `A-Z`.
pub open spec fn digit_char(d: nat) -> char {
    if d < 10 {
        (48 + d) as char
    } else if d < 36 {
        (87 + d) as char
    } else {
        (29 + d) as char
    }
}

/// The digit that a character stands for, or -1.
pub open spec fn digit_value(c: char) -> int {
    let v = c as int;
    if 48 <= v <= 57 {
        v - 48
    } else if 97 <= v <= 122 {
        v - 87
    } else if 65 <= v <= 90 {
        v - 29
    } else {
        -1
    }
}

/// `n` in base `base` over exactly `width` digits, most significant first
/// (left-padded with `0`, higher digits dropped).
pub open spec fn encode_spec(n: nat, base: nat, width: nat) -> Seq<char>
    decreases width,
{
    if width == 0 {
        Seq::empty()
    } else {
        encode_spec(n / base, base, (width - 1) as nat).push(digit_char(n % base))
    }
}

/// Every character of `s` is a digit below `base`.
pub open spec fn all_digits(s: Seq<char>, base: nat) -> bool {
    forall|i: int| 0 <= i < s.len() ==> 0 <= #[trigger] digit_value(s[i]) < base
}

/// The number that the digits of `s` stand for, most significant first.
pub open spec fn decode_spec(s: Seq<char>, base: nat) -> nat
    decreases s.len(),
{
    if s.len() == 0 {
        0
    } else {
        decode_spec(s.drop_last(), base) * base + digit_value(s.last()) as nat
    }
}

/// Millisecond time from the server's `(seconds, microseconds)` pair.
pub open spec fn time_ms_spec(secs: u64, micros: u64) -> int {
    secs * 1000 + micros / 1000
}

/// The id of the message sent at `now_ms` as the `counter`-th of its queue.
pub open spec fn message_id_spec(now_ms: nat, counter: nat) -> Seq<char> {
    encode_spec(now_ms, TIME_BASE as nat, TIME_DIGITS as nat) + encode_spec(
        counter,
        COUNTER_BASE as nat,
        COUNTER_DIGITS as nat,
    )
}

/// The send time that the first 10 characters of an id give.
pub open spec fn id_time_spec(id: Seq<char>) -> Option<nat> {
    let t = id.subrange(0, TIME_DIGITS as int);
    if id.len() >= TIME_DIGITS && all_digits(t, TIME_BASE as nat) {
        Some(decode_spec(t, TIME_BASE as nat))
    } else {
        None
    }
}

pub proof fn lemma_digit_round_trip(d: nat)
    requires
        d < 62,
    ensures
        digit_value(digit_char(d)) == d,
{
}

pub proof fn lemma_encode_len(n: nat, base: nat, width: nat)
    requires
        base >= 2,
    ensures
        encode_spec(n, base, width).len() == width,
    decreases width,
{
    if width > 0 {
        lemma_encode_len(n / base, base, (width - 1) as nat);
        assert(encode_spec(n, base, width) == encode_spec(n / base, base, (width - 1) as nat).push(
            digit_char(n % base),
        ));
    } else {
        assert(encode_spec(n, base, width) == Seq::<char>::empty());
    }
}

pub proof fn lemma_encode_digits(n: nat, base: nat, width: nat)
    requires
        2 <= base <= 62,
    ensures
        all_digits(encode_spec(n, base, width), base),
    decreases width,
{
    if width > 0 {
        lemma_encode_digits(n / base, base, (width - 1) as nat);
        lemma_digit_round_trip(n % base);
        let s = encode_spec(n, base, width);
        let p = encode_spec(n / base, base, (width - 1) as nat);
        assert forall|i: int| 0 <= i < s.len() implies 0 <= #[trigger] digit_value(s[i]) < base by {
            if i < p.len() {
                assert(s[i] == p[i]);
            }
        }
    }
}

/// Decoding the digits of `n` gives back `n`, when `n` fits the width.
pub proof fn lemma_decode_encode(n: nat, base: nat, width: nat)
    requires
        2 <= base <= 62,
        n < pow(base, width),
    ensures
        decode_spec(encode_spec(n, base, width), base) == n,
    decreases width,
{
    if width == 0 {
    } else {
        let w1 = (width - 1) as nat;
        let p = pow(base, w1);
        assert(n / base < p) by (nonlinear_arith)
            requires
                n < base * p,
                base >= 2,
        ;
        lemma_decode_encode(n / base, base, w1);
        lemma_digit_round_trip(n % base);
        let s = encode_spec(n, base, width);
        assert(s.drop_last() == encode_spec(n / base, base, w1));
        assert((n / base) * base + n % base == n) by (nonlinear_arith)
            requires
                base >= 2,
        ;
    }
}

pub proof fn lemma_pow_positive(b: nat, e: nat)
    requires
        b >= 1,
    ensures
        pow(b, e) >= 1,
    decreases e,
{
    if e > 0 {
        lemma_pow_positive(b, (e - 1) as nat);
        assert(b * pow(b, (e - 1) as nat) >= 1) by (nonlinear_arith)
            requires
                b >= 1,
                pow(b, (e - 1) as nat) >= 1,
        ;
    }
}

pub proof fn lemma_decode_bound(s: Seq<char>, base: nat)
    requires
        base >= 2,
        all_digits(s, base),
    ensures
        decode_spec(s, base) < pow(base, s.len()),
    decreases s.len(),
{
    if s.len() > 0 {
        let p = s.drop_last();
        assert(all_digits(p, base)) by {
            assert forall|i: int| 0 <= i < p.len() implies 0 <= #[trigger] digit_value(p[i])
                < base by {
                assert(p[i] == s[i]);
            }
        }
        lemma_decode_bound(p, base);
        let a = decode_spec(p, base);
        let d = digit_value(s.last());
        assert(0 <= d < base);
        let q = pow(base, p.len());
        assert(a * base + d < q * base) by (nonlinear_arith)
            requires
                a < q,
                0 <= d < base,
        ;
        assert(pow(base, s.len()) == base * q);
    }
}

proof fn lemma_counter_fits(c: u64)
    ensures
        (c as nat) < pow(COUNTER_BASE as nat, COUNTER_DIGITS as nat),
{
    reveal_with_fuel(pow, 23);
}

proof fn lemma_time_limit()
    ensures
        pow(TIME_BASE as nat, TIME_DIGITS as nat) == ID_TIME_LIMIT_MS,
{
    reveal_with_fuel(pow, 11);
}

/// The first ten characters of an id give back the time it was made at,
/// which is never later than that time.
pub proof fn lemma_id_time(now_ms: u64, counter: u64)
    requires
        now_ms < ID_TIME_LIMIT_MS,
    ensures
        id_time_spec(message_id_spec(now_ms as nat, counter as nat)) == Some(now_ms as nat),
        message_id_spec(now_ms as nat, counter as nat).len() == 32,
{
    let t = encode_spec(now_ms as nat, TIME_BASE as nat, TIME_DIGITS as nat);
    let id = message_id_spec(now_ms as nat, counter as nat);
    lemma_encode_len(now_ms as nat, TIME_BASE as nat, TIME_DIGITS as nat);
    lemma_encode_len(counter as nat, COUNTER_BASE as nat, COUNTER_DIGITS as nat);
    lemma_encode_digits(now_ms as nat, TIME_BASE as nat, TIME_DIGITS as nat);
    lemma_time_limit();
    lemma_decode_encode(now_ms as nat, TIME_BASE as nat, TIME_DIGITS as nat);
    assert(id.subrange(0, TIME_DIGITS as int) =~= t);
}

/// Two sends with different counter values never share an id.
pub proof fn lemma_ids_unique(t1: u64, c1: u64, t2: u64, c2: u64)
    requires
        c1 != c2,
    ensures
        message_id_spec(t1 as nat, c1 as nat) != message_id_spec(t2 as nat, c2 as nat),
{
    let a = message_id_spec(t1 as nat, c1 as nat);
    let b = message_id_spec(t2 as nat, c2 as nat);
    lemma_encode_len(t1 as nat, TIME_BASE as nat, TIME_DIGITS as nat);
    lemma_encode_len(t2 as nat, TIME_BASE as nat, TIME_DIGITS as nat);
    lemma_encode_len(c1 as nat, COUNTER_BASE as nat, COUNTER_DIGITS as nat);
    lemma_encode_len(c2 as nat, COUNTER_BASE as nat, COUNTER_DIGITS as nat);
    lemma_counter_fits(c1);
    lemma_counter_fits(c2);
    lemma_decode_encode(c1 as nat, COUNTER_BASE as nat, COUNTER_DIGITS as nat);
    lemma_decode_encode(c2 as nat, COUNTER_BASE as nat, COUNTER_DIGITS as nat);
    if a == b {
        assert(a.subrange(10, 32) =~= encode_spec(c1 as nat, COUNTER_BASE as nat, COUNTER_DIGITS as nat));
        assert(b.subrange(10, 32) =~= encode_spec(c2 as nat, COUNTER_BASE as nat, COUNTER_DIGITS as nat));
    }
}

/// Relies on `String::push`: appends one character.
#[verifier::external_body]
pub(crate) fn push_char(s: &mut String, c: char)
    ensures
        final(s)@ == old(s)@.push(c),
{
    s.push(c)
}

fn digit_char_exec(d: u64) -> (c: char)
    requires
        d < 62,
    ensures
        c == digit_char(d as nat),
{
    let b = d as u8;
    if b < 10 {
        (48u8 + b) as char
    } else if b < 36 {
        (87u8 + b) as char
    } else {
        (29u8 + b) as char
    }
}

fn digit_value_exec(c: char) -> (r: i64)
    ensures
        r == digit_value(c),
{
    let v = c as u32;
    if 48 <= v && v <= 57 {
        (v - 48) as i64
    } else if 97 <= v && v <= 122 {
        (v - 87) as i64
    } else if 65 <= v && v <= 90 {
        (v - 29) as i64
    } else {
        -1
    }
}

/// `n` in base `base` over exactly `width` digits.
pub fn encode_base(n: u64, base: u64, width: usize) -> (r: String)
    requires
        2 <= base <= 62,
    ensures
        r@ == encode_spec(n as nat, base as nat, width as nat),
    decreases width,
{
    if width == 0 {
        String::new()
    } else {
        let mut s = encode_base(n / base, base, width - 1);
        push_char(&mut s, digit_char_exec(n % base));
        s
    }
}

/// The number written by the digits of `s` in base `base`; `None` when a
/// character is not such a digit or the number does not fit in a `u64`.
pub fn decode_base(s: &str, base: u64) -> (r: Option<u64>)
    requires
        2 <= base <= 62,
    ensures
        r is Some ==> all_digits(s@, base as nat) && r->0 == decode_spec(s@, base as nat),
        all_digits(s@, base as nat) && decode_spec(s@, base as nat) <= u64::MAX ==> r is Some,
{
    let n = s.unicode_len();
    let mut acc: u64 = 0;
    let mut i: usize = 0;
    while i < n
        invariant
            n == s@.len(),
            2 <= base <= 62,
            i <= n,
            all_digits(s@.subrange(0, i as int), base as nat),
            acc == decode_spec(s@.subrange(0, i as int), base as nat),
        decreases n - i,
    {
        let c = s.get_char(i);
        let d = digit_value_exec(c);
        proof {
            let p = s@.subrange(0, i as int);
            let q = s@.subrange(0, i as int + 1);
            assert(q.drop_last() =~= p);
            assert(q.last() == c);
        }
        if d < 0 || d >= base as i64 {
            proof {
                assert(s@[i as int] == c);
                assert(!all_digits(s@, base as nat));
            }
            return None;
        }
        proof {
            let q = s@.subrange(0, i as int + 1);
            assert(all_digits(q, base as nat)) by {
                assert forall|j: int| 0 <= j < q.len() implies 0 <= #[trigger] digit_value(q[j])
                    < base by {
                    if j < i {
                        assert(q[j] == s@.subrange(0, i as int)[j]);
                    }
                }
            }
        }
        match acc.checked_mul(base) {
            None => {
                proof {
                    if all_digits(s@, base as nat) {
                        lemma_decode_prefix_le(s@, base as nat, i as int + 1);
                    }
                }
                return None;
            },
            Some(m) => match m.checked_add(d as u64) {
                None => {
                    proof {
                    if all_digits(s@, base as nat) {
                        lemma_decode_prefix_le(s@, base as nat, i as int + 1);
                    }
                }
                    return None;
                },
                Some(v) => {
                    acc = v;
                },
            },
        }
        i = i + 1;
    }
    proof {
        assert(s@.subrange(0, n as int) =~= s@);
    }
    Some(acc)
}

/// The value of a prefix of digits never exceeds that of the whole.
proof fn lemma_decode_prefix_le(s: Seq<char>, base: nat, k: int)
    requires
        base >= 2,
        0 <= k <= s.len(),
        all_digits(s, base),
    ensures
        decode_spec(s.subrange(0, k), base) <= decode_spec(s, base),
    decreases s.len() - k,
{
    if k < s.len() {
        lemma_decode_prefix_le(s, base, k + 1);
        let p = s.subrange(0, k);
        let q = s.subrange(0, k + 1);
        assert(q.drop_last() =~= p);
        assert(q.last() == s[k]);
        let a = decode_spec(p, base);
        assert(a <= a * base) by (nonlinear_arith)
            requires
                base >= 2,
        ;
    } else {
        assert(s.subrange(0, k) =~= s);
    }
}

/// Millisecond time from the server's `TIME` reply; `InvalidFormat` when it
/// does not fit in a `u64`.
pub fn time_ms(secs: u64, micros: u64) -> (r: Result<u64, RsmqError>)
    ensures
        r is Ok <==> time_ms_spec(secs, micros) <= u64::MAX,
        r is Ok ==> r->Ok_0 == time_ms_spec(secs, micros),
        r is Err ==> r->Err_0 is InvalidFormat,
{
    match secs.checked_mul(1000) {
        None => Err(RsmqError::InvalidFormat(String::from_str("server time out of range"))),
        Some(ms) => match ms.checked_add(micros / 1000) {
            None => Err(RsmqError::InvalidFormat(String::from_str("server time out of range"))),
            Some(t) => Ok(t),
        },
    }
}

/// The id of the message sent at `now_ms` with queue counter `counter`.
pub fn make_message_id(now_ms: u64, counter: u64) -> (r: String)
    requires
        now_ms < ID_TIME_LIMIT_MS,
    ensures
        r@ == message_id_spec(now_ms as nat, counter as nat),
        r@.len() == 32,
        id_time_spec(r@) == Some(now_ms as nat),
{
    let t = encode_base(now_ms, TIME_BASE, TIME_DIGITS);
    let c = encode_base(counter, COUNTER_BASE, COUNTER_DIGITS);
    proof {
        lemma_id_time(now_ms, counter);
    }
    t.concat(c.as_str())
}

/// The send time, in milliseconds, written in the first ten characters of
/// a message id; `None` when they are not base-36 digits.
pub fn message_time(id: &str) -> (r: Option<u64>)
    ensures
        r is Some <==> id_time_spec(id@) is Some,
        r is Some ==> r->0 == id_time_spec(id@)->0,
{
    if id.unicode_len() < TIME_DIGITS {
        return None;
    }
    let t = id.substring_char(0, TIME_DIGITS);
    let r = decode_base(t, TIME_BASE);
    proof {
        if all_digits(t@, TIME_BASE as nat) {
            lemma_decode_bound(t@, TIME_BASE as nat);
            lemma_time_limit();
        }
    }
    r
}

} // verus!
