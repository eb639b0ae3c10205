//! Text that ends up in front of an operator: numbers, causes, and the
//! clean-up that names and addresses go through before they are used.

use vstd::prelude::*;

verus! {

/// `String::push` appends the character it is given to the end of the string.
pub assume_specification[ String::push ](s: &mut String, ch: char)
    ensures
        final(s)@ == old(s)@.push(ch),
;

/// Whether every character of `s` is ASCII.
pub open spec fn all_ascii(s: Seq<char>) -> bool {
    forall|i: int| 0 <= i < s.len() ==> (s[i] as u32) < 128
}

/// What `str::to_uppercase` makes of a string.
pub uninterp spec fn uppercase(s: Seq<char>) -> Seq<char>;

/// The upper case of an ASCII character; every other character is kept.
pub open spec fn ascii_upper(c: char) -> char {
    if 'a' <= c && c <= 'z' {
        (c as u8 - 32) as u8 as char
    } else {
        c
    }
}

/// Calls `str::to_uppercase`. The result is a function of the string alone,
/// and on a string that is all ASCII it maps `a` to `z` to `A` to `Z` and keeps
/// the rest. What the Unicode tables say of other characters is not spelled out.
#[verifier::external_body]
pub(crate) fn to_uppercase(s: &str) -> (upper: String)
    ensures
        upper@ == uppercase(s@),
        all_ascii(s@) ==> upper@ == s@.map_values(|c: char| ascii_upper(c)),
{
    s.to_uppercase()
}

/// The character of a decimal digit.
pub open spec fn digit(d: int) -> char {
    (('0' as u8) + d) as u8 as char
}

/// The decimal notation of a natural number, without leading zeros.
pub open spec fn decimal(n: nat) -> Seq<char>
    decreases n,
{
    if n < 10 {
        seq![digit(n as int)]
    } else {
        decimal(n / 10).push(digit((n % 10) as int))
    }
}

/// The decimal notation of an integer, with a minus sign when it is negative.
pub open spec fn signed_decimal(n: int) -> Seq<char> {
    if n < 0 {
        seq!['-'] + decimal((-n) as nat)
    } else {
        decimal(n as nat)
    }
}

/// The number that a row of decimal digits stands for.
pub open spec fn number(digits: Seq<char>) -> int
    decreases digits.len(),
{
    if digits.len() == 0 {
        0
    } else {
        10 * number(digits.drop_last()) + (digits.last() as int - '0' as int)
    }
}

/// Whether a text is a number as it is usually written: at least one digit,
/// nothing but digits, and no zero in front of others.
pub open spec fn is_numeral(text: Seq<char>) -> bool {
    &&& text.len() > 0
    &&& forall|i: int| 0 <= i < text.len() ==> '0' <= #[trigger] text[i] && text[i] <= '9'
    &&& text.len() > 1 ==> text[0] != '0'
}

/// The decimal notation of a number is a numeral that stands for that number.
pub proof fn decimal_reads_back(n: nat)
    ensures
        is_numeral(decimal(n)),
        number(decimal(n)) == n,
    decreases n,
{
    if n < 10 {
        assert(decimal(n).drop_last() =~= Seq::empty());
        assert(number(decimal(n).drop_last()) == 0);
    } else {
        decimal_reads_back(n / 10);
        assert(decimal(n).drop_last() =~= decimal(n / 10));
        assert(decimal(n)[0] == decimal(n / 10)[0]);
        if n / 10 >= 10 {
            decimal_reads_back(n / 100);
        }
    }
}

/// The notation of an integer that is not negative is a numeral that stands for
/// it; that of a negative one is a minus sign and the numeral of its size.
pub proof fn signed_decimal_reads_back(n: int)
    ensures
        n >= 0 ==> is_numeral(signed_decimal(n)) && number(signed_decimal(n)) == n,
        n < 0 ==> {
            &&& signed_decimal(n)[0] == '-'
            &&& is_numeral(signed_decimal(n).skip(1))
            &&& number(signed_decimal(n).skip(1)) == -n
        },
{
    if n < 0 {
        decimal_reads_back((-n) as nat);
        assert(signed_decimal(n).skip(1) =~= decimal((-n) as nat));
    } else {
        decimal_reads_back(n as nat);
    }
}

/// Different integers read differently.
pub proof fn signed_decimal_tells_numbers_apart(a: int, b: int)
    requires
        signed_decimal(a) == signed_decimal(b),
    ensures
        a == b,
{
    signed_decimal_reads_back(a);
    signed_decimal_reads_back(b);
}

/// Upper case moves the letters from `a` to `z` to those from `A` to `Z`, in
/// order, and moves nothing else.
pub proof fn upper_case_moves_small_letters_only(c: char)
    ensures
        'a' <= c && c <= 'z' ==> ascii_upper(c) as int - 'A' as int == c as int - 'a' as int,
        c < 'a' || 'z' < c ==> ascii_upper(c) == c,
{
}

/// Appends the decimal notation of `n` to `out`.
pub fn push_decimal(out: &mut String, n: u64)
    ensures
        final(out)@ == old(out)@ + decimal(n as nat),
    decreases n,
{
    if n >= 10 {
        push_decimal(out, n / 10);
    }
    out.push((48u8 + (n % 10) as u8) as char);
}

/// Ten to the power of `k`.
pub open spec fn pow10(k: nat) -> nat
    decreases k,
{
    if k == 0 {
        1
    } else {
        10 * pow10((k - 1) as nat)
    }
}

/// A number below ten to the power of `k` takes at most `k` digits, and nothing
/// but digits.
pub proof fn decimal_is_short(n: nat, k: nat)
    requires
        n < pow10(k),
        k > 0,
    ensures
        0 < decimal(n).len() <= k,
        forall|i: int| 0 <= i < decimal(n).len() ==> '0' <= decimal(n)[i] && decimal(n)[i] <= '9',
    decreases k,
{
    assert(pow10(0) == 1);
    if n >= 10 {
        decimal_is_short(n / 10, (k - 1) as nat);
    }
}

/// A signed 64-bit number takes at most 20 characters, none of which ends the
/// line.
pub proof fn signed_decimal_is_short(n: i64)
    ensures
        0 < signed_decimal(n as int).len() <= 20,
        forall|i: int|
            0 <= i < signed_decimal(n as int).len() ==> signed_decimal(n as int)[i] != '\n',
{
    assert(pow10(19) == 10_000_000_000_000_000_000) by {
        reveal_with_fuel(pow10, 20);
    }
    decimal_is_short(magnitude(n as int), 19);
}

/// The size of `n`, whatever its sign.
pub open spec fn magnitude(n: int) -> nat {
    if n < 0 {
        (-n) as nat
    } else {
        n as nat
    }
}

/// The size of `n` as an unsigned number, which holds even `i64::MIN`.
pub fn unsigned_abs(n: i64) -> (size: u64)
    ensures
        size == magnitude(n as int),
        n >= 0 ==> size == n,
        n < 0 ==> size == -n,
{
    if n == i64::MIN {
        0x8000_0000_0000_0000u64
    } else if n < 0 {
        (-n) as u64
    } else {
        n as u64
    }
}

/// Appends the decimal notation of `n`, with its sign, to `out`.
pub fn push_signed(out: &mut String, n: i64)
    ensures
        final(out)@ == old(out)@ + signed_decimal(n as int),
{
    if n < 0 {
        out.push('-');
    }
    push_decimal(out, unsigned_abs(n));
}

/// An error's text together with what caused it.
pub open spec fn with_cause(what: Seq<char>, cause: Seq<char>) -> Seq<char> {
    what + ": "@ + cause
}

/// What was being done stands in front, whole; what went wrong stands at the end,
/// whole; and a colon and a space part them.
pub proof fn cause_follows_a_colon(what: Seq<char>, cause: Seq<char>)
    ensures
        with_cause(what, cause).len() == what.len() + 2 + cause.len(),
        with_cause(what, cause).take(what.len() as int) == what,
        with_cause(what, cause)[what.len() as int] == ':',
        with_cause(what, cause)[what.len() as int + 1] == ' ',
        with_cause(what, cause).skip(what.len() as int + 2) == cause,
{
    reveal_strlit(": ");
    assert(with_cause(what, cause).take(what.len() as int) =~= what);
    assert(with_cause(what, cause).skip(what.len() as int + 2) =~= cause);
}

/// Puts what was being done in front of what went wrong.
pub fn context(what: &str, cause: &str) -> (out: String)
    ensures
        out@ == with_cause(what@, cause@),
        out@ == what@ + ": "@ + cause@,
{
    let mut out = what.to_owned();
    out.append(": ");
    out.append(cause);
    out
}

/// A result with its error's text in place of the string that holds it.
pub open spec fn plain<T>(result: Result<T, String>) -> Result<T, Seq<char>> {
    match result {
        Ok(value) => Ok(value),
        Err(err) => Err(err@),
    }
}

/// A result with plain values succeeds exactly when the result does, with the
/// same value, and fails with the same text.
pub proof fn plain_keeps_the_result<T>(result: Result<T, String>)
    ensures
        result matches Ok(value) ==> plain(result) == Ok::<T, Seq<char>>(value),
        result matches Err(err) ==> plain(result) == Err::<T, Seq<char>>(err@),
{
}

/// A result that is handed on succeeds exactly when it did, with the same value,
/// and its error is put behind what was being done.
pub proof fn handing_on_keeps_success<T>(result: Result<T, Seq<char>>, what: Seq<char>)
    ensures
        result is Ok <==> map_cause(result, what) is Ok,
        result is Ok ==> map_cause(result, what) == result,
        result matches Err(cause) ==> map_cause(result, what) == Err::<T, Seq<char>>(
            what + ": "@ + cause,
        ),
{
}

/// The text of the error in a result that was handed on.
pub open spec fn map_cause<T>(
    result: Result<T, Seq<char>>,
    what: Seq<char>,
) -> Result<T, Seq<char>> {
    match result {
        Ok(value) => Ok(value),
        Err(cause) => Err(with_cause(what, cause)),
    }
}

/// Whether `kept` is `s` without any of the slashes that end it.
pub open spec fn is_trimmed(s: Seq<char>, kept: Seq<char>) -> bool {
    &&& kept.len() <= s.len()
    &&& kept == s.take(kept.len() as int)
    &&& forall|i: int| kept.len() <= i < s.len() ==> s[i] == '/'
    &&& kept.len() > 0 ==> kept.last() != '/'
}

/// `s` without any of the slashes that end it.
pub open spec fn trim_slashes(s: Seq<char>) -> Seq<char>
    decreases s.len(),
{
    if s.len() > 0 && s.last() == '/' {
        trim_slashes(s.drop_last())
    } else {
        s
    }
}

/// Drops every slash at the end of `s`.
pub fn trim_end_slashes(s: &str) -> (out: String)
    ensures
        out@ == trim_slashes(s@),
        out@.len() <= s@.len(),
        out@ == s@.take(out@.len() as int),
        forall|i: int| out@.len() <= i < s@.len() ==> s@[i] == '/',
        out@.len() > 0 ==> out@.last() != '/',
{
    let mut len: usize = s.unicode_len();
    assert(s@.take(len as int) =~= s@);
    while len > 0 && s.get_char(len - 1) == '/'
        invariant
            len <= s@.len(),
            trim_slashes(s@.take(len as int)) == trim_slashes(s@),
            forall|i: int| len <= i < s@.len() ==> s@[i] == '/',
        decreases len,
    {
        assert(s@.take(len as int).drop_last() =~= s@.take(len - 1));
        len = len - 1;
    }
    s.substring_char(0, len).to_owned()
}

/// Trimming drops slashes from the end and nothing else, and drops all of them.
pub proof fn trimming_drops_exactly_the_last_slashes(s: Seq<char>)
    ensures
        is_trimmed(s, trim_slashes(s)),
        trim_slashes(s).len() <= s.len(),
        trim_slashes(s) == s.take(trim_slashes(s).len() as int),
        forall|i: int| trim_slashes(s).len() <= i < s.len() ==> s[i] == '/',
        trim_slashes(s).len() > 0 ==> trim_slashes(s).last() != '/',
    decreases s.len(),
{
    if s.len() > 0 && s.last() == '/' {
        trimming_drops_exactly_the_last_slashes(s.drop_last());
        let kept = trim_slashes(s.drop_last());
        assert(s.drop_last().take(kept.len() as int) =~= s.take(kept.len() as int));
        assert forall|i: int| kept.len() <= i < s.len() implies s[i] == '/' by {
            if i < s.len() - 1 {
                assert(s.drop_last()[i] == '/');
            }
        }
    } else {
        assert(s.take(s.len() as int) =~= s);
    }
}

/// An address that was trimmed once is not changed by trimming it again.
pub proof fn trimming_twice_changes_nothing(s: Seq<char>)
    ensures
        trim_slashes(trim_slashes(s)) == trim_slashes(s),
    decreases s.len(),
{
    if s.len() > 0 && s.last() == '/' {
        trimming_twice_changes_nothing(s.drop_last());
    }
}

} // verus!
