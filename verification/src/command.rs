//! The command grammar: a subject line is parsed into exactly one typed
//! instruction, or rejected. Amounts are written as decimals and are kept
//! to two decimal digits of precision, rounded half up, scaled into the
//! ledger's smallest unit.
use crate::account::{valid_account_id, AccountId};
use crate::strutil::{starts_with_spec, tokens_spec, trim_spec};
use crate::AuthError;
use vstd::prelude::*;

verus! {

/// One whole unit of the ledger's native token, in its smallest unit.
pub const ONE_NEAR: u128 = 1_000_000_000_000_000_000_000_000;

/// One hundredth of [`ONE_NEAR`]: the granularity of transfer amounts.
pub const CENT: u128 = 10_000_000_000_000_000_000_000;

/// The largest number of hundredths whose scaled amount fits in `u128`.
pub const MAX_CENTS: u128 = 34_028_236_692_093_846;

/// A bound used while accumulating the integer part of a decimal:
/// any integer part above it makes the scaled amount overflow.
pub const INT_CAP: u128 = 340_282_366_920_938;

/// A parsed command, exactly one per accepted message.
#[derive(Debug, PartialEq)]
pub enum CommandEnum {
    Init,
    AddKey(String),
    DeleteKey,
    Transfer(AccountId, u128),
}

/// The mathematical shape of a command.
pub enum CmdView {
    Init,
    AddKey(Seq<char>),
    DeleteKey,
    Transfer(Seq<char>, nat),
}

impl View for CommandEnum {
    type V = CmdView;

    open spec fn view(&self) -> CmdView {
        match self {
            CommandEnum::Init => CmdView::Init,
            CommandEnum::AddKey(k) => CmdView::AddKey(k@),
            CommandEnum::DeleteKey => CmdView::DeleteKey,
            CommandEnum::Transfer(a, m) => CmdView::Transfer(a@, *m as nat),
        }
    }
}

/// A parse outcome, with the command abstracted to its view.
pub open spec fn cmd_result_view(r: Result<CommandEnum, AuthError>) -> Result<CmdView, AuthError> {
    match r {
        Ok(c) => Ok(c@),
        Err(e) => Err(e),
    }
}

/// ASCII letter or digit, either case.
pub open spec fn is_ascii_alnum(c: char) -> bool {
    ('a' <= c && c <= 'z') || ('A' <= c && c <= 'Z') || ('0' <= c && c <= '9')
}

/// Valid key material: the literal prefix `ed25519:`, a total length of
/// exactly 52 characters, and every character after the prefix an ASCII
/// letter or digit.
pub open spec fn spec_valid_key(s: Seq<char>) -> bool {
    &&& s.len() == 52
    &&& starts_with_spec(s, "ed25519:"@)
    &&& forall|i: int| 8 <= i < 52 ==> is_ascii_alnum(#[trigger] s[i])
}

/// ASCII decimal digit.
pub open spec fn is_digit(c: char) -> bool {
    '0' <= c && c <= '9'
}

/// Numeric value of a digit character.
pub open spec fn digit_val(c: char) -> int {
    c as int - 48
}

/// Length of the maximal digit prefix of `s`.
pub open spec fn int_digits_len(s: Seq<char>) -> nat
    decreases s.len(),
{
    if s.len() == 0 || !is_digit(s[0]) {
        0
    } else {
        1 + int_digits_len(s.skip(1))
    }
}

/// Value of a digit string, most significant digit first.
pub open spec fn digits_val(s: Seq<char>) -> int
    decreases s.len(),
{
    if s.len() == 0 {
        0
    } else {
        digits_val(s.take(s.len() - 1)) * 10 + digit_val(s[s.len() - 1])
    }
}

pub open spec fn all_digits(s: Seq<char>) -> bool {
    forall|i: int| 0 <= i < s.len() ==> is_digit(#[trigger] s[i])
}

/// Hundredths contributed by the fractional digits: the first two digits,
/// rounded half up on the third.
pub open spec fn frac_cents(f: Seq<char>) -> int {
    (if f.len() >= 1 {
        digit_val(f[0]) * 10
    } else {
        0
    }) + (if f.len() >= 2 {
        digit_val(f[1])
    } else {
        0
    }) + (if f.len() >= 3 && digit_val(f[2]) >= 5 {
        1int
    } else {
        0int
    })
}

/// A decimal literal: a nonempty digit string, optionally followed by a
/// dot and a nonempty digit string.
pub open spec fn dec_valid(t: Seq<char>) -> bool {
    let k = int_digits_len(t) as int;
    &&& k > 0
    &&& (k == t.len() || (k < t.len() && t[k] == '.' && k + 1 < t.len() && all_digits(
        t.skip(k + 1),
    )))
}

/// The decimal's value in hundredths, rounded half up past two digits.
pub open spec fn dec_cents(t: Seq<char>) -> int {
    let k = int_digits_len(t) as int;
    digits_val(t.take(k)) * 100 + if k < t.len() {
        frac_cents(t.skip(k + 1))
    } else {
        0
    }
}

/// The decimal denotes a value strictly above zero.
pub open spec fn dec_positive(t: Seq<char>) -> bool {
    exists|i: int| 0 <= i < t.len() && is_digit(#[trigger] t[i]) && t[i] != '0'
}

/// What parsing a command line yields, for every input.
pub open spec fn spec_parse_command(s: Seq<char>) -> Result<CmdView, AuthError> {
    if s == "init"@ {
        Ok(CmdView::Init)
    } else if starts_with_spec(s, "add_key"@) {
        let key = trim_spec(s.skip("add_key"@.len() as int));
        if spec_valid_key(key) {
            Ok(CmdView::AddKey(key))
        } else {
            Err(AuthError::InvalidKeyFormat)
        }
    } else if starts_with_spec(s, "delete_key"@) {
        Ok(CmdView::DeleteKey)
    } else if starts_with_spec(s, "transfer"@) {
        let toks = tokens_spec(s);
        if toks.len() != 3 {
            Err(AuthError::UnrecognizedCommand)
        } else if toks[0] != "transfer"@ {
            Err(AuthError::UnrecognizedCommand)
        } else if !(dec_valid(toks[2]) && dec_positive(toks[2]) && dec_cents(toks[2])
            <= MAX_CENTS as int) {
            Err(AuthError::InvalidTransferAmount)
        } else if !valid_account_id(toks[1]) {
            Err(AuthError::UnrecognizedCommand)
        } else {
            Ok(CmdView::Transfer(toks[1], (dec_cents(toks[2]) * CENT as int) as nat))
        }
    } else {
        Err(AuthError::UnrecognizedCommand)
    }
}

/// Key material failing the format rule is never silently coerced: a
/// parse that yields `AddKey` always carries well-formed key material,
/// exactly the trimmed remainder of the command line; every ill-formed
/// key makes the parse fail.
pub proof fn lemma_add_key_never_coerced(header: Seq<char>)
    ensures
        spec_parse_command(header) matches Ok(CmdView::AddKey(k)) ==> k == trim_spec(
            header.skip("add_key"@.len() as int),
        ) && spec_valid_key(k),
        (starts_with_spec(header, "add_key"@) && header != "init"@ && !spec_valid_key(
            trim_spec(header.skip("add_key"@.len() as int)),
        )) ==> spec_parse_command(header) == Err::<CmdView, AuthError>(AuthError::InvalidKeyFormat),
{
}

proof fn lemma_int_digits_run(t: Seq<char>, i: int)
    requires
        0 <= i <= t.len(),
        forall|k: int| 0 <= k < i ==> is_digit(#[trigger] t[k]),
        i == t.len() || !is_digit(t[i]),
    ensures
        int_digits_len(t) == i,
    decreases i,
{
    if i == 0 {
    } else {
        assert(is_digit(t[0]));
        lemma_int_digits_run(t.skip(1), i - 1);
    }
}

proof fn lemma_int_digits_ge(t: Seq<char>, i: int)
    requires
        0 <= i <= t.len(),
        forall|k: int| 0 <= k < i ==> is_digit(#[trigger] t[k]),
    ensures
        int_digits_len(t) >= i,
    decreases i,
{
    if i > 0 {
        assert(is_digit(t[0]));
        lemma_int_digits_ge(t.skip(1), i - 1);
    }
}

proof fn lemma_digits_val_step(t: Seq<char>, i: int)
    requires
        0 <= i < t.len(),
    ensures
        digits_val(t.take(i + 1)) == digits_val(t.take(i)) * 10 + digit_val(t[i]),
{
    assert(t.take(i + 1).take(i) =~= t.take(i));
    assert(t.take(i + 1)[i] == t[i]);
}

proof fn lemma_digits_val_nonneg(t: Seq<char>, i: int)
    requires
        0 <= i <= t.len(),
        forall|k: int| 0 <= k < i ==> is_digit(#[trigger] t[k]),
    ensures
        digits_val(t.take(i)) >= 0,
    decreases i,
{
    if i == 0 {
        assert(t.take(0) =~= Seq::<char>::empty());
    } else {
        lemma_digits_val_nonneg(t, i - 1);
        lemma_digits_val_step(t, i - 1);
    }
}

proof fn lemma_digits_val_mono(t: Seq<char>, i: int, j: int)
    requires
        0 <= i <= j <= t.len(),
        forall|k: int| 0 <= k < j ==> is_digit(#[trigger] t[k]),
    ensures
        digits_val(t.take(i)) <= digits_val(t.take(j)),
    decreases j - i,
{
    if i < j {
        lemma_digits_val_mono(t, i, j - 1);
        lemma_digits_val_nonneg(t, j - 1);
        lemma_digits_val_step(t, j - 1);
    }
}

/// ASCII decimal digit, as executable code.
pub fn is_digit_char(c: char) -> (r: bool)
    ensures
        r == is_digit(c),
{
    '0' <= c && c <= '9'
}

/// The first `int_digits_len(t)` characters of `t` are digits.
proof fn lemma_int_digits_prefix(t: Seq<char>)
    ensures
        int_digits_len(t) <= t.len(),
        forall|k: int| 0 <= k < int_digits_len(t) ==> is_digit(#[trigger] t[k]),
    decreases t.len(),
{
    if t.len() > 0 && is_digit(t[0]) {
        lemma_int_digits_prefix(t.skip(1));
        assert forall|k: int| 0 <= k < int_digits_len(t) implies is_digit(t[k]) by {
            if k > 0 {
                assert(t.skip(1)[k - 1] == t[k]);
            }
        }
    }
}

/// Parse a decimal literal into hundredths. `None` exactly on inputs that
/// are not a decimal, or whose value in hundredths is above [`MAX_CENTS`].
/// The flag says whether the decimal is strictly positive.
pub fn parse_decimal_cents(t: &str) -> (r: Option<(u128, bool)>)
    ensures
        r is Some <==> dec_valid(t@) && dec_cents(t@) <= MAX_CENTS as int,
        r matches Some(p) ==> p.0 as int == dec_cents(t@) && p.1 == dec_positive(t@),
{
    let n: usize = t.unicode_len();
    let mut i: usize = 0;
    let mut acc: u128 = 0;
    let mut pos: bool = false;
    proof {
        assert(t@.take(0) =~= Seq::<char>::empty());
    }
    while i < n && is_digit_char(t.get_char(i))
        invariant
            0 <= i <= n,
            n == t@.len(),
            forall|k: int| 0 <= k < i ==> is_digit(#[trigger] t@[k]),
            acc as int == digits_val(t@.take(i as int)),
            acc <= INT_CAP,
            pos == exists|k: int| 0 <= k < i && is_digit(#[trigger] t@[k]) && t@[k] != '0',
        decreases n - i,
    {
        let c = t.get_char(i);
        let d: u128 = ((c as u32) - 48) as u128;
        proof {
            assert(is_digit(t@[i as int]));
            assert(d as int == digit_val(t@[i as int]));
            assert(0 <= d <= 9);
        }
        let candidate: u128 = acc * 10 + d;
        proof {
            lemma_digits_val_step(t@, i as int);
        }
        if candidate > INT_CAP {
            proof {
                let k = int_digits_len(t@) as int;
                lemma_int_digits_ge(t@, i + 1);
                lemma_int_digits_prefix(t@);
                if dec_valid(t@) {
                    lemma_digits_val_mono(t@, i + 1, k);
                    assert(digits_val(t@.take(k)) >= candidate as int);
                    lemma_frac_cents_nonneg(t@);
                    assert(dec_cents(t@) > MAX_CENTS as int);
                }
            }
            return None;
        }
        if c != '0' {
            pos = true;
        }
        acc = candidate;
        i = i + 1;
    }
    if i == 0 {
        proof {
            if n > 0 {
                lemma_int_digits_run(t@, 0);
            }
            assert(!dec_valid(t@));
        }
        return None;
    }
    proof {
        lemma_int_digits_run(t@, i as int);
    }
    if i == n {
        let cents: u128 = acc * 100;
        if cents > MAX_CENTS {
            return None;
        }
        return Some((cents, pos));
    }
    if t.get_char(i) != '.' {
        return None;
    }
    if i + 1 == n {
        return None;
    }
    let frac_start: usize = i + 1;
    let mut j: usize = frac_start;
    let mut d1: u128 = 0;
    let mut d2: u128 = 0;
    let mut round_up: bool = false;
    while j < n
        invariant
            frac_start <= j <= n,
            n == t@.len(),
            1 < frac_start < n,
            t@[frac_start - 1] == '.',
            int_digits_len(t@) == frac_start - 1,
            acc as int == digits_val(t@.take(frac_start - 1)),
            acc <= INT_CAP,
            forall|k: int| frac_start <= k < j ==> is_digit(#[trigger] t@[k]),
            j >= frac_start + 1 ==> d1 as int == digit_val(t@[frac_start as int]),
            j < frac_start + 1 ==> d1 == 0,
            j >= frac_start + 2 ==> d2 as int == digit_val(t@[frac_start + 1]),
            j < frac_start + 2 ==> d2 == 0,
            j >= frac_start + 3 ==> round_up == (digit_val(t@[frac_start + 2]) >= 5),
            j < frac_start + 3 ==> round_up == false,
            d1 <= 9,
            d2 <= 9,
            pos == exists|k: int|
                0 <= k < j && k != frac_start - 1 && is_digit(#[trigger] t@[k]) && t@[k] != '0',
        decreases n - j,
    {
        let c = t.get_char(j);
        if !('0' <= c && c <= '9') {
            proof {
                let f = t@.skip(frac_start as int);
                assert(f[j - frac_start] == t@[j as int]);
                assert(!all_digits(f));
                assert(!dec_valid(t@));
            }
            return None;
        }
        let d: u128 = ((c as u32) - 48) as u128;
        if j == frac_start {
            d1 = d;
        } else if j == frac_start + 1 {
            d2 = d;
        } else if j == frac_start + 2 {
            round_up = d >= 5;
        }
        if c != '0' {
            pos = true;
        }
        j = j + 1;
    }
    let fc: u128 = d1 * 10 + d2 + if round_up {
        1
    } else {
        0
    };
    proof {
        let f = t@.skip(frac_start as int);
        assert(f.len() == n - frac_start);
        assert(f.len() >= 1);
        assert(f[0] == t@[frac_start as int]);
        if f.len() >= 2 {
            assert(f[1] == t@[frac_start + 1]);
        }
        if f.len() >= 3 {
            assert(f[2] == t@[frac_start + 2]);
        }
        assert(fc as int == frac_cents(f));
        assert forall|m: int| 0 <= m < f.len() implies is_digit(f[m]) by {
            assert(f[m] == t@[frac_start + m]);
        }
        assert(dec_valid(t@));
        assert(dec_cents(t@) == acc as int * 100 + fc as int);
    }
    let cents: u128 = acc * 100 + fc;
    if cents > MAX_CENTS {
        return None;
    }
    proof {
        assert(pos == dec_positive(t@)) by {
            if pos {
            } else {
                assert forall|k: int| 0 <= k < t@.len() implies !(is_digit(t@[k]) && t@[k] != '0')
                by {
                    if k == frac_start - 1 {
                        assert(t@[k] == '.');
                    }
                }
            }
        }
    }
    Some((cents, pos))
}

/// The fractional contribution is never negative on a valid decimal.
proof fn lemma_frac_cents_nonneg(t: Seq<char>)
    requires
        dec_valid(t),
    ensures
        int_digits_len(t) < t.len() ==> frac_cents(t.skip(int_digits_len(t) as int + 1)) >= 0,
{
    let k = int_digits_len(t) as int;
    if k < t.len() {
        let f = t.skip(k + 1);
        assert(is_digit(f[0]));
        if f.len() >= 2 {
            assert(is_digit(f[1]));
        }
        if f.len() >= 3 {
            assert(is_digit(f[2]));
        }
    }
}

} // verus!
