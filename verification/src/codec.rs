//! The canonical text encoding the session service signs: decimal numbers
//! and length-prefixed fields over characters, with the round-trip and
//! canonicity lemmas the token contracts rest on.

use vstd::prelude::*;

verus! {

pub open spec fn is_digit(c: char) -> bool {
    48 <= (c as u32) && (c as u32) <= 57
}

/// The decimal digit character for a value below ten.
pub open spec fn digit_char(d: int) -> char {
    if d == 0 {
        '0'
    } else if d == 1 {
        '1'
    } else if d == 2 {
        '2'
    } else if d == 3 {
        '3'
    } else if d == 4 {
        '4'
    } else if d == 5 {
        '5'
    } else if d == 6 {
        '6'
    } else if d == 7 {
        '7'
    } else if d == 8 {
        '8'
    } else {
        '9'
    }
}

pub open spec fn digit_val(c: char) -> int {
    (c as u32) - 48
}

/// The decimal digits of `n`, most significant first, without leading zeros.
pub open spec fn spec_digits(n: nat) -> Seq<char>
    decreases n,
{
    if n < 10 {
        seq![digit_char(n as int)]
    } else {
        spec_digits(n / 10).push(digit_char((n % 10) as int))
    }
}

pub open spec fn all_digits(s: Seq<char>) -> bool {
    forall|i: int| 0 <= i < s.len() ==> is_digit(#[trigger] s[i])
}

/// The value of a digit string, most significant first.
pub open spec fn val_of(s: Seq<char>) -> nat
    decreases s.len(),
{
    if s.len() == 0 {
        0
    } else {
        val_of(s.drop_last()) * 10 + (if digit_val(s.last()) >= 0 {
            digit_val(s.last()) as nat
        } else {
            0
        })
    }
}

/// A canonical digit string: nonempty, all digits, no leading zero.
pub open spec fn canonical_digits(s: Seq<char>) -> bool {
    s.len() >= 1 && all_digits(s) && (s[0] == '0' ==> s.len() == 1)
}

pub proof fn lemma_digit_char_val(d: int)
    requires
        0 <= d < 10,
    ensures
        is_digit(digit_char(d)),
        digit_val(digit_char(d)) == d,
{
}

/// The digits of any value are canonical.
pub proof fn lemma_digits_canonical(n: nat)
    ensures
        canonical_digits(spec_digits(n)),
        spec_digits(n)[0] == '0' <==> n == 0,
    decreases n,
{
    if n < 10 {
        lemma_digit_char_val(n as int);
        assert(spec_digits(n) == seq![digit_char(n as int)]);
        assert(spec_digits(n)[0] == digit_char(n as int));
        if n == 0 {
        } else {
            assert(digit_char(n as int) != '0');
        }
    } else {
        lemma_digits_canonical(n / 10);
        lemma_digit_char_val((n % 10) as int);
        let p = spec_digits(n / 10);
        let w = p.push(digit_char((n % 10) as int));
        assert(w[0] == p[0]);
        assert forall|i: int| 0 <= i < w.len() implies is_digit(#[trigger] w[i]) by {
            if i < p.len() {
                assert(w[i] == p[i]);
            } else {
                assert(w[i] == digit_char((n % 10) as int));
            }
        }
        assert(n / 10 > 0);
    }
}

/// Reading the digits of `n` back gives `n`.
pub proof fn lemma_val_of_digits(n: nat)
    ensures
        val_of(spec_digits(n)) == n,
    decreases n,
{
    if n < 10 {
        lemma_digit_char_val(n as int);
        let s = seq![digit_char(n as int)];
        assert(s.drop_last() =~= Seq::<char>::empty());
        assert(s.last() == digit_char(n as int));
        assert(digit_val(s.last()) == n);
        assert(val_of(s.drop_last()) == 0);
        assert(val_of(s) == val_of(s.drop_last()) * 10 + (if digit_val(s.last()) >= 0 {
            digit_val(s.last()) as nat
        } else {
            0
        }));
        assert(val_of(s) == n);
    } else {
        lemma_val_of_digits(n / 10);
        lemma_digit_char_val((n % 10) as int);
        let p = spec_digits(n / 10);
        let w = p.push(digit_char((n % 10) as int));
        assert(w.drop_last() =~= p);
        assert(w.last() == digit_char((n % 10) as int));
        assert(val_of(w) == val_of(p) * 10 + (n % 10));
    }
}

/// Appending more digits never lowers the value.
pub proof fn lemma_val_of_concat_ge(t: Seq<char>, u: Seq<char>)
    ensures
        val_of(t + u) >= val_of(t),
    decreases u.len(),
{
    if u.len() == 0 {
        assert(t + u =~= t);
    } else {
        lemma_val_of_concat_ge(t, u.drop_last());
        assert((t + u).drop_last() =~= t + u.drop_last());
        assert(val_of(t + u) == val_of(t + u.drop_last()) * 10 + (if digit_val((t + u).last())
            >= 0 {
            digit_val((t + u).last()) as nat
        } else {
            0
        }));
        assert(val_of(t + u.drop_last()) * 10 >= val_of(t + u.drop_last()));
    }
}

/// A canonical digit string is exactly the digits of its value.
pub proof fn lemma_canonical_digits_of_val(s: Seq<char>)
    requires
        canonical_digits(s),
    ensures
        s == spec_digits(val_of(s)),
    decreases s.len(),
{
    if s.len() == 1 {
        assert(s.drop_last() =~= Seq::<char>::empty());
        let d = digit_val(s[0]);
        assert(is_digit(s[0]));
        assert(0 <= d < 10);
        assert(s.last() == s[0]);
        assert(val_of(s.drop_last()) == 0);
        assert(val_of(s) == d);
        assert(digit_char(d) == s[0]) by {
            lemma_digit_char_val(d);
            char_digit_unique(s[0], d);
        }
        assert(s =~= spec_digits(val_of(s)));
    } else {
        let p = s.drop_last();
        assert(all_digits(p)) by {
            assert(forall|i: int| 0 <= i < p.len() ==> p[i] == s[i]);
        }
        assert(p[0] == s[0]);
        assert(canonical_digits(p));
        lemma_canonical_digits_of_val(p);
        let d = digit_val(s.last());
        assert(is_digit(s.last()));
        assert(0 <= d < 10);
        assert(val_of(s) == val_of(p) * 10 + d);
        // the value is at least ten, so the digits recurse the same way
        assert(val_of(p) >= 1) by {
            if val_of(p) == 0 {
                lemma_zero_val_is_zero_digit(p);
            }
        }
        assert(val_of(s) >= 10);
        assert(val_of(s) / 10 == val_of(p)) by {
            vstd::arithmetic::div_mod::lemma_div_multiples_vanish_fancy(
                val_of(p) as int,
                d,
                10,
            );
        }
        assert(val_of(s) % 10 == d) by {
            vstd::arithmetic::div_mod::lemma_fundamental_div_mod_converse(
                val_of(s) as int,
                10,
                val_of(p) as int,
                d,
            );
        }
        assert(digit_char(d) == s.last()) by {
            lemma_digit_char_val(d);
            char_digit_unique(s.last(), d);
        }
        assert(spec_digits(val_of(s)) == spec_digits(val_of(p)).push(digit_char(d)));
        assert(s =~= p.push(s.last()));
    }
}

/// A canonical digit string with value zero is the single digit zero.
proof fn lemma_zero_val_is_zero_digit(s: Seq<char>)
    requires
        canonical_digits(s),
        val_of(s) == 0,
    ensures
        s.len() == 1 && s[0] == '0',
    decreases s.len(),
{
    if s.len() == 1 {
        assert(s.drop_last() =~= Seq::<char>::empty());
        assert(digit_val(s[0]) == 0);
        char_digit_unique(s[0], 0);
    } else {
        let p = s.drop_last();
        assert(val_of(s) == val_of(p) * 10 + (if digit_val(s.last()) >= 0 {
            digit_val(s.last()) as nat
        } else {
            0
        }));
        assert(val_of(p) == 0);
        assert(all_digits(p)) by {
            assert(forall|i: int| 0 <= i < p.len() ==> p[i] == s[i]);
        }
        assert(p[0] == s[0]);
        assert(canonical_digits(p));
        lemma_zero_val_is_zero_digit(p);
        assert(s[0] == '0');
        assert(false);
    }
}

/// The first index at or after `i` holding no digit (or the end of `s`).
pub open spec fn scan_digits_end(s: Seq<char>, i: int) -> int
    decreases s.len() - i,
{
    if i < 0 || i >= s.len() || !is_digit(s[i]) {
        i
    } else {
        scan_digits_end(s, i + 1)
    }
}

pub proof fn lemma_scan_digits_end_props(s: Seq<char>, i: int)
    requires
        0 <= i <= s.len(),
    ensures
        i <= scan_digits_end(s, i) <= s.len(),
        all_digits(s.subrange(i, scan_digits_end(s, i))),
        scan_digits_end(s, i) < s.len() ==> !is_digit(s[scan_digits_end(s, i)]),
    decreases s.len() - i,
{
    if i < s.len() && is_digit(s[i]) {
        lemma_scan_digits_end_props(s, i + 1);
        let end = scan_digits_end(s, i);
        assert forall|k: int| 0 <= k < end - i implies is_digit(
            #[trigger] s.subrange(i, end)[k],
        ) by {
            if k == 0 {
                assert(s.subrange(i, end)[0] == s[i]);
            } else {
                assert(s.subrange(i, end)[k] == s.subrange(i + 1, end)[k - 1]);
            }
        }
    }
}

/// Scanning stops exactly at the first non-digit boundary.
pub proof fn lemma_scan_digits_end_exact(s: Seq<char>, i: int, j: int)
    requires
        0 <= i <= j <= s.len(),
        all_digits(s.subrange(i, j)),
        j == s.len() || !is_digit(s[j]),
    ensures
        scan_digits_end(s, i) == j,
    decreases j - i,
{
    if i == j {
    } else {
        assert(is_digit(s[i])) by {
            assert(s.subrange(i, j)[0] == s[i]);
        }
        assert(all_digits(s.subrange(i + 1, j))) by {
            assert(forall|k: int|
                0 <= k < j - i - 1 ==> #[trigger] s.subrange(i + 1, j)[k] == s.subrange(i, j)[k
                    + 1]);
        }
        lemma_scan_digits_end_exact(s, i + 1, j);
    }
}

/// A decimal number read from position `i`: its value and the position one
/// past it. Only the canonical spelling of a value that fits the word size
/// is read back.
pub open spec fn spec_scan_number(s: Seq<char>, i: int) -> Option<(u64, int)> {
    let end = scan_digits_end(s, i);
    if end == i {
        Option::None
    } else if s[i] == '0' && end > i + 1 {
        Option::None
    } else if val_of(s.subrange(i, end)) > u64::MAX {
        Option::None
    } else {
        Option::Some((val_of(s.subrange(i, end)) as u64, end))
    }
}

/// Reading where the canonical digits of `n` stand, followed by a non-digit
/// or the end, yields exactly `n`.
pub proof fn lemma_scan_number_of_digits(s: Seq<char>, i: int, n: u64)
    requires
        0 <= i,
        i + spec_digits(n as nat).len() <= s.len(),
        s.subrange(i, i + spec_digits(n as nat).len()) == spec_digits(n as nat),
        i + spec_digits(n as nat).len() == s.len() || !is_digit(
            s[i + spec_digits(n as nat).len()],
        ),
    ensures
        spec_scan_number(s, i) == Option::Some((n, i + spec_digits(n as nat).len())),
{
    let w = spec_digits(n as nat);
    let j = i + w.len();
    lemma_digits_canonical(n as nat);
    lemma_val_of_digits(n as nat);
    lemma_scan_digits_end_exact(s, i, j);
    assert(s[i] == w[0]) by {
        assert(s.subrange(i, j)[0] == s[i]);
    }
    if s[i] == '0' {
        assert(n == 0);
        assert(w.len() == 1);
    }
    assert(val_of(s.subrange(i, j)) == n);
}

/// What a successful read says of the text: the segment read is exactly the
/// canonical digits of the value, and it ends at a non-digit boundary.
pub proof fn lemma_scan_number_sound(s: Seq<char>, i: int)
    requires
        0 <= i <= s.len(),
        spec_scan_number(s, i) is Some,
    ensures
        i < spec_scan_number(s, i).unwrap().1 <= s.len(),
        s.subrange(i, spec_scan_number(s, i).unwrap().1) == spec_digits(
            spec_scan_number(s, i).unwrap().0 as nat,
        ),
        spec_scan_number(s, i).unwrap().1 == s.len() || !is_digit(
            s[spec_scan_number(s, i).unwrap().1],
        ),
    decreases 0int,
{
    let end = scan_digits_end(s, i);
    lemma_scan_digits_end_props(s, i);
    let t = s.subrange(i, end);
    assert(t[0] == s[i]);
    assert(canonical_digits(t));
    lemma_canonical_digits_of_val(t);
}

/// A length-prefixed field: `<len>:<chars>`.
pub open spec fn spec_enc_str(f: Seq<char>) -> Seq<char> {
    spec_digits(f.len()) + seq![':'] + f
}

/// A terminated number: `<digits>;`.
pub open spec fn spec_enc_u64(n: u64) -> Seq<char> {
    spec_digits(n as nat) + seq![';']
}

/// A length-prefixed field read from position `i`.
pub open spec fn spec_scan_str(s: Seq<char>, i: int) -> Option<(Seq<char>, int)> {
    match spec_scan_number(s, i) {
        Option::None => Option::None,
        Option::Some((v, j)) => if j < s.len() && s[j] == ':' && j + 1 + v <= s.len() {
            Option::Some((s.subrange(j + 1, j + 1 + v), j + 1 + v))
        } else {
            Option::None
        },
    }
}

/// A terminated number read from position `i`.
pub open spec fn spec_scan_u64(s: Seq<char>, i: int) -> Option<(u64, int)> {
    match spec_scan_number(s, i) {
        Option::None => Option::None,
        Option::Some((v, j)) => if j < s.len() && s[j] == ';' {
            Option::Some((v, j + 1))
        } else {
            Option::None
        },
    }
}

/// Reading where an encoded field stands yields exactly that field.
pub proof fn lemma_scan_str_of_encoding(s: Seq<char>, i: int, f: Seq<char>)
    requires
        0 <= i,
        f.len() <= u64::MAX,
        i + spec_enc_str(f).len() <= s.len(),
        s.subrange(i, i + spec_enc_str(f).len()) == spec_enc_str(f),
    ensures
        spec_scan_str(s, i) == Option::Some((f, i + spec_enc_str(f).len())),
{
    let w = spec_digits(f.len());
    let e = spec_enc_str(f);
    let j = i + w.len();
    assert(e.len() == w.len() + 1 + f.len());
    assert forall|k: int| 0 <= k < e.len() implies s[i + k] == e[k] by {
        assert(s.subrange(i, i + e.len())[k] == s[i + k]);
    }
    assert(s.subrange(i, j) =~= w) by {
        assert(forall|k: int| 0 <= k < w.len() ==> e[k] == w[k]);
    }
    assert(s[j] == ':') by {
        assert(e[w.len() as int] == ':');
    }
    lemma_scan_number_of_digits(s, i, f.len() as u64);
    assert(spec_scan_number(s, i) == Option::Some((f.len() as u64, j)));
    assert(j < s.len());
    assert(j + 1 + f.len() <= s.len());
    assert(s.subrange(j + 1, j + 1 + f.len()) =~= f) by {
        assert(forall|k: int| 0 <= k < f.len() ==> e[w.len() + 1 + k] == f[k]);
    }
}

/// Reading where an encoded number stands yields exactly that number.
pub proof fn lemma_scan_u64_of_encoding(s: Seq<char>, i: int, n: u64)
    requires
        0 <= i,
        i + spec_enc_u64(n).len() <= s.len(),
        s.subrange(i, i + spec_enc_u64(n).len()) == spec_enc_u64(n),
    ensures
        spec_scan_u64(s, i) == Option::Some((n, i + spec_enc_u64(n).len())),
{
    let w = spec_digits(n as nat);
    let e = spec_enc_u64(n);
    let j = i + w.len();
    assert(e.len() == w.len() + 1);
    assert forall|k: int| 0 <= k < e.len() implies s[i + k] == e[k] by {
        assert(s.subrange(i, i + e.len())[k] == s[i + k]);
    }
    assert(s.subrange(i, j) =~= w) by {
        assert(forall|k: int| 0 <= k < w.len() ==> e[k] == w[k]);
    }
    assert(s[j] == ';') by {
        assert(e[w.len() as int] == ';');
    }
    lemma_scan_number_of_digits(s, i, n);
}

/// What a successful field read says of the text: the segment read is
/// exactly the encoding of the field returned.
pub proof fn lemma_scan_str_sound(s: Seq<char>, i: int)
    requires
        0 <= i <= s.len(),
        spec_scan_str(s, i) is Some,
    ensures
        i < spec_scan_str(s, i).unwrap().1 <= s.len(),
        s.subrange(i, spec_scan_str(s, i).unwrap().1) == spec_enc_str(
            spec_scan_str(s, i).unwrap().0,
        ),
{
    let (v, j) = spec_scan_number(s, i).unwrap();
    lemma_scan_number_sound(s, i);
    let f = s.subrange(j + 1, j + 1 + v);
    let end = j + 1 + v;
    assert(f.len() == v);
    assert(s.subrange(i, end) =~= spec_digits(v as nat) + seq![':'] + f) by {
        assert(forall|k: int|
            0 <= k < j - i ==> s.subrange(i, end)[k] == s.subrange(i, j)[k]);
        assert(s.subrange(i, end)[j - i] == s[j]);
        assert(forall|k: int|
            0 <= k < v ==> s.subrange(i, end)[j - i + 1 + k] == s[j + 1 + k] && f[k] == s[j + 1
                + k]);
    }
}

/// What a successful number read says of the text.
pub proof fn lemma_scan_u64_sound(s: Seq<char>, i: int)
    requires
        0 <= i <= s.len(),
        spec_scan_u64(s, i) is Some,
    ensures
        i < spec_scan_u64(s, i).unwrap().1 <= s.len(),
        s.subrange(i, spec_scan_u64(s, i).unwrap().1) == spec_enc_u64(
            spec_scan_u64(s, i).unwrap().0,
        ),
{
    let (v, j) = spec_scan_number(s, i).unwrap();
    lemma_scan_number_sound(s, i);
    let end = j + 1;
    assert(s.subrange(i, end) =~= spec_digits(v as nat) + seq![';']) by {
        assert(forall|k: int|
            0 <= k < j - i ==> s.subrange(i, end)[k] == s.subrange(i, j)[k]);
        assert(s.subrange(i, end)[j - i] == s[j]);
    }
}

/// Two digit characters with the same value are the same character.
proof fn char_digit_unique(c: char, d: int)
    requires
        is_digit(c),
        digit_val(c) == d,
        0 <= d < 10,
    ensures
        c == digit_char(d),
{
    assert((c as u32) == d + 48);
    assert((digit_char(d) as u32) == d + 48);
}

fn digit_str(d: u64) -> (r: &'static str)
    requires
        d < 10,
    ensures
        r@ == seq![digit_char(d as int)],
{
    if d == 0 {
        proof {
            reveal_strlit("0");
            assert("0"@ =~= seq![digit_char(0int)]);
        }
        "0"
    } else if d == 1 {
        proof {
            reveal_strlit("1");
            assert("1"@ =~= seq![digit_char(1int)]);
        }
        "1"
    } else if d == 2 {
        proof {
            reveal_strlit("2");
            assert("2"@ =~= seq![digit_char(2int)]);
        }
        "2"
    } else if d == 3 {
        proof {
            reveal_strlit("3");
            assert("3"@ =~= seq![digit_char(3int)]);
        }
        "3"
    } else if d == 4 {
        proof {
            reveal_strlit("4");
            assert("4"@ =~= seq![digit_char(4int)]);
        }
        "4"
    } else if d == 5 {
        proof {
            reveal_strlit("5");
            assert("5"@ =~= seq![digit_char(5int)]);
        }
        "5"
    } else if d == 6 {
        proof {
            reveal_strlit("6");
            assert("6"@ =~= seq![digit_char(6int)]);
        }
        "6"
    } else if d == 7 {
        proof {
            reveal_strlit("7");
            assert("7"@ =~= seq![digit_char(7int)]);
        }
        "7"
    } else if d == 8 {
        proof {
            reveal_strlit("8");
            assert("8"@ =~= seq![digit_char(8int)]);
        }
        "8"
    } else {
        proof {
            reveal_strlit("9");
            assert("9"@ =~= seq![digit_char(9int)]);
        }
        "9"
    }
}

/// The canonical decimal spelling of `n`.
pub fn encode_u64(n: u64) -> (r: String)
    ensures
        r@ == spec_digits(n as nat),
    decreases n,
{
    if n < 10 {
        String::from_str(digit_str(n))
    } else {
        let mut prefix = encode_u64(n / 10);
        prefix.append(digit_str(n % 10));
        proof {
            assert(spec_digits((n / 10) as nat).push(digit_char((n % 10) as int)) =~= spec_digits(
                (n / 10) as nat,
            ) + seq![digit_char((n % 10) as int)]);
        }
        prefix
    }
}

fn is_digit_exec(c: char) -> (r: bool)
    ensures
        r == is_digit(c),
{
    let code = c as u32;
    48 <= code && code <= 57
}

/// Read a decimal number at `start`, exactly as [`spec_scan_number`] does.
pub fn scan_number(s: &str, start: usize) -> (r: Option<(u64, usize)>)
    requires
        start <= s@.len(),
    ensures
        r is Some ==> spec_scan_number(s@, start as int) == Option::Some(
            (r.unwrap().0, r.unwrap().1 as int),
        ) && start < r.unwrap().1 <= s@.len(),
        r is None ==> spec_scan_number(s@, start as int) is None,
{
    let n = s.unicode_len();
    let mut i: usize = start;
    let mut acc: u64 = 0;
    loop
        invariant
            n == s@.len(),
            start <= i <= n,
            acc == val_of(s@.subrange(start as int, i as int)),
            all_digits(s@.subrange(start as int, i as int)),
            scan_digits_end(s@, start as int) == scan_digits_end(s@, i as int),
        ensures
            n == s@.len(),
            start <= i <= n,
            acc == val_of(s@.subrange(start as int, i as int)),
            all_digits(s@.subrange(start as int, i as int)),
            scan_digits_end(s@, start as int) == i as int,
        decreases n - i,
    {
        if i == n {
            break ;
        }
        let c = s.get_char(i);
        if !is_digit_exec(c) {
            break ;
        }
        let d: u64 = (c as u32 - 48) as u64;
        proof {
            let t = s@.subrange(start as int, i as int);
            let t2 = s@.subrange(start as int, i + 1int);
            assert(t2.drop_last() =~= t);
            assert(t2.last() == s@[i as int]);
            assert forall|k: int| 0 <= k < t2.len() implies is_digit(#[trigger] t2[k]) by {
                if k < t.len() {
                    assert(t2[k] == t[k]);
                }
            }
        }
        if acc > (u64::MAX - d) / 10 {
            // the number here does not fit: the full digit run is worth even more
            proof {
                let full_end = scan_digits_end(s@, start as int);
                lemma_scan_digits_end_props(s@, i as int);
                assert(full_end >= i + 1);
                let t2 = s@.subrange(start as int, i + 1int);
                let rest = s@.subrange(i + 1int, full_end);
                assert(s@.subrange(start as int, full_end) =~= t2 + rest);
                lemma_val_of_concat_ge(t2, rest);
                assert(val_of(t2) == acc * 10 + d);
                assert(acc * 10 + d > u64::MAX);
            }
            return Option::None;
        }
        acc = acc * 10 + d;
        i = i + 1;
    }
    proof {
        assert(scan_digits_end(s@, i as int) == i as int);
    }
    if i == start {
        return Option::None;
    }
    if s.get_char(start) == '0' && i > start + 1 {
        return Option::None;
    }
    proof {
        let t = s@.subrange(start as int, i as int);
        assert(t[0] == s@[start as int]);
    }
    Option::Some((acc, i))
}

/// A lower-case hexadecimal digit.
pub open spec fn is_hex_digit(c: char) -> bool {
    is_digit(c) || (97 <= (c as u32) && (c as u32) <= 102)
}

pub open spec fn hex_digit_val(c: char) -> int {
    if is_digit(c) {
        (c as u32) - 48
    } else {
        (c as u32) - 87
    }
}

/// The lower-case hexadecimal digit character for a value below sixteen.
pub open spec fn hex_char(d: int) -> char {
    if d < 10 {
        digit_char(d)
    } else if d == 10 {
        'a'
    } else if d == 11 {
        'b'
    } else if d == 12 {
        'c'
    } else if d == 13 {
        'd'
    } else if d == 14 {
        'e'
    } else {
        'f'
    }
}

pub open spec fn all_hex(s: Seq<char>) -> bool {
    forall|i: int| 0 <= i < s.len() ==> is_hex_digit(#[trigger] s[i])
}

/// The lower-case hex spelling of a byte string, two digits per byte.
pub open spec fn spec_hex(b: Seq<u8>) -> Seq<char> {
    Seq::new(
        2 * b.len(),
        |i: int|
            if i % 2 == 0 {
                hex_char((b[i / 2] / 16) as int)
            } else {
                hex_char((b[i / 2] % 16) as int)
            },
    )
}

/// The bytes spelled by a hex string, one per digit pair.
pub open spec fn spec_unhex(s: Seq<char>) -> Seq<u8> {
    Seq::new(
        s.len() / 2,
        |i: int| (hex_digit_val(s[2 * i]) * 16 + hex_digit_val(s[2 * i + 1])) as u8,
    )
}

pub proof fn lemma_hex_char_val(d: int)
    requires
        0 <= d < 16,
    ensures
        is_hex_digit(hex_char(d)),
        hex_digit_val(hex_char(d)) == d,
{
}

/// Hex spelling round-trips: it has twice the bytes' length, holds only hex
/// digits, and reads back to the same bytes.
pub proof fn lemma_hex_round_trip(b: Seq<u8>)
    ensures
        spec_hex(b).len() == 2 * b.len(),
        all_hex(spec_hex(b)),
        spec_unhex(spec_hex(b)) == b,
{
    let h = spec_hex(b);
    assert forall|i: int| 0 <= i < h.len() implies is_hex_digit(#[trigger] h[i]) by {
        if i % 2 == 0 {
            lemma_hex_char_val((b[i / 2] / 16) as int);
        } else {
            lemma_hex_char_val((b[i / 2] % 16) as int);
        }
    }
    assert(spec_unhex(h) =~= b) by {
        assert forall|i: int| 0 <= i < b.len() implies spec_unhex(h)[i] == b[i] by {
            assert(h[2 * i] == hex_char((b[i] / 16) as int));
            assert(h[2 * i + 1] == hex_char((b[i] % 16) as int));
            lemma_hex_char_val((b[i] / 16) as int);
            lemma_hex_char_val((b[i] % 16) as int);
            assert(b[i] / 16 * 16 + b[i] % 16 == b[i]);
        }
    }
}

fn hex_str(d: u8) -> (r: &'static str)
    requires
        d < 16,
    ensures
        r@ == seq![hex_char(d as int)],
{
    if d < 10 {
        digit_str(d as u64)
    } else if d == 10 {
        proof {
            reveal_strlit("a");
            assert("a"@ =~= seq![hex_char(10int)]);
        }
        "a"
    } else if d == 11 {
        proof {
            reveal_strlit("b");
            assert("b"@ =~= seq![hex_char(11int)]);
        }
        "b"
    } else if d == 12 {
        proof {
            reveal_strlit("c");
            assert("c"@ =~= seq![hex_char(12int)]);
        }
        "c"
    } else if d == 13 {
        proof {
            reveal_strlit("d");
            assert("d"@ =~= seq![hex_char(13int)]);
        }
        "d"
    } else if d == 14 {
        proof {
            reveal_strlit("e");
            assert("e"@ =~= seq![hex_char(14int)]);
        }
        "e"
    } else {
        proof {
            reveal_strlit("f");
            assert("f"@ =~= seq![hex_char(15int)]);
        }
        "f"
    }
}

/// The lower-case hex spelling of `bytes`.
pub fn encode_hex(bytes: &Vec<u8>) -> (r: String)
    ensures
        r@ == spec_hex(bytes@),
{
    let n = bytes.len();
    let mut out = String::new();
    let mut i: usize = 0;
    while i < n
        invariant
            n == bytes@.len(),
            0 <= i <= n,
            out@ =~= spec_hex(bytes@).take(2 * i as int),
        decreases n - i,
    {
        let b = bytes[i];
        out.append(hex_str(b / 16));
        out.append(hex_str(b % 16));
        proof {
            assert(spec_hex(bytes@).take(2 * (i + 1) as int) =~= spec_hex(bytes@).take(2 * i as int)
                + seq![hex_char((bytes@[i as int] / 16) as int), hex_char((bytes@[i as int] % 16) as int)]);
        }
        i = i + 1;
    }
    proof {
        assert(spec_hex(bytes@).take(2 * n as int) =~= spec_hex(bytes@));
    }
    out
}

fn hex_val_exec(c: char) -> (r: Option<u8>)
    ensures
        r is Some <==> is_hex_digit(c),
        r is Some ==> r.unwrap() as int == hex_digit_val(c),
{
    let code = c as u32;
    if 48 <= code && code <= 57 {
        Option::Some((code - 48) as u8)
    } else if 97 <= code && code <= 102 {
        Option::Some((code - 87) as u8)
    } else {
        Option::None
    }
}

/// Read the first `2 * count` characters of `s` as hex into bytes; fails
/// exactly when one of them is not a lower-case hex digit.
pub fn decode_hex_prefix(s: &str, count: usize) -> (r: Option<Vec<u8>>)
    requires
        2 * count <= usize::MAX,
        2 * count <= s@.len(),
    ensures
        r is Some <==> all_hex(s@.take(2 * count as int)),
        r is Some ==> r.unwrap()@ == spec_unhex(s@.take(2 * count as int)),
{
    let mut out: Vec<u8> = Vec::new();
    let mut i: usize = 0;
    while i < count
        invariant
            2 * count <= usize::MAX,
            2 * count <= s@.len(),
            0 <= i <= count,
            all_hex(s@.take(2 * i as int)),
            out@ =~= spec_unhex(s@.take(2 * i as int)),
        decreases count - i,
    {
        let hi = match hex_val_exec(s.get_char(2 * i)) {
            Option::Some(v) => v,
            Option::None => {
                proof {
                    let t = s@.take(2 * count as int);
                    assert(t[2 * i as int] == s@[2 * i as int]);
                }
                return Option::None;
            },
        };
        let lo = match hex_val_exec(s.get_char(2 * i + 1)) {
            Option::Some(v) => v,
            Option::None => {
                proof {
                    let t = s@.take(2 * count as int);
                    assert(t[2 * i + 1int] == s@[2 * i + 1int]);
                }
                return Option::None;
            },
        };
        out.push(hi * 16 + lo);
        proof {
            let t1 = s@.take(2 * i as int);
            let t2 = s@.take(2 * (i + 1) as int);
            assert forall|k: int| 0 <= k < t2.len() implies is_hex_digit(#[trigger] t2[k]) by {
                if k < 2 * i {
                    assert(t1[k] == t2[k]);
                } else if k == 2 * i {
                    assert(t2[k] == s@[2 * i as int]);
                } else {
                    assert(t2[k] == s@[2 * i + 1int]);
                }
            }
            assert(spec_unhex(t2) =~= spec_unhex(t1).push(
                (hex_digit_val(s@[2 * i as int]) * 16 + hex_digit_val(s@[2 * i + 1int])) as u8,
            ));
        }
        i = i + 1;
    }
    proof {
        assert(s@.take(2 * count as int) =~= s@.take(2 * i as int));
    }
    Option::Some(out)
}

} // verus!
