//! Messages in the user's language. The library names each message by its message id
//! (the English text); the host looks the id up in the message catalog of the current
//! locale and hands the catalog's text back where a message has a placeholder to fill.

use vstd::prelude::*;

verus! {

/// The character of a decimal digit.
pub open spec fn digit_char(d: nat) -> char {
    (48 + d) as char
}

/// The decimal digits of `n`, most significant first, without leading zeros.
pub open spec fn spec_decimal(n: nat) -> Seq<char>
    decreases n,
{
    if n < 10 {
        seq![digit_char(n)]
    } else {
        spec_decimal(n / 10) + seq![digit_char(n % 10)]
    }
}

/// The text of one decimal digit.
fn digit_text(d: usize) -> (s: &'static str)
    requires
        d < 10,
    ensures
        s@ == seq![digit_char(d as nat)],
{
    proof {
        reveal_strlit("0");
        reveal_strlit("1");
        reveal_strlit("2");
        reveal_strlit("3");
        reveal_strlit("4");
        reveal_strlit("5");
        reveal_strlit("6");
        reveal_strlit("7");
        reveal_strlit("8");
        reveal_strlit("9");
    }
    match d {
        0 => "0",
        1 => "1",
        2 => "2",
        3 => "3",
        4 => "4",
        5 => "5",
        6 => "6",
        7 => "7",
        8 => "8",
        _ => "9",
    }
}

/// Writes `n` in decimal, without sign or leading zeros.
pub fn decimal_text(n: usize) -> (s: String)
    ensures
        s@ == spec_decimal(n as nat),
    decreases n,
{
    if n < 10 {
        digit_text(n).to_string()
    } else {
        let mut s = decimal_text(n / 10);
        s.append(digit_text(n % 10));
        s
    }
}

/// The place of the first "{}" in `t` at or after `k`, or -1 when there is none.
pub open spec fn placeholder_from(t: Seq<char>, k: int) -> int
    decreases t.len() - k,
{
    if k < 0 || k + 1 >= t.len() {
        -1
    } else if t[k] == '{' && t[k + 1] == '}' {
        k
    } else {
        placeholder_from(t, k + 1)
    }
}

/// `t` with its first "{}" replaced by `v`; `t` itself when it has no "{}".
pub open spec fn spec_fill(t: Seq<char>, v: Seq<char>) -> Seq<char> {
    let k = placeholder_from(t, 0);
    if k < 0 {
        t
    } else {
        t.subrange(0, k) + v + t.subrange(k + 2, t.len() as int)
    }
}

proof fn lemma_placeholder_from_bounds(t: Seq<char>, k: int)
    ensures
        placeholder_from(t, k) == -1 || (k <= placeholder_from(t, k) && placeholder_from(t, k) + 1 < t.len()),
    decreases t.len() - k,
{
    if !(k < 0 || k + 1 >= t.len()) && !(t[k] == '{' && t[k + 1] == '}') {
        lemma_placeholder_from_bounds(t, k + 1);
    }
}

/// Replaces the first "{}" of a message by `value`.
pub fn fill_placeholder(template: &str, value: &str) -> (s: String)
    ensures
        s@ == spec_fill(template@, value@),
{
    let n = template.unicode_len();
    let mut k: usize = 0;
    while n >= 1 && k < n - 1
        invariant
            n == template@.len(),
            k <= n,
            placeholder_from(template@, 0) == placeholder_from(template@, k as int),
        decreases n - k,
    {
        if template.get_char(k) == '{' && template.get_char(k + 1) == '}' {
            proof {
                lemma_placeholder_from_bounds(template@, 0);
            }
            let mut s = template.substring_char(0, k).to_string();
            s.append(value);
            s.append(template.substring_char(k + 2, n));
            return s;
        }
        k = k + 1;
    }
    template.to_string()
}

/// `template` with its first "{}" replaced by the decimal digits of `n`.
pub fn fill_count(template: &str, n: usize) -> (s: String)
    ensures
        s@ == spec_fill(template@, spec_decimal(n as nat)),
{
    let digits = decimal_text(n);
    fill_placeholder(template, digits.as_str())
}


/// The number that a string of decimal digits stands for.
pub open spec fn decimal_value(s: Seq<char>) -> int
    decreases s.len(),
{
    if s.len() == 0 {
        0
    } else {
        decimal_value(s.drop_last()) * 10 + (s.last() as int - 48)
    }
}

/// Reading back the decimal text of a number gives the number. The text is made of
/// digits only, is never empty, and starts with a zero only when the number is zero.
pub proof fn lemma_decimal_reads_back(n: nat)
    ensures
        decimal_value(spec_decimal(n)) == n,
        spec_decimal(n).len() > 0,
        forall|i: int| 0 <= i < spec_decimal(n).len() ==> 48 <= #[trigger] (spec_decimal(n)[i] as int) <= 57,
        spec_decimal(n)[0] == '0' ==> n == 0,
    decreases n,
{
    if n < 10 {
        assert(digit_char(n) as int == 48 + n);
        assert(spec_decimal(n).drop_last() =~= Seq::<char>::empty());
        assert(decimal_value(Seq::<char>::empty()) == 0);
        assert(decimal_value(spec_decimal(n)) == n);
    } else {
        lemma_decimal_reads_back(n / 10);
        let s = spec_decimal(n);
        let head = spec_decimal((n / 10) as nat);
        assert(s == head + seq![digit_char(n % 10)]);
        assert(s.drop_last() =~= head);
        assert(s[0] == head[0]);
        assert(s.last() == digit_char((n % 10) as nat));
        assert(digit_char((n % 10) as nat) as int == 48 + n % 10);
        assert(decimal_value(s) == decimal_value(head) * 10 + (n % 10));
        assert((n / 10) * 10 + n % 10 == n);
        assert(decimal_value(head) == n / 10);
        assert(decimal_value(spec_decimal(n)) == n);
        assert forall|i: int| 0 <= i < s.len() implies 48 <= #[trigger] (s[i] as int) <= 57 by {
            if i < head.len() {
                assert(s[i] == head[i]);
            }
        }
    }
}

/// `t` holds "{}" at `k`.
pub open spec fn has_placeholder_at(t: Seq<char>, k: int) -> bool {
    0 <= k && k + 1 < t.len() && t[k] == '{' && t[k + 1] == '}'
}

proof fn lemma_placeholder_from_first(t: Seq<char>, k: int, j: int)
    requires
        0 <= k <= j,
        has_placeholder_at(t, j),
        forall|i: int| k <= i < j ==> !#[trigger] has_placeholder_at(t, i),
    ensures
        placeholder_from(t, k) == j,
    decreases j - k,
{
    if k < j {
        assert(!has_placeholder_at(t, k));
        lemma_placeholder_from_first(t, k + 1, j);
    }
}

proof fn lemma_placeholder_from_none(t: Seq<char>, k: int)
    requires
        0 <= k,
        forall|i: int| k <= i ==> !#[trigger] has_placeholder_at(t, i),
    ensures
        placeholder_from(t, k) == -1,
    decreases t.len() - k,
{
    if k + 1 < t.len() {
        assert(!has_placeholder_at(t, k));
        lemma_placeholder_from_none(t, k + 1);
    }
}

/// Filling a message replaces its first "{}", and only that one, by the value.
pub proof fn lemma_fill_replaces_first_placeholder(t: Seq<char>, v: Seq<char>, k: int)
    requires
        has_placeholder_at(t, k),
        forall|i: int| 0 <= i < k ==> !#[trigger] has_placeholder_at(t, i),
    ensures
        spec_fill(t, v) == t.subrange(0, k) + v + t.subrange(k + 2, t.len() as int),
{
    lemma_placeholder_from_first(t, 0, k);
}

/// A message without "{}" is left as it is.
pub proof fn lemma_fill_without_placeholder(t: Seq<char>, v: Seq<char>)
    requires
        forall|i: int| !#[trigger] has_placeholder_at(t, i),
    ensures
        spec_fill(t, v) == t,
{
    lemma_placeholder_from_none(t, 0);
}

} // verus!
