//! Splitting and joining of `/`-separated names, the way `str::split` and
//! `[&str]::join` do it, with the facts that relate the two.
use vstd::prelude::*;

verus! {

/// The views of a sequence of owned strings.
pub open spec fn views(v: Seq<String>) -> Seq<Seq<char>> {
    v.map_values(|p: String| p@)
}

/// The pieces of `s` between occurrences of `sep`, as `str::split(sep)` yields them:
/// always at least one piece, and an empty piece on either side of a leading or
/// trailing separator.
pub open spec fn split_on(s: Seq<char>, sep: char) -> Seq<Seq<char>>
    decreases s.len(),
{
    if s.len() == 0 {
        seq![Seq::<char>::empty()]
    } else {
        let init = split_on(s.drop_last(), sep);
        if s.last() == sep {
            init.push(Seq::<char>::empty())
        } else {
            init.update(init.len() - 1, init.last().push(s.last()))
        }
    }
}

/// The pieces with `sep` between neighbours, as `join` builds them.
pub open spec fn join_with(pieces: Seq<Seq<char>>, sep: char) -> Seq<char>
    decreases pieces.len(),
{
    if pieces.len() == 0 {
        Seq::<char>::empty()
    } else if pieces.len() == 1 {
        pieces[0]
    } else {
        join_with(pieces.drop_last(), sep).push(sep) + pieces.last()
    }
}

/// Splitting never yields an empty list of pieces.
pub proof fn lemma_split_nonempty(s: Seq<char>, sep: char)
    ensures
        split_on(s, sep).len() >= 1,
    decreases s.len(),
{
    if s.len() > 0 {
        lemma_split_nonempty(s.drop_last(), sep);
    }
}

/// A text without the separator is a single piece.
pub proof fn lemma_split_without_sep(s: Seq<char>, sep: char)
    requires
        !s.contains(sep),
    ensures
        split_on(s, sep) == seq![s],
    decreases s.len(),
{
    if s.len() > 0 {
        let d = s.drop_last();
        assert(!d.contains(sep)) by {
            if d.contains(sep) {
                let k = choose|k: int| 0 <= k < d.len() && d[k] == sep;
                assert(s[k] == sep);
            }
        }
        lemma_split_without_sep(d, sep);
        assert(s.last() != sep) by {
            assert(s[s.len() - 1] == s.last());
        }
        assert(d.push(s.last()) =~= s);
        assert(seq![d].update(0, d.push(s.last())) =~= seq![s]);
    } else {
        assert(s =~= Seq::<char>::empty());
    }
}

/// No piece of a split holds the separator.
pub proof fn lemma_split_pieces_without_sep(s: Seq<char>, sep: char)
    ensures
        forall|k: int| 0 <= k < split_on(s, sep).len() ==> !(#[trigger] split_on(s, sep)[k]).contains(sep),
    decreases s.len(),
{
    if s.len() > 0 {
        let d = s.drop_last();
        lemma_split_pieces_without_sep(d, sep);
        lemma_split_nonempty(d, sep);
        let init = split_on(d, sep);
        let res = split_on(s, sep);
        assert forall|k: int| 0 <= k < res.len() implies !(#[trigger] res[k]).contains(sep) by {
            if s.last() == sep {
                if k < init.len() {
                    assert(res[k] == init[k]);
                } else {
                    assert(res[k] =~= Seq::<char>::empty());
                }
            } else {
                if k < init.len() - 1 {
                    assert(res[k] == init[k]);
                } else {
                    let p = init.last().push(s.last());
                    assert(res[k] == p);
                    assert(!init[init.len() - 1].contains(sep));
                    if p.contains(sep) {
                        let j = choose|j: int| 0 <= j < p.len() && p[j] == sep;
                        if j < p.len() - 1 {
                            assert(init.last()[j] == sep);
                        }
                    }
                }
            }
        }
    } else {
        assert(split_on(s, sep)[0] =~= Seq::<char>::empty());
    }
}

/// Joining the pieces of a split gives back the text.
pub proof fn lemma_join_split(s: Seq<char>, sep: char)
    ensures
        join_with(split_on(s, sep), sep) == s,
    decreases s.len(),
{
    if s.len() > 0 {
        let d = s.drop_last();
        lemma_join_split(d, sep);
        lemma_split_nonempty(d, sep);
        let init = split_on(d, sep);
        if s.last() == sep {
            let res = init.push(Seq::<char>::empty());
            assert(res.drop_last() =~= init);
            assert(join_with(res, sep) =~= d.push(sep));
            assert(d.push(sep) =~= s);
        } else {
            let res = init.update(init.len() - 1, init.last().push(s.last()));
            if init.len() == 1 {
                assert(join_with(res, sep) == res[0]);
                assert(res[0] =~= d.push(s.last()));
            } else {
                assert(res.drop_last() =~= init.drop_last());
                assert(join_with(res, sep) == join_with(init.drop_last(), sep).push(sep) + init.last().push(
                    s.last(),
                ));
                assert(join_with(init, sep) == join_with(init.drop_last(), sep).push(sep) + init.last());
                assert(join_with(res, sep) =~= join_with(init, sep).push(s.last()));
            }
            assert(d.push(s.last()) =~= s);
        }
    }
}

/// A first piece without the separator stands alone in front of the pieces of the rest.
pub proof fn lemma_split_after_first(first: Seq<char>, rest: Seq<char>, sep: char)
    requires
        !first.contains(sep),
    ensures
        split_on(first.push(sep) + rest, sep) == seq![first] + split_on(rest, sep),
    decreases rest.len(),
{
    let whole = first.push(sep) + rest;
    if rest.len() == 0 {
        assert(whole =~= first.push(sep));
        assert(whole.drop_last() =~= first);
        lemma_split_without_sep(first, sep);
        assert(split_on(whole, sep) =~= seq![first] + seq![Seq::<char>::empty()]);
    } else {
        let r = rest.drop_last();
        lemma_split_after_first(first, r, sep);
        lemma_split_nonempty(r, sep);
        assert(whole.drop_last() =~= first.push(sep) + r);
        assert(whole.last() == rest.last());
        let init = split_on(r, sep);
        if rest.last() == sep {
            assert(split_on(whole, sep) =~= seq![first] + init.push(Seq::<char>::empty()));
        } else {
            let big = seq![first] + init;
            assert(big.update(big.len() - 1, big.last().push(rest.last())) =~= seq![first] + init.update(
                init.len() - 1,
                init.last().push(rest.last()),
            ));
        }
    }
}

/// Splits `s` at every `sep`, like `s.split(sep)`.
pub fn split_text(s: &str, sep: char) -> (pieces: Vec<String>)
    ensures
        views(pieces@) == split_on(s@, sep),
{
    let n = s.unicode_len();
    let mut pieces: Vec<String> = Vec::new();
    let mut start: usize = 0;
    let mut i: usize = 0;
    assert(s@.take(0) =~= Seq::<char>::empty());
    assert(s@.subrange(0, 0) =~= Seq::<char>::empty());
    while i < n
        invariant
            n == s@.len(),
            start <= i <= n,
            views(pieces@).push(s@.subrange(start as int, i as int)) == split_on(s@.take(i as int), sep),
        decreases n - i,
    {
        let c = s.get_char(i);
        let ghost before = s@.take(i as int);
        assert(s@.take(i + 1).drop_last() =~= before);
        assert(s@.take(i + 1).last() == c);
        if c == sep {
            let ghost prev = pieces@;
            let piece = String::from_str(s.substring_char(start, i));
            pieces.push(piece);
            assert(views(pieces@) =~= views(prev).push(s@.subrange(start as int, i as int)));
            start = i + 1;
            assert(s@.subrange(start as int, (i + 1) as int) =~= Seq::<char>::empty());
        } else {
            assert(s@.subrange(start as int, (i + 1) as int) =~= s@.subrange(start as int, i as int).push(c));
            assert(views(pieces@).push(s@.subrange(start as int, (i + 1) as int)) =~= views(pieces@).push(
                s@.subrange(start as int, i as int),
            ).update(views(pieces@).len() as int, s@.subrange(start as int, i as int).push(c)));
        }
        i = i + 1;
    }
    let ghost prev = pieces@;
    let last = String::from_str(s.substring_char(start, n));
    pieces.push(last);
    assert(s@.take(n as int) =~= s@);
    assert(views(pieces@) =~= views(prev).push(s@.subrange(start as int, n as int)));
    pieces
}

} // verus!

verus! {

/// The pieces of a prefix of a list, joined: one more piece adds a separator and the piece.
pub proof fn lemma_join_take_step(pieces: Seq<Seq<char>>, i: int, sep: char)
    requires
        0 <= i < pieces.len(),
    ensures
        join_with(pieces.take(i + 1), sep) == if i == 0 {
            pieces[0]
        } else {
            join_with(pieces.take(i), sep).push(sep) + pieces[i]
        },
{
    assert(pieces.take(i + 1).drop_last() =~= pieces.take(i));
    assert(pieces.take(i + 1).last() == pieces[i]);
    if i == 0 {
        assert(pieces.take(1)[0] == pieces[0]);
    }
}

/// Joins the pieces with `/` between neighbours, like `pieces.join("/")`.
pub fn join_with_slash(pieces: &Vec<String>) -> (joined: String)
    ensures
        joined@ == join_with(views(pieces@), '/'),
{
    let mut joined = String::new();
    let n = pieces.len();
    proof {
        reveal_strlit("/");
        assert(views(pieces@).take(0) =~= Seq::<Seq<char>>::empty());
    }
    for i in 0..n
        invariant
            n == pieces@.len(),
            "/"@ == seq!['/'],
            joined@ == join_with(views(pieces@).take(i as int), '/'),
    {
        proof {
            lemma_join_take_step(views(pieces@), i as int, '/');
        }
        if i > 0 {
            joined.append("/");
        }
        joined.append(pieces[i].as_str());
        assert(joined@ =~= join_with(views(pieces@).take(i + 1), '/'));
    }
    assert(views(pieces@).take(n as int) =~= views(pieces@));
    joined
}

} // verus!

verus! {

/// The decimal digit character for `d` (below ten).
pub open spec fn digit_char(d: nat) -> char {
    if d == 0 { '0' } else if d == 1 { '1' } else if d == 2 { '2' } else if d == 3 { '3' }
    else if d == 4 { '4' } else if d == 5 { '5' } else if d == 6 { '6' } else if d == 7 { '7' }
    else if d == 8 { '8' } else { '9' }
}

/// The decimal numeral of `n`, without leading zeros.
pub open spec fn decimal(n: nat) -> Seq<char>
    decreases n,
{
    if n < 10 {
        seq![digit_char(n)]
    } else {
        decimal(n / 10).push(digit_char(n % 10))
    }
}

/// The decimal numeral of a signed number, with a `-` in front of a negative one.
pub open spec fn signed_decimal(n: int) -> Seq<char> {
    if n < 0 {
        seq!['-'] + decimal((-n) as nat)
    } else {
        decimal(n as nat)
    }
}

/// Whether a character is a decimal digit.
pub open spec fn is_digit(c: char) -> bool {
    '0' <= c && c <= '9'
}

/// The value of a decimal digit character.
pub open spec fn digit_value(c: char) -> int {
    (c as int) - ('0' as int)
}

/// The number that a string of decimal digits stands for, read in base ten.
pub open spec fn digits_value(s: Seq<char>) -> int
    decreases s.len(),
{
    if s.len() == 0 {
        0
    } else {
        10 * digits_value(s.drop_last()) + digit_value(s.last())
    }
}

/// Whether `s` is the usual decimal numeral of `n`: at least one digit, digits only,
/// no leading zero, and read in base ten it is `n`.
pub open spec fn numeral_of(s: Seq<char>, n: int) -> bool {
    &&& s.len() >= 1
    &&& forall|i: int| 0 <= i < s.len() ==> is_digit(#[trigger] s[i])
    &&& (s.len() > 1 ==> s[0] != '0')
    &&& digits_value(s) == n
}

proof fn lemma_digit_char(d: nat)
    requires
        d < 10,
    ensures
        is_digit(digit_char(d)),
        digit_value(digit_char(d)) == d,
        d >= 1 ==> digit_char(d) != '0',
{
}

/// `decimal(n)` is the numeral of `n`: its digits read in base ten give back `n`, and it
/// has no leading zero.
pub proof fn lemma_decimal_is_numeral(n: nat)
    ensures
        numeral_of(decimal(n), n as int),
    decreases n,
{
    if n < 10 {
        lemma_digit_char(n);
        let s = decimal(n);
        assert(s == seq![digit_char(n)]);
        assert(s.drop_last() =~= Seq::<char>::empty());
        assert(digits_value(s.drop_last()) == 0);
        assert(digits_value(s) == n);
    } else {
        let q = n / 10;
        let r = n % 10;
        lemma_decimal_is_numeral(q);
        lemma_digit_char(r);
        let s = decimal(n);
        assert(s == decimal(q).push(digit_char(r)));
        assert(s.drop_last() =~= decimal(q));
        vstd::arithmetic::div_mod::lemma_fundamental_div_mod(n as int, 10);
        assert(digits_value(s) == 10 * (q as int) + (r as int));
        assert forall|i: int| 0 <= i < s.len() implies is_digit(#[trigger] s[i]) by {
            if i < s.len() - 1 {
                assert(s[i] == decimal(q)[i]);
            }
        }
        assert(s[0] == decimal(q)[0]);
        if q < 10 {
            lemma_digit_char(q);
            assert(decimal(q) == seq![digit_char(q)]);
            assert(q >= 1);
            assert(s[0] != '0');
        } else {
            lemma_decimal_is_numeral(q / 10);
            assert(decimal(q) == decimal(q / 10).push(digit_char(q % 10)));
            assert(decimal(q).len() > 1);
            assert(s[0] != '0');
        }
        assert(s.len() >= 1);
        assert(digits_value(s) == n);
    }
}

/// Two numerals that read as numbers are equal only for equal numbers.
pub proof fn lemma_numerals_differ(s: Seq<char>, t: Seq<char>, n: int, m: int)
    requires
        numeral_of(s, n),
        numeral_of(t, m),
        n != m,
    ensures
        s != t,
{
}

/// The numeral of a signed number: a non-negative one is its decimal numeral; a negative
/// one is `-` followed by the numeral of its magnitude.
pub proof fn lemma_signed_decimal_is_numeral(n: int)
    ensures
        n >= 0 ==> numeral_of(signed_decimal(n), n),
        n < 0 ==> signed_decimal(n)[0] == '-' && numeral_of(signed_decimal(n).drop_first(), -n),
{
    if n >= 0 {
        lemma_decimal_is_numeral(n as nat);
    } else {
        lemma_decimal_is_numeral((-n) as nat);
        assert((seq!['-'] + decimal((-n) as nat)).drop_first() =~= decimal((-n) as nat));
    }
}

/// Different numbers have different numerals.
pub proof fn lemma_signed_decimal_injective(n: int, m: int)
    requires
        n != m,
    ensures
        signed_decimal(n) != signed_decimal(m),
{
    lemma_signed_decimal_is_numeral(n);
    lemma_signed_decimal_is_numeral(m);
    if n >= 0 && m >= 0 {
        lemma_numerals_differ(signed_decimal(n), signed_decimal(m), n, m);
    } else if n < 0 && m < 0 {
        if signed_decimal(n) == signed_decimal(m) {
            lemma_numerals_differ(signed_decimal(n).drop_first(), signed_decimal(m).drop_first(), -n, -m);
        }
    } else if n >= 0 {
        assert(is_digit(signed_decimal(n)[0]));
    } else {
        assert(is_digit(signed_decimal(m)[0]));
    }
}

fn digit_text(d: u64) -> (text: &'static str)
    requires
        d < 10,
    ensures
        text@ == seq![digit_char(d as nat)],
{
    proof {
        reveal_strlit("0"); reveal_strlit("1"); reveal_strlit("2"); reveal_strlit("3"); reveal_strlit("4");
        reveal_strlit("5"); reveal_strlit("6"); reveal_strlit("7"); reveal_strlit("8"); reveal_strlit("9");
    }
    if d == 0 { "0" } else if d == 1 { "1" } else if d == 2 { "2" } else if d == 3 { "3" }
    else if d == 4 { "4" } else if d == 5 { "5" } else if d == 6 { "6" } else if d == 7 { "7" }
    else if d == 8 { "8" } else { "9" }
}

/// The decimal numeral of `n`, as `n.to_string()` writes it.
pub fn decimal_text(n: u64) -> (text: String)
    ensures
        text@ == decimal(n as nat),
        numeral_of(text@, n as int),
    decreases n,
{
    proof {
        lemma_decimal_is_numeral(n as nat);
    }
    if n < 10 {
        String::from_str(digit_text(n))
    } else {
        let mut text = decimal_text(n / 10);
        text.append(digit_text(n % 10));
        text
    }
}

/// The decimal numeral of a signed number, as `n.to_string()` writes it.
pub fn signed_decimal_text(n: i64) -> (text: String)
    ensures
        text@ == signed_decimal(n as int),
        n >= 0 ==> numeral_of(text@, n as int),
        n < 0 ==> text@[0] == '-' && numeral_of(text@.drop_first(), -n),
{
    proof {
        lemma_signed_decimal_is_numeral(n as int);
    }
    if n < 0 {
        proof {
            reveal_strlit("-");
        }
        let magnitude: u64 = if n == i64::MIN {
            9223372036854775808u64
        } else {
            (-n) as u64
        };
        let mut text = String::from_str("-");
        text.append(decimal_text(magnitude).as_str());
        text
    } else {
        decimal_text(n as u64)
    }
}

} // verus!
