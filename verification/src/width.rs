use vstd::prelude::*;

verus! {

/// The number of terminal columns one character occupies on screen. The
/// value depends on the Unicode character alone; control characters count
/// as zero columns.
pub uninterp spec fn char_cols(c: char) -> nat;

/// Relies on `unicode_width::UnicodeWidthChar::width`: the displayed width
/// of a character in columns, which is a pure function of the character.
/// A control character, reported there as `None`, counts as zero columns
/// here, and every printable ASCII character is one column wide.
#[verifier::external_body]
pub fn measure_char(c: char) -> (w: usize)
    ensures
        w as nat == char_cols(c),
        0x20 <= (c as int) && (c as int) < 0x7f ==> w == 1,
{
    unicode_width::UnicodeWidthChar::width(c).unwrap_or(0)
}

/// The number of columns a sequence of characters occupies: the sum of the
/// widths of its characters.
pub open spec fn str_cols(s: Seq<char>) -> nat
    decreases s.len(),
{
    if s.len() == 0 {
        0
    } else {
        char_cols(s[0]) + str_cols(s.drop_first())
    }
}

/// Appending one character widens a string by that character's width.
pub proof fn lemma_str_cols_push(s: Seq<char>, c: char)
    ensures
        str_cols(s.push(c)) == str_cols(s) + char_cols(c),
    decreases s.len(),
{
    if s.len() == 0 {
        assert(s.push(c)[0] == c);
        assert(s.push(c).drop_first() =~= Seq::<char>::empty());
        assert(str_cols(s.push(c).drop_first()) == 0);
    } else {
        assert(s.push(c)[0] == s[0]);
        assert(s.push(c).drop_first() =~= s.drop_first().push(c));
        lemma_str_cols_push(s.drop_first(), c);
    }
}

/// How many characters of `s`, taken from the front one after another, fit
/// within `budget` columns: the count stops at the first character whose
/// width would overrun the budget.
pub open spec fn fit_len(s: Seq<char>, budget: nat) -> nat
    decreases s.len(),
{
    if s.len() == 0 {
        0
    } else if char_cols(s[0]) <= budget {
        1 + fit_len(s.drop_first(), (budget - char_cols(s[0])) as nat)
    } else {
        0
    }
}

/// The prefix kept by `fit_len` fits: it is no longer than the string, its
/// width is at most the budget, and it is maximal in that either the whole
/// string is kept or the next character would overrun the budget.
pub proof fn lemma_fit_len(s: Seq<char>, budget: nat)
    ensures
        fit_len(s, budget) <= s.len(),
        str_cols(s.take(fit_len(s, budget) as int)) <= budget,
        fit_len(s, budget) < s.len() ==> str_cols(s.take(fit_len(s, budget) as int)) + char_cols(
            s[fit_len(s, budget) as int],
        ) > budget,
    decreases s.len(),
{
    if s.len() == 0 {
        assert(s.take(0) =~= s);
    } else {
        let c0 = char_cols(s[0]);
        if c0 <= budget {
            let rest = s.drop_first();
            let b1 = (budget - c0) as nat;
            lemma_fit_len(rest, b1);
            let f = fit_len(rest, b1);
            assert(s.take(1 + f as int).drop_first() =~= rest.take(f as int));
            assert(str_cols(s.take(1 + f as int)) == c0 + str_cols(rest.take(f as int)));
            if f < rest.len() {
                assert(s[1 + f as int] == rest[f as int]);
            }
        } else {
            assert(s.take(0) =~= Seq::<char>::empty());
        }
    }
}

/// The longest prefix of `s` that fits within `budget` columns, together
/// with the number of columns that prefix occupies.
pub fn take_cols(s: &str, budget: usize) -> (r: (String, usize))
    ensures
        r.0@ == s@.take(fit_len(s@, budget as nat) as int),
        r.1 as nat == str_cols(r.0@),
        r.1 <= budget,
{
    let len = s.unicode_len();
    let mut out = String::new();
    let mut w: usize = 0;
    let mut i: usize = 0;
    proof {
        assert(s@.skip(0) =~= s@);
        assert(s@.take(0) =~= Seq::<char>::empty());
    }
    while i < len
        invariant_except_break
            i <= len,
            len as nat == s@.len(),
            out@ == s@.take(i as int),
            w as nat == str_cols(out@),
            w <= budget,
            fit_len(s@, budget as nat) == i + fit_len(s@.skip(i as int), (budget - w) as nat),
        ensures
            i <= len,
            len as nat == s@.len(),
            out@ == s@.take(i as int),
            w as nat == str_cols(out@),
            w <= budget,
            fit_len(s@, budget as nat) == i + fit_len(s@.skip(i as int), (budget - w) as nat),
            i == len || fit_len(s@.skip(i as int), (budget - w) as nat) == 0,
        decreases len - i,
    {
        let c = s.get_char(i);
        let cw = measure_char(c);
        proof {
            assert(s@.skip(i as int)[0] == s@[i as int]);
            assert(s@.skip(i as int).drop_first() =~= s@.skip(i as int + 1));
        }
        if cw > budget - w {
            proof {
                assert(fit_len(s@.skip(i as int), (budget - w) as nat) == 0);
            }
            break ;
        }
        out.push(c);
        proof {
            lemma_str_cols_push(s@.take(i as int), c);
            assert(s@.take(i as int).push(c) =~= s@.take(i as int + 1));
        }
        w = w + cw;
        i = i + 1;
    }
    proof {
        if i == len {
            assert(s@.skip(len as int) =~= Seq::<char>::empty());
        }
        assert(fit_len(s@, budget as nat) == i);
    }
    (out, w)
}

} // verus!
