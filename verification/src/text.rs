use vstd::prelude::*;
use vstd::string::StrSliceExecFns;
use vstd::string::StringExecFns;

verus! {

// ------------------------------------------------------------------
// Joining fragments with a separator
// ------------------------------------------------------------------

/// The parts concatenated in order, with `sep` between consecutive parts.
pub open spec fn join_seqs(parts: Seq<Seq<char>>, sep: Seq<char>) -> Seq<char>
    decreases parts.len(),
{
    if parts.len() == 0 {
        Seq::empty()
    } else if parts.len() == 1 {
        parts[0]
    } else {
        parts[0] + sep + join_seqs(parts.drop_first(), sep)
    }
}

/// Law: joining one more part appends exactly one separator and that part,
/// so the joined text lists every part once, in order.
pub proof fn lemma_join_push(parts: Seq<Seq<char>>, sep: Seq<char>, part: Seq<char>)
    ensures
        join_seqs(parts.push(part), sep) == if parts.len() == 0 {
            part
        } else {
            join_seqs(parts, sep) + sep + part
        },
    decreases parts.len(),
{
    if parts.len() == 0 {
        assert(parts.push(part) =~= seq![part]);
        assert(join_seqs(seq![part], sep) == seq![part][0]);
        assert(seq![part][0] == part);
    } else if parts.len() == 1 {
        assert(parts.push(part).drop_first() =~= seq![part]);
        assert(parts.push(part)[0] == parts[0]);
        assert(join_seqs(parts.push(part), sep) == parts[0] + sep + join_seqs(
            seq![part],
            sep,
        ));
        assert(join_seqs(seq![part], sep) == seq![part][0]);
        assert(seq![part][0] == part);
        assert(join_seqs(parts, sep) == parts[0]);
    } else {
        let rest = parts.drop_first();
        assert(parts.push(part).drop_first() =~= rest.push(part));
        assert(parts.push(part)[0] == parts[0]);
        assert(join_seqs(parts.push(part), sep) == parts[0] + sep + join_seqs(
            rest.push(part),
            sep,
        ));
        lemma_join_push(rest, sep, part);
        assert(join_seqs(parts, sep) == parts[0] + sep + join_seqs(rest, sep));
        assert(parts[0] + sep + (join_seqs(rest, sep) + sep + part) =~= (parts[0] + sep
            + join_seqs(rest, sep)) + sep + part);
    }
}

/// Joins the fragments with `sep`, as `join_seqs` describes.
pub fn join_strings(parts: &Vec<String>, sep: &str) -> (joined: String)
    ensures
        joined@ == join_seqs(parts.deep_view(), sep@),
{
    let mut joined = String::new();
    let mut i: usize = 0;
    proof {
        assert(parts.deep_view().take(0) =~= Seq::<Seq<char>>::empty());
    }
    while i < parts.len()
        invariant
            i <= parts@.len(),
            joined@ == join_seqs(parts.deep_view().take(i as int), sep@),
        decreases parts@.len() - i,
    {
        if i > 0 {
            joined.append(sep);
        }
        joined.append(parts[i].as_str());
        proof {
            let dv = parts.deep_view();
            assert(dv.take(i as int).push(dv[i as int]) =~= dv.take(i + 1));
            lemma_join_push(dv.take(i as int), sep@, dv[i as int]);
        }
        i = i + 1;
    }
    proof {
        assert(parts.deep_view().take(parts@.len() as int) =~= parts.deep_view());
    }
    joined
}

// ------------------------------------------------------------------
// Decimal rendering of unsigned integers
// ------------------------------------------------------------------

/// The decimal digit character for `d` (which must be below ten).
pub open spec fn digit_char(d: nat) -> char {
    if d == 0 {
        '0'
    } else if d == 1 {
        '1'
    } else if d == 2 {
        '2'
    } else if d == 3 {
        '3'
    } else if d == 4 {
        '4'
    } else if d == 5 {
        '5'
    } else if d == 6 {
        '6'
    } else if d == 7 {
        '7'
    } else if d == 8 {
        '8'
    } else {
        '9'
    }
}

/// The decimal rendering of `n`: most significant digit first, no sign,
/// no leading zero, and a single `0` for zero.
pub open spec fn dec_digits(n: nat) -> Seq<char>
    decreases n,
{
    if n < 10 {
        seq![digit_char(n)]
    } else {
        dec_digits(n / 10) + seq![digit_char(n % 10)]
    }
}

fn digit_str(d: u64) -> (s: &'static str)
    requires
        d < 10,
    ensures
        s@ == seq![digit_char(d as nat)],
{
    if d == 0 {
        proof {
            reveal_strlit("0");
            assert("0"@ =~= seq![digit_char(0)]);
        }
        "0"
    } else if d == 1 {
        proof {
            reveal_strlit("1");
            assert("1"@ =~= seq![digit_char(1)]);
        }
        "1"
    } else if d == 2 {
        proof {
            reveal_strlit("2");
            assert("2"@ =~= seq![digit_char(2)]);
        }
        "2"
    } else if d == 3 {
        proof {
            reveal_strlit("3");
            assert("3"@ =~= seq![digit_char(3)]);
        }
        "3"
    } else if d == 4 {
        proof {
            reveal_strlit("4");
            assert("4"@ =~= seq![digit_char(4)]);
        }
        "4"
    } else if d == 5 {
        proof {
            reveal_strlit("5");
            assert("5"@ =~= seq![digit_char(5)]);
        }
        "5"
    } else if d == 6 {
        proof {
            reveal_strlit("6");
            assert("6"@ =~= seq![digit_char(6)]);
        }
        "6"
    } else if d == 7 {
        proof {
            reveal_strlit("7");
            assert("7"@ =~= seq![digit_char(7)]);
        }
        "7"
    } else if d == 8 {
        proof {
            reveal_strlit("8");
            assert("8"@ =~= seq![digit_char(8)]);
        }
        "8"
    } else {
        proof {
            reveal_strlit("9");
            assert("9"@ =~= seq![digit_char(9)]);
        }
        "9"
    }
}

/// The digit characters of `ds` read back to front.
spec fn rev_digit_chars(ds: Seq<u64>) -> Seq<char> {
    Seq::new(ds.len(), |i: int| digit_char(ds[ds.len() - 1 - i] as nat))
}

proof fn lemma_rev_digit_chars_push(ds: Seq<u64>, d: u64)
    ensures
        rev_digit_chars(ds.push(d)) == seq![digit_char(d as nat)] + rev_digit_chars(ds),
{
    assert(rev_digit_chars(ds.push(d)) =~= seq![digit_char(d as nat)] + rev_digit_chars(ds));
}

/// Renders `n` in decimal, as `dec_digits` describes.
pub fn u64_to_dec(n: u64) -> (s: String)
    ensures
        s@ == dec_digits(n as nat),
{
    let mut digits: Vec<u64> = Vec::new();
    let mut m: u64 = n;
    proof {
        assert(rev_digit_chars(digits@) =~= Seq::<char>::empty());
        assert(dec_digits(n as nat) =~= dec_digits(m as nat) + rev_digit_chars(digits@));
    }
    loop
        invariant_except_break
            dec_digits(n as nat) == dec_digits(m as nat) + rev_digit_chars(digits@),
        invariant
            forall|k: int| 0 <= k < digits@.len() ==> digits@[k] < 10,
        ensures
            forall|k: int| 0 <= k < digits@.len() ==> digits@[k] < 10,
            dec_digits(n as nat) == rev_digit_chars(digits@),
        decreases m,
    {
        let d = m % 10;
        digits.push(d);
        proof {
            lemma_rev_digit_chars_push(digits@.drop_last(), d);
            assert(digits@.drop_last().push(d) =~= digits@);
            if m >= 10 {
                assert(dec_digits(m as nat) == dec_digits((m as nat) / 10) + seq![
                    digit_char((m as nat) % 10),
                ]);
                assert(dec_digits((m as nat) / 10) + (seq![digit_char(d as nat)]
                    + rev_digit_chars(digits@.drop_last())) =~= (dec_digits((m as nat) / 10)
                    + seq![digit_char(d as nat)]) + rev_digit_chars(digits@.drop_last()));
            } else {
                assert(dec_digits(m as nat) =~= seq![digit_char(d as nat)]);
            }
        }
        m = m / 10;
        if m == 0 {
            break;
        }
    }
    let mut s = String::new();
    let mut j: usize = 0;
    let ghost rendered = rev_digit_chars(digits@);
    proof {
        assert(rendered.take(0) =~= Seq::<char>::empty());
    }
    while j < digits.len()
        invariant
            forall|k: int| 0 <= k < digits@.len() ==> digits@[k] < 10,
            rendered == rev_digit_chars(digits@),
            dec_digits(n as nat) == rendered,
            j <= digits@.len(),
            s@ == rendered.take(j as int),
        decreases digits@.len() - j,
    {
        let d = digits[digits.len() - 1 - j];
        s.append(digit_str(d));
        proof {
            assert(rendered[j as int] == digit_char(digits@[digits@.len() - 1 - j] as nat));
            assert(rendered.take(j as int) + seq![rendered[j as int]] =~= rendered.take(j + 1));
        }
        j = j + 1;
    }
    proof {
        assert(rendered.take(digits@.len() as int) =~= rendered);
    }
    s
}

// ------------------------------------------------------------------
// The WHERE-keyword heuristic
// ------------------------------------------------------------------

/// Whether the five characters of `s` starting at `i` spell `WHERE`,
/// in any mix of ASCII case.
pub open spec fn where_at(s: Seq<char>, i: int) -> bool {
    &&& (s[i] == 'w' || s[i] == 'W')
    &&& (s[i + 1] == 'h' || s[i + 1] == 'H')
    &&& (s[i + 2] == 'e' || s[i + 2] == 'E')
    &&& (s[i + 3] == 'r' || s[i + 3] == 'R')
    &&& (s[i + 4] == 'e' || s[i + 4] == 'E')
}

/// Whether `s` contains the keyword `WHERE` anywhere, ignoring ASCII case.
pub open spec fn contains_where(s: Seq<char>) -> bool {
    exists|i: int| 0 <= i && i + 5 <= s.len() && where_at(s, i)
}

/// Decides `contains_where`: the textual heuristic by which the renderer
/// tells whether a custom SQL body already carries a WHERE clause.
pub fn has_where_keyword(s: &str) -> (found: bool)
    ensures
        found == contains_where(s@),
{
    let n = s.unicode_len();
    if n < 5 {
        return false;
    }
    let mut i: usize = 0;
    while i <= n - 5
        invariant
            n == s@.len(),
            5 <= n,
            i <= n - 4,
            forall|k: int| 0 <= k < i ==> !where_at(s@, k),
        decreases n - i,
    {
        let c0 = s.get_char(i);
        let c1 = s.get_char(i + 1);
        let c2 = s.get_char(i + 2);
        let c3 = s.get_char(i + 3);
        let c4 = s.get_char(i + 4);
        if (c0 == 'w' || c0 == 'W') && (c1 == 'h' || c1 == 'H') && (c2 == 'e' || c2 == 'E') && (c3
            == 'r' || c3 == 'R') && (c4 == 'e' || c4 == 'E') {
            proof {
                assert(where_at(s@, i as int));
            }
            return true;
        }
        i = i + 1;
    }
    proof {
        assert(forall|k: int| 0 <= k && k + 5 <= s@.len() ==> !where_at(s@, k));
    }
    false
}

} // verus!
