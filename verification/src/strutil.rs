//! Small verified string utilities shared by the rest of the library:
//! equality and prefix tests on string slices, decimal rendering of
//! integers, and conversion between strings and character vectors.

use vstd::prelude::*;
use vstd::string::StrSliceExecFns;
use vstd::string::StringExecFns;

verus! {

/// Equality of two string slices, decided at the level of their
/// character sequences.
pub fn str_eq(a: &str, b: &str) -> (r: bool)
    ensures
        r == (a@ == b@),
{
    let x = a.to_owned();
    let y = b.to_owned();
    x == y
}

/// The decimal digit character for a value below ten.
pub open spec fn dec_digit(d: nat) -> char {
    if d == 0 {
        '0'
    } else if d == 1 {
        '1'
    } else if d == 2 {
        '2'
    } else if d == 3 {
        '3'
    } else if d == 4 {
        '4'
    } else if d == 5 {
        '5'
    } else if d == 6 {
        '6'
    } else if d == 7 {
        '7'
    } else if d == 8 {
        '8'
    } else {
        '9'
    }
}

/// The usual decimal rendering of a natural number, without leading zeros.
pub open spec fn dec_rep(n: nat) -> Seq<char>
    decreases n,
{
    if n < 10 {
        seq![dec_digit(n)]
    } else {
        dec_rep(n / 10).push(dec_digit(n % 10))
    }
}

fn dec_digit_str(d: u64) -> (r: &'static str)
    requires
        d < 10,
    ensures
        r@ =~= seq![dec_digit(d as nat)],
{
    proof {
        reveal_strlit("0");
        reveal_strlit("1");
        reveal_strlit("2");
        reveal_strlit("3");
        reveal_strlit("4");
        reveal_strlit("5");
        reveal_strlit("6");
        reveal_strlit("7");
        reveal_strlit("8");
        reveal_strlit("9");
    }
    match d {
        0 => "0",
        1 => "1",
        2 => "2",
        3 => "3",
        4 => "4",
        5 => "5",
        6 => "6",
        7 => "7",
        8 => "8",
        _ => "9",
    }
}

/// Renders a number in decimal, exactly as `dec_rep` describes.
pub fn dec_string(n: u64) -> (r: String)
    ensures
        r@ == dec_rep(n as nat),
    decreases n,
{
    if n < 10 {
        let r = dec_digit_str(n).to_owned();
        r
    } else {
        let mut s = dec_string(n / 10);
        s.append(dec_digit_str(n % 10));
        proof {
            assert(s@ =~= dec_rep((n / 10) as nat).push(dec_digit((n % 10) as nat)));
        }
        s
    }
}

/// Decimal renderings are never empty, and need two digits from ten up.
pub proof fn lemma_dec_rep_len(n: nat)
    ensures
        dec_rep(n).len() >= 1,
        n >= 10 ==> dec_rep(n).len() >= 2,
    decreases n,
{
    if n >= 10 {
        lemma_dec_rep_len(n / 10);
    }
}

/// Distinct numbers have distinct decimal renderings.
pub proof fn lemma_dec_rep_injective(a: nat, b: nat)
    requires
        a != b,
    ensures
        dec_rep(a) != dec_rep(b),
    decreases a + b,
{
    if a < 10 && b < 10 {
        assert(dec_rep(a)[0] == dec_digit(a));
        assert(dec_rep(b)[0] == dec_digit(b));
        assert(dec_digit(a) != dec_digit(b));
    } else if a < 10 {
        lemma_dec_rep_len(b);
        assert(dec_rep(a).len() == 1);
    } else if b < 10 {
        lemma_dec_rep_len(a);
        assert(dec_rep(b).len() == 1);
    } else {
        if dec_rep(a) == dec_rep(b) {
            assert(dec_rep(a).last() == dec_digit(a % 10));
            assert(dec_rep(b).last() == dec_digit(b % 10));
            assert(dec_rep(a).drop_last() =~= dec_rep(a / 10));
            assert(dec_rep(b).drop_last() =~= dec_rep(b / 10));
            if a % 10 == b % 10 {
                assert(a / 10 != b / 10);
                lemma_dec_rep_injective(a / 10, b / 10);
            } else {
                assert(dec_digit(a % 10) != dec_digit(b % 10));
            }
        }
    }
}

/// A shared prefix cannot make two different sequences equal.
pub proof fn lemma_append_cancel_left(x: Seq<char>, s: Seq<char>, t: Seq<char>)
    requires
        s != t,
    ensures
        x + s != x + t,
{
    if x + s == x + t {
        assert(s =~= (x + s).subrange(x.len() as int, (x + s).len() as int));
        assert(t =~= (x + t).subrange(x.len() as int, (x + t).len() as int));
    }
}

/// A shared suffix cannot make two different sequences equal.
pub proof fn lemma_append_cancel_right(s: Seq<char>, t: Seq<char>, x: Seq<char>)
    requires
        s != t,
    ensures
        s + x != t + x,
{
    if s + x == t + x {
        assert((s + x).len() == s.len() + x.len());
        assert((t + x).len() == t.len() + x.len());
        assert(s.len() == t.len());
        assert(s =~= (s + x).subrange(0, s.len() as int));
        assert(t =~= (t + x).subrange(0, t.len() as int));
        assert(s == t);
    }
}

/// The characters of a string slice, as a vector.
pub fn string_chars(s: &str) -> (r: Vec<char>)
    ensures
        r@ == s@,
{
    let n = s.unicode_len();
    let mut r: Vec<char> = Vec::new();
    let mut i: usize = 0;
    while i < n
        invariant
            n == s@.len(),
            i <= n,
            r@ == s@.subrange(0, i as int),
        decreases n - i,
    {
        r.push(s.get_char(i));
        i = i + 1;
        proof {
            assert(r@ =~= s@.subrange(0, i as int));
        }
    }
    proof {
        assert(r@ =~= s@);
    }
    r
}

/// Relies on std's `FromIterator` impl for `String`: collecting an iterator
/// of characters yields the string holding exactly those characters in order.
#[verifier::external_body]
pub fn chars_to_string(v: &Vec<char>) -> (r: String)
    ensures
        r@ == v@,
{
    v.iter().collect()
}

/// The position just after the last `'/'` of `p`, or zero when `p` holds none.
pub open spec fn last_slash_end(p: Seq<char>) -> int
    decreases p.len(),
{
    if p.len() == 0 {
        0
    } else if p.last() == '/' {
        p.len() as int
    } else {
        last_slash_end(p.drop_last())
    }
}

/// The part of a path after its last separator: its file name, possibly empty.
pub open spec fn last_component(p: Seq<char>) -> Seq<char> {
    p.subrange(last_slash_end(p), p.len() as int)
}

/// The file name of a path: everything after the last separator.
pub fn file_name(p: &String) -> (r: String)
    ensures
        r@ == last_component(p@),
{
    let n = p.as_str().unicode_len();
    let mut i: usize = n;
    proof {
        assert(p@.take(n as int) =~= p@);
    }
    while i > 0
        invariant_except_break
            n == p@.len(),
            i <= n,
            last_slash_end(p@) == last_slash_end(p@.take(i as int)),
        ensures
            n == p@.len(),
            i <= n,
            last_slash_end(p@) == i,
        decreases i,
    {
        if p.as_str().get_char(i - 1) == '/' {
            proof {
                assert(p@.take(i as int).last() == p@[i - 1]);
            }
            break;
        }
        proof {
            assert(p@.take(i as int).drop_last() =~= p@.take(i as int - 1));
            assert(p@.take(i as int).last() == p@[i - 1]);
        }
        i = i - 1;
    }
    proof {
        assert(last_slash_end(p@) == i) by {
            if i == 0 {
                assert(p@.take(0) =~= Seq::<char>::empty());
            }
        }
    }
    let r = p.as_str().substring_char(i, n).to_owned();
    r
}

/// Joins a directory path and a name with a single separator.
pub fn path_join(dir: &String, name: &str) -> (r: String)
    ensures
        r@ == dir@ + "/"@ + name@,
{
    let mut r = dir.clone();
    r.append("/");
    r.append(name);
    r
}

/// Whether `p` is a prefix of `s`, decided on character sequences.
pub fn has_prefix(s: &str, p: &str) -> (r: bool)
    ensures
        r == p@.is_prefix_of(s@),
{
    let sn = s.unicode_len();
    let pn = p.unicode_len();
    if pn > sn {
        return false;
    }
    let mut i: usize = 0;
    while i < pn
        invariant
            pn == p@.len(),
            sn == s@.len(),
            pn <= sn,
            i <= pn,
            forall|j: int| 0 <= j < i ==> s@[j] == p@[j],
        decreases pn - i,
    {
        if s.get_char(i) != p.get_char(i) {
            return false;
        }
        i = i + 1;
    }
    proof {
        assert(p@ =~= s@.subrange(0, pn as int));
    }
    true
}

} // verus!
