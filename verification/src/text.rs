//! Small verified text utilities: decimal rendering, string equality,
//! path joining and whitespace tokenization.

use vstd::prelude::*;
use vstd::string::StrSliceExecFns;
use vstd::string::StringExecFns;

verus! {

/// Character-wise string equality, stated over the string views.
pub fn str_eq(a: &str, b: &str) -> (r: bool)
    ensures
        r == (a@ == b@),
{
    let alen = a.unicode_len();
    let blen = b.unicode_len();
    if alen != blen {
        return false;
    }
    let mut i: usize = 0;
    while i < alen
        invariant
            alen == a@.len(),
            alen == b@.len(),
            i <= alen,
            forall|j: int| 0 <= j < i ==> a@[j] == b@[j],
        decreases alen - i,
    {
        if a.get_char(i) != b.get_char(i) {
            return false;
        }
        i = i + 1;
    }
    proof {
        assert(a@ =~= b@);
    }
    true
}

/// The decimal digit character for a value below ten.
pub open spec fn digit_char(d: nat) -> char {
    if d == 0 {
        '0'
    } else if d == 1 {
        '1'
    } else if d == 2 {
        '2'
    } else if d == 3 {
        '3'
    } else if d == 4 {
        '4'
    } else if d == 5 {
        '5'
    } else if d == 6 {
        '6'
    } else if d == 7 {
        '7'
    } else if d == 8 {
        '8'
    } else {
        '9'
    }
}

/// The usual decimal rendering of a natural number, most significant
/// digit first, with no leading zeros (zero itself is rendered "0").
pub open spec fn decimal_of(n: nat) -> Seq<char>
    decreases n,
{
    if n < 10 {
        seq![digit_char(n)]
    } else {
        decimal_of(n / 10) + seq![digit_char(n % 10)]
    }
}

/// The single-character string for a decimal digit.
fn digit_str(d: u8) -> (r: &'static str)
    requires
        d < 10,
    ensures
        r@ == seq![digit_char(d as nat)],
{
    proof {
        reveal_strlit("0");
        reveal_strlit("1");
        reveal_strlit("2");
        reveal_strlit("3");
        reveal_strlit("4");
        reveal_strlit("5");
        reveal_strlit("6");
        reveal_strlit("7");
        reveal_strlit("8");
        reveal_strlit("9");
    }
    let r = match d {
        0 => "0",
        1 => "1",
        2 => "2",
        3 => "3",
        4 => "4",
        5 => "5",
        6 => "6",
        7 => "7",
        8 => "8",
        _ => "9",
    };
    proof {
        assert(r@ =~= seq![digit_char(d as nat)]);
    }
    r
}

/// Renders a byte-sized number in decimal.
pub fn decimal_string(n: u8) -> (r: String)
    ensures
        r@ == decimal_of(n as nat),
{
    let mut s = String::new();
    if n >= 100 {
        s.append(digit_str(n / 100));
    }
    if n >= 10 {
        s.append(digit_str((n / 10) % 10));
    }
    s.append(digit_str(n % 10));
    proof {
        if n >= 100 {
            assert((n / 10) / 10 == n / 100) by (nonlinear_arith);
            assert(decimal_of((n / 10) as nat) == decimal_of((n / 100) as nat) + seq![
                digit_char(((n / 10) % 10) as nat),
            ]);
            assert(decimal_of((n / 100) as nat) == seq![digit_char((n / 100) as nat)]);
            assert((n / 100) % 10 == n / 100);
            assert(s@ =~= decimal_of(n as nat));
        } else if n >= 10 {
            assert(decimal_of((n / 10) as nat) == seq![digit_char((n / 10) as nat)]);
            assert((n / 10) % 10 == n / 10);
            assert(s@ =~= decimal_of(n as nat));
        } else {
            assert(s@ =~= decimal_of(n as nat));
        }
    }
    s
}

/// The view of a directory path extended by one relative file name, in the
/// manner of a path `push`: a separator is inserted unless the directory is
/// empty or already ends with one.
pub open spec fn spec_join_path(dir: Seq<char>, name: Seq<char>) -> Seq<char> {
    if dir.len() == 0 {
        name
    } else if dir[dir.len() - 1] == '/' {
        dir + name
    } else {
        dir + seq!['/'] + name
    }
}

/// Appends a relative file name to a directory path.
pub fn join_path(dir: &str, name: &str) -> (r: String)
    ensures
        r@ == spec_join_path(dir@, name@),
{
    let dlen = dir.unicode_len();
    if dlen == 0 {
        return name.to_owned();
    }
    let mut s = dir.to_owned();
    if dir.get_char(dlen - 1) != '/' {
        proof {
            reveal_strlit("/");
        }
        s.append("/");
        proof {
            assert(s@ =~= dir@ + seq!['/']);
        }
    }
    s.append(name);
    s
}

/// An ASCII whitespace character, as the usual whitespace-splitting of a
/// command-line string understands it.
pub open spec fn is_ascii_ws(c: char) -> bool {
    c == ' ' || c == '\t' || c == '\n' || c == '\x0C' || c == '\r'
}

/// Helper for `whitespace_tokens`: the tokens of `s` from position `i` on,
/// given the partial token `cur` read so far.
pub open spec fn tokens_from(s: Seq<char>, i: nat, cur: Seq<char>) -> Seq<Seq<char>>
    decreases s.len() - i,
{
    if i >= s.len() {
        if cur.len() == 0 {
            Seq::empty()
        } else {
            seq![cur]
        }
    } else if is_ascii_ws(s[i as int]) {
        if cur.len() == 0 {
            tokens_from(s, i + 1, Seq::empty())
        } else {
            seq![cur] + tokens_from(s, i + 1, Seq::empty())
        }
    } else {
        tokens_from(s, i + 1, cur.push(s[i as int]))
    }
}

/// The maximal runs of non-whitespace characters of `s`, in order.
pub open spec fn whitespace_tokens(s: Seq<char>) -> Seq<Seq<char>> {
    tokens_from(s, 0, Seq::empty())
}

/// Splits a string into its maximal ASCII-whitespace-separated tokens.
pub fn split_whitespace_tokens(s: &str) -> (r: Vec<String>)
    ensures
        r.deep_view() == whitespace_tokens(s@),
{
    let n = s.unicode_len();
    let mut r: Vec<String> = Vec::new();
    let mut start: usize = 0;
    let mut i: usize = 0;
    proof {
        assert(s@.subrange(0, 0) =~= Seq::<char>::empty());
        assert(r.deep_view() =~= Seq::<Seq<char>>::empty());
        assert(r.deep_view() + whitespace_tokens(s@) =~= whitespace_tokens(s@));
    }
    while i < n
        invariant
            n == s@.len(),
            start <= i <= n,
            forall|j: int| start <= j < i ==> !is_ascii_ws(s@[j]),
            whitespace_tokens(s@) == r.deep_view() + tokens_from(
                s@,
                i as nat,
                s@.subrange(start as int, i as int),
            ),
        decreases n - i,
    {
        let c = s.get_char(i);
        let ghost cur = s@.subrange(start as int, i as int);
        let ghost old_r = r.deep_view();
        if c == ' ' || c == '\t' || c == '\n' || c == '\x0C' || c == '\r' {
            if start < i {
                let token = s.substring_char(start, i).to_owned();
                r.push(token);
                proof {
                    assert(r.deep_view() =~= old_r.push(cur));
                    assert(tokens_from(s@, i as nat, cur) == seq![cur] + tokens_from(
                        s@,
                        (i + 1) as nat,
                        Seq::empty(),
                    ));
                    assert(old_r.push(cur) =~= old_r + seq![cur]);
                    assert(r.deep_view() + tokens_from(s@, (i + 1) as nat, Seq::empty()) =~= old_r
                        + tokens_from(s@, i as nat, cur));
                }
            } else {
                proof {
                    assert(cur.len() == 0);
                }
            }
            start = i + 1;
            i = i + 1;
            proof {
                assert(s@.subrange(start as int, i as int) =~= Seq::<char>::empty());
            }
        } else {
            i = i + 1;
            proof {
                assert(s@.subrange(start as int, i as int) =~= cur.push(s@[i - 1]));
            }
        }
    }
    let ghost cur = s@.subrange(start as int, i as int);
    if start < n {
        let token = s.substring_char(start, n).to_owned();
        let ghost old_r = r.deep_view();
        r.push(token);
        proof {
            assert(tokens_from(s@, i as nat, cur) == seq![cur]);
            assert(r.deep_view() =~= old_r.push(cur));
            assert(old_r.push(cur) =~= old_r + seq![cur]);
        }
    } else {
        proof {
            assert(cur.len() == 0);
            assert(r.deep_view() + tokens_from(s@, i as nat, cur) =~= r.deep_view());
        }
    }
    r
}

/// The parts joined with single spaces: the command line as one diagnostic
/// string.
pub open spec fn spec_space_joined(parts: Seq<Seq<char>>) -> Seq<char>
    decreases parts.len(),
{
    if parts.len() == 0 {
        Seq::empty()
    } else if parts.len() == 1 {
        parts[0]
    } else {
        spec_space_joined(parts.drop_last()) + seq![' '] + parts.last()
    }
}

/// Joins the given parts with single spaces.
pub fn space_join(parts: &Vec<String>) -> (r: String)
    ensures
        r@ == spec_space_joined(parts.deep_view()),
{
    let mut s = String::new();
    let n = parts.len();
    let mut i: usize = 0;
    while i < n
        invariant
            n == parts.len(),
            i <= n,
            s@ == spec_space_joined(parts.deep_view().subrange(0, i as int)),
        decreases n - i,
    {
        if i > 0 {
            proof {
                reveal_strlit(" ");
            }
            s.append(" ");
        }
        s.append(parts[i].as_str());
        proof {
            let dv = parts.deep_view();
            assert(dv.subrange(0, (i + 1) as int).drop_last() =~= dv.subrange(0, i as int));
            assert(dv.subrange(0, (i + 1) as int).last() == dv[i as int]);
            assert(dv[i as int] == parts[i as int]@);
            if i == 0 {
                assert(s@ =~= spec_space_joined(dv.subrange(0, 1)));
            }
        }
        i = i + 1;
    }
    proof {
        assert(parts.deep_view().subrange(0, n as int) =~= parts.deep_view());
    }
    s
}

} // verus!
