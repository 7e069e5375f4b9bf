use vstd::prelude::*;
use vstd::string::StrSliceExecFns;
use vstd::string::StringExecFns;

verus! {

/// Compare two string slices character by character.
pub fn str_eq(a: &str, b: &str) -> (r: bool)
    ensures
        r == (a@ == b@),
{
    let alen = a.unicode_len();
    let blen = b.unicode_len();
    if alen != blen {
        assert(a@ != b@) by {
            if a@ == b@ {
                assert(a@.len() == b@.len());
            }
        }
        return false;
    }
    let mut i: usize = 0;
    while i < alen
        invariant
            alen == a@.len(),
            blen == b@.len(),
            alen == blen,
            0 <= i <= alen,
            forall|j: int| 0 <= j < i ==> a@[j] == b@[j],
        decreases alen - i,
    {
        if a.get_char(i) != b.get_char(i) {
            assert(a@ != b@) by {
                if a@ == b@ {
                    assert(a@[i as int] == b@[i as int]);
                }
            }
            return false;
        }
        i += 1;
    }
    proof {
        assert(a@ =~= b@);
    }
    true
}

/// The character of one decimal digit.
pub open spec fn spec_digit_char(d: nat) -> char {
    if d == 0 {
        '0'
    } else if d == 1 {
        '1'
    } else if d == 2 {
        '2'
    } else if d == 3 {
        '3'
    } else if d == 4 {
        '4'
    } else if d == 5 {
        '5'
    } else if d == 6 {
        '6'
    } else if d == 7 {
        '7'
    } else if d == 8 {
        '8'
    } else {
        '9'
    }
}

/// The decimal rendering of a number: most significant digit first, no
/// leading zeros, a single `0` for zero.
pub open spec fn spec_dec(n: nat) -> Seq<char>
    decreases n,
{
    if n < 10 {
        seq![spec_digit_char(n)]
    } else {
        spec_dec(n / 10) + seq![spec_digit_char(n % 10)]
    }
}

/// The one-character string of one decimal digit.
fn digit_str_of(d: u64) -> (s: &'static str)
    requires
        d < 10,
    ensures
        s@ =~= seq![spec_digit_char(d as nat)],
{
    proof {
        reveal_strlit("0");
        reveal_strlit("1");
        reveal_strlit("2");
        reveal_strlit("3");
        reveal_strlit("4");
        reveal_strlit("5");
        reveal_strlit("6");
        reveal_strlit("7");
        reveal_strlit("8");
        reveal_strlit("9");
    }
    if d == 0 {
        "0"
    } else if d == 1 {
        "1"
    } else if d == 2 {
        "2"
    } else if d == 3 {
        "3"
    } else if d == 4 {
        "4"
    } else if d == 5 {
        "5"
    } else if d == 6 {
        "6"
    } else if d == 7 {
        "7"
    } else if d == 8 {
        "8"
    } else {
        "9"
    }
}

/// Render a number in decimal.
pub fn u64_to_dec_string(n: u64) -> (s: String)
    ensures
        s@ == spec_dec(n as nat),
    decreases n,
{
    if n < 10 {
        let d = digit_str_of(n);
        d.to_owned()
    } else {
        let prefix = u64_to_dec_string(n / 10);
        let d = digit_str_of(n % 10);
        let r = prefix.concat(d);
        assert(r@ =~= spec_dec(n as nat));
        r
    }
}

/// The character sequences of a list of `key=value` parameters.
pub open spec fn view_pairs(pairs: Seq<(String, String)>) -> Seq<(Seq<char>, Seq<char>)> {
    pairs.map(|i: int, p: (String, String)| (p.0@, p.1@))
}

/// The `key=value` parameter list joined by `&`, without the leading `?`.
pub open spec fn spec_params(pairs: Seq<(Seq<char>, Seq<char>)>) -> Seq<char>
    decreases pairs.len(),
{
    if pairs.len() == 0 {
        Seq::<char>::empty()
    } else if pairs.len() == 1 {
        pairs[0].0 + seq!['='] + pairs[0].1
    } else {
        pairs[0].0 + seq!['='] + pairs[0].1 + seq!['&'] + spec_params(pairs.drop_first())
    }
}

/// The query string of a parameter list: empty for no parameters, otherwise
/// `?` followed by the `&`-joined `key=value` pairs.
pub open spec fn spec_query(pairs: Seq<(Seq<char>, Seq<char>)>) -> Seq<char> {
    if pairs.len() == 0 {
        Seq::<char>::empty()
    } else {
        seq!['?'] + spec_params(pairs)
    }
}

fn encode_params_from(pairs: &Vec<(String, String)>, i: usize) -> (s: String)
    requires
        i <= pairs@.len(),
    ensures
        s@ == spec_params(view_pairs(pairs@).skip(i as int)),
    decreases pairs@.len() - i,
{
    proof {
        reveal_strlit("=");
        reveal_strlit("&");
    }
    if i == pairs.len() {
        let r = String::new();
        assert(r@ =~= spec_params(view_pairs(pairs@).skip(i as int)));
        r
    } else {
        let mut r = (&pairs[i].0).clone();
        r.append("=");
        r.append(pairs[i].1.as_str());
        if i + 1 < pairs.len() {
            r.append("&");
            let rest = encode_params_from(pairs, i + 1);
            r.append(rest.as_str());
            proof {
                assert(view_pairs(pairs@).skip(i as int).drop_first() =~= view_pairs(
                    pairs@,
                ).skip(i as int + 1));
                assert(r@ =~= spec_params(view_pairs(pairs@).skip(i as int)));
            }
        } else {
            proof {
                assert(view_pairs(pairs@).skip(i as int).len() == 1);
                assert(r@ =~= spec_params(view_pairs(pairs@).skip(i as int)));
            }
        }
        r
    }
}

/// Encode a parameter list as a query string.
pub fn encode_query(pairs: &Vec<(String, String)>) -> (s: String)
    ensures
        s@ == spec_query(view_pairs(pairs@)),
{
    proof {
        reveal_strlit("?");
    }
    if pairs.len() == 0 {
        let r = String::new();
        assert(r@ =~= spec_query(view_pairs(pairs@)));
        r
    } else {
        let mut r = String::new();
        r.append("?");
        let params = encode_params_from(pairs, 0);
        r.append(params.as_str());
        proof {
            assert(view_pairs(pairs@).skip(0) =~= view_pairs(pairs@));
            assert(r@ =~= spec_query(view_pairs(pairs@)));
        }
        r
    }
}

} // verus!
