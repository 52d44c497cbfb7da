use vstd::prelude::*;
use vstd::string::StrSliceExecFns;
use vstd::string::StringExecFns;

verus! {

/// Character-by-character equality of two string slices, equivalent to
/// equality of their views.
pub fn str_eq(a: &str, b: &str) -> (r: bool)
    ensures
        r == (a@ == b@),
{
    let alen = a.unicode_len();
    let blen = b.unicode_len();
    if alen != blen {
        return false;
    }
    let mut i: usize = 0;
    while i < alen
        invariant
            0 <= i <= alen,
            alen == a@.len(),
            alen == b@.len(),
            forall|j: int| 0 <= j < i ==> a@[j] == b@[j],
        decreases alen - i,
    {
        if a.get_char(i) != b.get_char(i) {
            return false;
        }
        i += 1;
    }
    proof {
        assert(a@ =~= b@);
    }
    true
}

/// ASCII lowercase of one character: the twenty-six basic uppercase
/// letters map to their lowercase partners, everything else is unchanged.
pub open spec fn lower_char(c: char) -> char {
    if c == 'A' {
        'a'
    } else if c == 'B' {
        'b'
    } else if c == 'C' {
        'c'
    } else if c == 'D' {
        'd'
    } else if c == 'E' {
        'e'
    } else if c == 'F' {
        'f'
    } else if c == 'G' {
        'g'
    } else if c == 'H' {
        'h'
    } else if c == 'I' {
        'i'
    } else if c == 'J' {
        'j'
    } else if c == 'K' {
        'k'
    } else if c == 'L' {
        'l'
    } else if c == 'M' {
        'm'
    } else if c == 'N' {
        'n'
    } else if c == 'O' {
        'o'
    } else if c == 'P' {
        'p'
    } else if c == 'Q' {
        'q'
    } else if c == 'R' {
        'r'
    } else if c == 'S' {
        's'
    } else if c == 'T' {
        't'
    } else if c == 'U' {
        'u'
    } else if c == 'V' {
        'v'
    } else if c == 'W' {
        'w'
    } else if c == 'X' {
        'x'
    } else if c == 'Y' {
        'y'
    } else if c == 'Z' {
        'z'
    } else {
        c
    }
}

/// ASCII lowercase applied to every character of a sequence.
pub open spec fn lower_seq(s: Seq<char>) -> Seq<char> {
    s.map_values(|c: char| lower_char(c))
}

pub fn to_lower_char(c: char) -> (r: char)
    ensures
        r == lower_char(c),
{
    match c {
        'A' => 'a',
        'B' => 'b',
        'C' => 'c',
        'D' => 'd',
        'E' => 'e',
        'F' => 'f',
        'G' => 'g',
        'H' => 'h',
        'I' => 'i',
        'J' => 'j',
        'K' => 'k',
        'L' => 'l',
        'M' => 'm',
        'N' => 'n',
        'O' => 'o',
        'P' => 'p',
        'Q' => 'q',
        'R' => 'r',
        'S' => 's',
        'T' => 't',
        'U' => 'u',
        'V' => 'v',
        'W' => 'w',
        'X' => 'x',
        'Y' => 'y',
        'Z' => 'z',
        _ => c,
    }
}

/// The needle occurs in the haystack starting at position `i`.
pub open spec fn seq_contains_at(hay: Seq<char>, needle: Seq<char>, i: int) -> bool {
    0 <= i && i + needle.len() <= hay.len() && hay.subrange(i, i + needle.len() as int) == needle
}

/// The needle occurs somewhere in the haystack.
pub open spec fn seq_contains(hay: Seq<char>, needle: Seq<char>) -> bool {
    exists|i: int| seq_contains_at(hay, needle, i)
}

/// Case-insensitive substring test: the needle (given already in lowercase)
/// occurs in the ASCII-lowercased haystack.
pub fn contains_ci(hay: &str, needle: &str) -> (r: bool)
    ensures
        r == seq_contains(lower_seq(hay@), needle@),
{
    let hlen = hay.unicode_len();
    let nlen = needle.unicode_len();
    if nlen > hlen {
        proof {
            assert(forall|i: int| !seq_contains_at(lower_seq(hay@), needle@, i));
        }
        return false;
    }
    if nlen == 0 {
        proof {
            assert(lower_seq(hay@).subrange(0, 0) =~= needle@);
            assert(seq_contains_at(lower_seq(hay@), needle@, 0));
        }
        return true;
    }
    let mut i: usize = 0;
    while i <= hlen - nlen
        invariant
            0 <= i <= hlen - nlen + 1,
            0 < nlen <= hlen,
            hlen == hay@.len(),
            nlen == needle@.len(),
            forall|k: int| 0 <= k < i ==> !seq_contains_at(lower_seq(hay@), needle@, k),
        decreases hlen - i,
    {
        let mut j: usize = 0;
        let mut matched = true;
        while j < nlen
            invariant
                0 <= j <= nlen,
                0 <= i <= hlen - nlen,
                nlen <= hlen,
                hlen == hay@.len(),
                nlen == needle@.len(),
                matched ==> forall|m: int| 0 <= m < j ==> lower_char(hay@[i + m]) == needle@[m],
                !matched ==> !seq_contains_at(lower_seq(hay@), needle@, i as int),
            decreases nlen - j,
        {
            if matched {
                let hc = to_lower_char(hay.get_char(i + j));
                let nc = needle.get_char(j);
                if hc != nc {
                    proof {
                        assert(lower_seq(hay@)[i + j] == lower_char(hay@[i + j]));
                        assert(lower_seq(hay@).subrange(i as int, i + needle@.len()) != needle@)
                            by {
                            assert(lower_seq(hay@).subrange(i as int, i + needle@.len())[j as int]
                                == lower_char(hay@[i + j]));
                        }
                    }
                    matched = false;
                }
            }
            j += 1;
        }
        if matched {
            proof {
                assert(lower_seq(hay@).subrange(i as int, i + needle@.len()) =~= needle@) by {
                    assert(forall|m: int|
                        0 <= m < needle@.len() ==> #[trigger] lower_seq(hay@).subrange(
                            i as int,
                            i + needle@.len(),
                        )[m] == lower_char(hay@[i + m]));
                }
                assert(seq_contains_at(lower_seq(hay@), needle@, i as int));
            }
            return true;
        }
        i += 1;
    }
    proof {
        assert(forall|k: int| !seq_contains_at(lower_seq(hay@), needle@, k));
    }
    false
}

/// The decimal digit character for one digit value.
pub open spec fn spec_digit(d: int) -> char {
    if d == 0 {
        '0'
    } else if d == 1 {
        '1'
    } else if d == 2 {
        '2'
    } else if d == 3 {
        '3'
    } else if d == 4 {
        '4'
    } else if d == 5 {
        '5'
    } else if d == 6 {
        '6'
    } else if d == 7 {
        '7'
    } else if d == 8 {
        '8'
    } else {
        '9'
    }
}

/// The usual decimal rendering of a natural number, most significant
/// digit first, with no leading zeroes (zero itself is "0").
pub open spec fn spec_dec(n: nat) -> Seq<char>
    decreases n,
{
    if n < 10 {
        seq![spec_digit(n as int)]
    } else {
        spec_dec(n / 10).push(spec_digit((n % 10) as int))
    }
}

fn digit_str(d: u64) -> (r: &'static str)
    requires
        d < 10,
    ensures
        r@ == seq![spec_digit(d as int)],
{
    match d {
        0 => {
            proof {
                reveal_strlit("0");
            }
            let s = "0";
            proof {
                assert(s@ =~= seq![spec_digit(0int)]);
            }
            s
        },
        1 => {
            proof {
                reveal_strlit("1");
            }
            let s = "1";
            proof {
                assert(s@ =~= seq![spec_digit(1int)]);
            }
            s
        },
        2 => {
            proof {
                reveal_strlit("2");
            }
            let s = "2";
            proof {
                assert(s@ =~= seq![spec_digit(2int)]);
            }
            s
        },
        3 => {
            proof {
                reveal_strlit("3");
            }
            let s = "3";
            proof {
                assert(s@ =~= seq![spec_digit(3int)]);
            }
            s
        },
        4 => {
            proof {
                reveal_strlit("4");
            }
            let s = "4";
            proof {
                assert(s@ =~= seq![spec_digit(4int)]);
            }
            s
        },
        5 => {
            proof {
                reveal_strlit("5");
            }
            let s = "5";
            proof {
                assert(s@ =~= seq![spec_digit(5int)]);
            }
            s
        },
        6 => {
            proof {
                reveal_strlit("6");
            }
            let s = "6";
            proof {
                assert(s@ =~= seq![spec_digit(6int)]);
            }
            s
        },
        7 => {
            proof {
                reveal_strlit("7");
            }
            let s = "7";
            proof {
                assert(s@ =~= seq![spec_digit(7int)]);
            }
            s
        },
        8 => {
            proof {
                reveal_strlit("8");
            }
            let s = "8";
            proof {
                assert(s@ =~= seq![spec_digit(8int)]);
            }
            s
        },
        _ => {
            proof {
                reveal_strlit("9");
            }
            let s = "9";
            proof {
                assert(s@ =~= seq![spec_digit(9int)]);
            }
            s
        },
    }
}

/// Renders an unsigned number in decimal.
pub fn u64_to_string(n: u64) -> (r: String)
    ensures
        r@ == spec_dec(n as nat),
    decreases n,
{
    if n < 10 {
        String::from_str(digit_str(n))
    } else {
        let mut s = u64_to_string(n / 10);
        s.append(digit_str(n % 10));
        proof {
            assert(s@ =~= spec_dec(n as nat));
        }
        s
    }
}

} // verus!
