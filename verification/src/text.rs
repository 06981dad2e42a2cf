//! Character-level text normalization: whitespace trimming and the wildcard
//! patterns that free-text search criteria are turned into.

use vstd::prelude::*;

verus! {

/// Whitespace, as the Unicode `White_Space` property defines it.
pub open spec fn is_space_char(c: char) -> bool {
    ||| c as u32 == 0x20
    ||| (0x09 <= c as u32 && c as u32 <= 0x0D)
    ||| c as u32 == 0x85
    ||| c as u32 == 0xA0
    ||| c as u32 == 0x1680
    ||| (0x2000 <= c as u32 && c as u32 <= 0x200A)
    ||| c as u32 == 0x2028
    ||| c as u32 == 0x2029
    ||| c as u32 == 0x202F
    ||| c as u32 == 0x205F
    ||| c as u32 == 0x3000
}

/// Decides `is_space_char`.
pub fn is_space(c: char) -> (b: bool)
    ensures
        b == is_space_char(c),
{
    let u = c as u32;
    u == 0x20 || (0x09 <= u && u <= 0x0D) || u == 0x85 || u == 0xA0 || u == 0x1680 || (0x2000 <= u
        && u <= 0x200A) || u == 0x2028 || u == 0x2029 || u == 0x202F || u == 0x205F || u == 0x3000
}

/// `s` without its leading whitespace.
pub open spec fn trim_start_spec(s: Seq<char>) -> Seq<char>
    decreases s.len(),
{
    if s.len() == 0 {
        s
    } else if is_space_char(s[0]) {
        trim_start_spec(s.drop_first())
    } else {
        s
    }
}

/// `s` without its trailing whitespace.
pub open spec fn trim_end_spec(s: Seq<char>) -> Seq<char>
    decreases s.len(),
{
    if s.len() == 0 {
        s
    } else if is_space_char(s.last()) {
        trim_end_spec(s.drop_last())
    } else {
        s
    }
}

/// `s` without leading and trailing whitespace.
pub open spec fn trim_spec(s: Seq<char>) -> Seq<char> {
    trim_end_spec(trim_start_spec(s))
}

/// `s` with every space turned into the `'%'` wildcard.
pub open spec fn space_to_wildcard(s: Seq<char>) -> Seq<char> {
    s.map_values(|c: char| if c == ' ' { '%' } else { c })
}

/// The pattern a free-text criterion becomes: trimmed, internal spaces
/// replaced by wildcards, and wrapped in wildcards on both ends.
pub open spec fn like_pattern(raw: Seq<char>) -> Seq<char> {
    seq!['%'] + space_to_wildcard(trim_spec(raw)) + seq!['%']
}

/// Relies on `str::chars`: a string's characters, in order.
#[verifier::external_body]
pub(crate) fn str_to_chars(s: &str) -> (v: Vec<char>)
    ensures
        v@ == s@,
{
    s.chars().collect()
}

/// Relies on `String`'s `FromIterator<char>`: the characters, in order,
/// form the string.
#[verifier::external_body]
pub(crate) fn chars_to_string(v: &Vec<char>) -> (r: String)
    ensures
        r@ == v@,
{
    v.iter().collect()
}

/// Drops leading and trailing whitespace from a character sequence.
pub fn trim_chars(v: &Vec<char>) -> (r: Vec<char>)
    ensures
        r@ == trim_spec(v@),
{
    let mut start: usize = 0;
    proof {
        assert(v@.skip(0) =~= v@);
    }
    while start < v.len() && is_space(v[start])
        invariant
            start <= v@.len(),
            trim_start_spec(v@) == trim_start_spec(v@.skip(start as int)),
        decreases v@.len() - start,
    {
        proof {
            assert(v@.skip(start as int)[0] == v@[start as int]);
            assert(v@.skip(start as int).drop_first() =~= v@.skip(start as int + 1));
        }
        start = start + 1;
    }
    proof {
        if start < v@.len() {
            assert(!is_space_char(v@.skip(start as int)[0]));
        } else {
            assert(v@.skip(start as int) =~= Seq::<char>::empty());
        }
        assert(trim_start_spec(v@) == v@.skip(start as int));
        assert(v@.skip(start as int) =~= v@.subrange(start as int, v@.len() as int));
    }
    let mut end: usize = v.len();
    while end > start && is_space(v[end - 1])
        invariant
            start <= end <= v@.len(),
            trim_spec(v@) == trim_end_spec(v@.subrange(start as int, end as int)),
        decreases end,
    {
        proof {
            let sub = v@.subrange(start as int, end as int);
            assert(sub.last() == v@[end - 1]);
            assert(sub.drop_last() =~= v@.subrange(start as int, end as int - 1));
        }
        end = end - 1;
    }
    proof {
        let sub = v@.subrange(start as int, end as int);
        if end > start {
            assert(sub.last() == v@[end - 1]);
            assert(!is_space_char(sub.last()));
        } else {
            assert(sub =~= Seq::<char>::empty());
        }
        assert(trim_spec(v@) == v@.subrange(start as int, end as int));
    }
    let mut r: Vec<char> = Vec::new();
    let mut i: usize = start;
    while i < end
        invariant
            start <= i <= end <= v@.len(),
            r@ =~= v@.subrange(start as int, i as int),
            trim_spec(v@) == v@.subrange(start as int, end as int),
        decreases end - i,
    {
        r.push(v[i]);
        i = i + 1;
        proof {
            assert(r@ =~= v@.subrange(start as int, i as int));
        }
    }
    proof {
        assert(r@ == trim_spec(v@));
    }
    r
}

/// Replaces each space by the `'%'` wildcard.
pub fn replace_spaces(v: &Vec<char>) -> (r: Vec<char>)
    ensures
        r@ == space_to_wildcard(v@),
{
    let mut r: Vec<char> = Vec::new();
    let mut i: usize = 0;
    while i < v.len()
        invariant
            i <= v@.len(),
            r@ =~= space_to_wildcard(v@.take(i as int)),
        decreases v@.len() - i,
    {
        let c = v[i];
        if c == ' ' {
            r.push('%');
        } else {
            r.push(c);
        }
        i = i + 1;
        proof {
            assert(r@ =~= space_to_wildcard(v@.take(i as int)));
        }
    }
    proof {
        assert(v@.take(v@.len() as int) =~= v@);
        assert(r@ == space_to_wildcard(v@));
    }
    r
}

/// Builds the store-facing pattern for a free-text criterion: trim, replace
/// internal spaces with wildcards, wrap in wildcards.
pub fn build_like_pattern(s: &str) -> (p: String)
    ensures
        p@ == like_pattern(s@),
{
    let cs = str_to_chars(s);
    let trimmed = trim_chars(&cs);
    let replaced = replace_spaces(&trimmed);
    let mut out: Vec<char> = Vec::new();
    out.push('%');
    let mut i: usize = 0;
    while i < replaced.len()
        invariant
            i <= replaced@.len(),
            out@ =~= seq!['%'] + replaced@.take(i as int),
        decreases replaced@.len() - i,
    {
        out.push(replaced[i]);
        i = i + 1;
        proof {
            assert(out@ =~= seq!['%'] + replaced@.take(i as int));
        }
    }
    out.push('%');
    proof {
        assert(replaced@.take(replaced@.len() as int) =~= replaced@);
        assert(out@ =~= like_pattern(s@));
    }
    chars_to_string(&out)
}

/// Trims surrounding whitespace from a string, for the exact-match identity
/// filters.
pub fn trim_str(s: &str) -> (r: String)
    ensures
        r@ == trim_spec(s@),
{
    let cs = str_to_chars(s);
    let trimmed = trim_chars(&cs);
    chars_to_string(&trimmed)
}

} // verus!
