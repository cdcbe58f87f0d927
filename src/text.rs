//! Text helpers: decimal integers, object-name encoding.
use vstd::prelude::*;

verus! {

/// The decimal digit character for `d < 10`.
pub open spec fn digit_char(d: nat) -> char {
    if d == 0 { '0' }
    else if d == 1 { '1' }
    else if d == 2 { '2' }
    else if d == 3 { '3' }
    else if d == 4 { '4' }
    else if d == 5 { '5' }
    else if d == 6 { '6' }
    else if d == 7 { '7' }
    else if d == 8 { '8' }
    else { '9' }
}

/// Decimal digits of a natural number, most significant first, no leading zeros.
pub open spec fn nat_text(n: nat) -> Seq<char>
    decreases n,
{
    if n < 10 {
        seq![digit_char(n)]
    } else {
        nat_text(n / 10).push(digit_char(n % 10))
    }
}

/// Decimal text of an integer, with a leading `-` when negative.
pub open spec fn int_text(i: int) -> Seq<char> {
    if i < 0 {
        seq!['-'] + nat_text((-i) as nat)
    } else {
        nat_text(i as nat)
    }
}

/// An object name as it stands in a URL path: each `/` becomes `%2F`, every
/// other character is kept.
pub open spec fn encode_name(s: Seq<char>) -> Seq<char>
    decreases s.len(),
{
    if s.len() == 0 {
        Seq::empty()
    } else if s.last() == '/' {
        encode_name(s.drop_last()) + seq!['%', '2', 'F']
    } else {
        encode_name(s.drop_last()).push(s.last())
    }
}

/// No `/` is left in an encoded object name.
pub proof fn lemma_encode_name_no_slash(s: Seq<char>)
    ensures
        forall|i: int| 0 <= i < encode_name(s).len() ==> encode_name(s)[i] != '/',
    decreases s.len(),
{
    if s.len() > 0 {
        let prev = encode_name(s.drop_last());
        lemma_encode_name_no_slash(s.drop_last());
        let e = encode_name(s);
        assert forall|i: int| 0 <= i < e.len() implies e[i] != '/' by {
            if i < prev.len() {
                assert(e[i] == prev[i]);
            }
        }
    }
}

/// A name without `/` is placed in a path as it is.
pub proof fn lemma_encode_name_identity(s: Seq<char>)
    requires
        forall|i: int| 0 <= i < s.len() ==> s[i] != '/',
    ensures
        encode_name(s) == s,
    decreases s.len(),
{
    if s.len() > 0 {
        lemma_encode_name_identity(s.drop_last());
        assert(s.drop_last().push(s.last()) =~= s);
    }
}

/// Object names are encoded once: encoding an encoded name changes nothing,
/// so no `%2F` is ever turned into `%252F`.
pub proof fn lemma_encode_name_once(s: Seq<char>)
    ensures
        encode_name(encode_name(s)) == encode_name(s),
{
    lemma_encode_name_no_slash(s);
    lemma_encode_name_identity(encode_name(s));
}

/// Relies on `i64`'s `Display` (through `to_string`): decimal digits, with a
/// leading `-` for a negative value.
#[verifier::external_body]
pub(crate) fn i64_to_text(v: i64) -> (r: String)
    ensures
        r@ == int_text(v as int),
{
    v.to_string()
}

/// Relies on `String::push`: appends one character.
#[verifier::external_body]
pub(crate) fn push_char(s: &mut String, c: char)
    ensures
        final(s)@ == old(s)@.push(c),
{
    s.push(c)
}

/// Places an object name in a URL path segment: each `/` becomes `%2F`,
/// once; nothing else is changed.
pub fn encode_object_name(name: &str) -> (r: String)
    ensures
        r@ == encode_name(name@),
{
    let n = name.unicode_len();
    let mut out = String::new();
    let mut i: usize = 0;
    while i < n
        invariant
            n == name@.len(),
            i <= n,
            out@ == encode_name(name@.subrange(0, i as int)),
        decreases n - i,
    {
        let c = name.get_char(i);
        assert(name@.subrange(0, i as int + 1).drop_last() =~= name@.subrange(0, i as int));
        if c == '/' {
            proof {
                reveal_strlit("%2F");
            }
            out.append("%2F");
        } else {
            push_char(&mut out, c);
        }
        i = i + 1;
    }
    assert(name@.subrange(0, n as int) =~= name@);
    out
}

} // verus!
