use std::str::Chars;
use vstd::prelude::*;
use vstd::std_specs::iter::IteratorSpec;

verus! {

/// The symbol that stands for a group of six bits in the standard base64 alphabet.
pub open spec fn base64_symbol(value: int) -> char
    recommends
        0 <= value < 64,
{
    "ABCDEFGHIJKLMNOPQRSTUVWXYZabcdefghijklmnopqrstuvwxyz0123456789+/"@[value]
}

/// The standard base64 form of some bytes, with padding: each three bytes give four symbols,
/// and a last group of one or two bytes is filled up with `=`.
pub open spec fn base64_of(bytes: Seq<u8>) -> Seq<char>
    decreases bytes.len(),
{
    if bytes.len() == 0 {
        Seq::empty()
    } else if bytes.len() == 1 {
        let a = bytes[0] as int;
        seq![base64_symbol(a / 4), base64_symbol((a % 4) * 16), '=', '=']
    } else if bytes.len() == 2 {
        let a = bytes[0] as int;
        let b = bytes[1] as int;
        seq![
            base64_symbol(a / 4),
            base64_symbol((a % 4) * 16 + b / 16),
            base64_symbol((b % 16) * 4),
            '=',
        ]
    } else {
        let a = bytes[0] as int;
        let b = bytes[1] as int;
        let c = bytes[2] as int;
        seq![
            base64_symbol(a / 4),
            base64_symbol((a % 4) * 16 + b / 16),
            base64_symbol((b % 16) * 4 + c / 64),
            base64_symbol(c % 64),
        ] + base64_of(bytes.skip(3))
    }
}

/// The number of symbols that the base64 form of `len` bytes has.
pub open spec fn base64_len(len: nat) -> nat {
    4 * ((len + 2) / 3)
}

/// The base64 form has four symbols for each group of up to three bytes; so it is empty
/// only for no bytes.
pub proof fn lemma_base64_len(bytes: Seq<u8>)
    ensures
        base64_of(bytes).len() == base64_len(bytes.len()),
        bytes.len() > 0 ==> base64_of(bytes).len() > 0,
    decreases bytes.len(),
{
    if bytes.len() >= 3 {
        lemma_base64_len(bytes.skip(3));
    }
}

/// Whether `len` bytes are few enough for their base64 form to be held in memory.
pub fn fits_base64(len: usize) -> (b: bool)
    ensures
        b == (base64_len(len as nat) <= isize::MAX),
{
    let most: usize = isize::MAX as usize;
    len <= (most / 4) * 3
}

/// `Engine::encode` of base64, on its `STANDARD` engine: the standard alphabet, with
/// padding. The bytes must be few enough for their base64 form to be held in memory.
#[verifier::external_body]
pub(crate) fn base64_standard(bytes: &[u8]) -> (text: String)
    requires
        base64_len(bytes@.len()) <= isize::MAX,
    ensures
        text@ == base64_of(bytes@),
{
    base64::Engine::encode(&base64::engine::general_purpose::STANDARD, bytes)
}

/// The symbol that stands for a group of six bits in the standard base64 alphabet.
fn symbol(value: u8) -> (c: char)
    requires
        value < 64,
    ensures
        c == base64_symbol(value as int),
{
    proof {
        reveal_strlit("ABCDEFGHIJKLMNOPQRSTUVWXYZabcdefghijklmnopqrstuvwxyz0123456789+/");
    }
    if value < 26 {
        (value + 65) as char
    } else if value < 52 {
        (value + 71) as char
    } else if value < 62 {
        (value - 4) as char
    } else if value == 62 {
        '+'
    } else {
        '/'
    }
}

/// Takes the next character off `chars` if it is `expected`, and says whether it was.
fn takes(chars: &mut Chars<'_>, expected: char) -> (taken: bool)
    requires
        (*old(chars)).obeys_prophetic_iter_laws(),
    ensures
        (*final(chars)).obeys_prophetic_iter_laws(),
        taken ==> (*old(chars)).remaining().len() > 0 && (*old(chars)).remaining()[0] == expected
            && (*final(chars)).remaining() == (*old(chars)).remaining().drop_first(),
        !taken ==> (*old(chars)).remaining().len() == 0 || (*old(chars)).remaining()[0] != expected,
{
    match chars.next() {
        Some(c) => c == expected,
        None => false,
    }
}

/// Takes four characters off `chars` if they are the given ones, and says whether they
/// were.
fn takes_group(chars: &mut Chars<'_>, c0: char, c1: char, c2: char, c3: char) -> (taken: bool)
    requires
        (*old(chars)).obeys_prophetic_iter_laws(),
    ensures
        (*final(chars)).obeys_prophetic_iter_laws(),
        taken ==> (*old(chars)).remaining().len() >= 4 && (*old(chars)).remaining().take(4)
            == seq![c0, c1, c2, c3] && (*final(chars)).remaining() == (*old(chars)).remaining().skip(
            4,
        ),
        !taken ==> (*old(chars)).remaining().len() < 4 || (*old(chars)).remaining().take(4)
            != seq![c0, c1, c2, c3],
{
    let ghost start = (*chars).remaining();
    let ghost group = seq![c0, c1, c2, c3];
    if !takes(chars, c0) {
        assert(start.len() >= 4 ==> start.take(4)[0] != group[0]);
        return false;
    }
    let ghost one = (*chars).remaining();
    assert(one == start.drop_first());
    if !takes(chars, c1) {
        assert(start.len() >= 4 ==> start.take(4)[1] == one[0]);
        assert(start.len() >= 4 ==> start.take(4)[1] != group[1]);
        return false;
    }
    let ghost two = (*chars).remaining();
    assert(two == one.drop_first());
    if !takes(chars, c2) {
        assert(start.len() >= 4 ==> start.take(4)[2] == two[0]);
        assert(start.len() >= 4 ==> start.take(4)[2] != group[2]);
        return false;
    }
    let ghost three = (*chars).remaining();
    assert(three == two.drop_first());
    if !takes(chars, c3) {
        assert(start.len() >= 4 ==> start.take(4)[3] == three[0]);
        assert(start.len() >= 4 ==> start.take(4)[3] != group[3]);
        return false;
    }
    assert(start.len() >= 4);
    assert(start[0] == c0 && start[1] == one[0] && start[2] == two[0] && start[3] == three[0]);
    assert(start.take(4) =~= group);
    assert((*chars).remaining() =~= start.skip(4));
    true
}

/// Whether `text` is the standard base64 form of `bytes`, with padding.
pub fn is_base64_of(text: &str, bytes: &[u8]) -> (b: bool)
    ensures
        b == (text@ == base64_of(bytes@)),
{
    let mut chars = text.chars();
    let n = bytes.len();
    let mut i: usize = 0;
    proof {
        assert(chars.remaining() == text@);
        assert(bytes@.skip(0) =~= bytes@);
    }
    while n - i >= 3
        invariant
            i <= n,
            n == bytes@.len(),
            chars.obeys_prophetic_iter_laws(),
            (text@ == base64_of(bytes@)) <==> (chars.remaining() == base64_of(
                bytes@.skip(i as int),
            )),
        decreases n - i,
    {
        let a = bytes[i];
        let b = bytes[i + 1];
        let c = bytes[i + 2];
        let s0 = symbol(a / 4);
        let s1 = symbol((a % 4) * 16 + b / 16);
        let s2 = symbol((b % 16) * 4 + c / 64);
        let s3 = symbol(c % 64);
        let ghost start = chars.remaining();
        let ghost rest = bytes@.skip(i as int);
        let ghost group = seq![s0, s1, s2, s3];
        proof {
            assert(rest[0] == a && rest[1] == b && rest[2] == c);
            assert(rest.skip(3) =~= bytes@.skip(i + 3));
            assert(base64_of(rest) =~= group + base64_of(rest.skip(3)));
            assert(base64_of(rest).take(4) =~= group);
            assert(base64_of(rest).skip(4) =~= base64_of(rest.skip(3)));
        }
        if !takes_group(&mut chars, s0, s1, s2, s3) {
            return false;
        }
        proof {
            assert(start =~= start.take(4) + start.skip(4));
            assert(base64_of(rest) =~= base64_of(rest).take(4) + base64_of(rest).skip(4));
        }
        i = i + 3;
    }
    let ghost start = chars.remaining();
    let ghost rest = bytes@.skip(i as int);
    if n - i == 1 {
        let a = bytes[i];
        let s0 = symbol(a / 4);
        let s1 = symbol((a % 4) * 16);
        proof {
            assert(rest[0] == a);
            assert(base64_of(rest) =~= seq![s0, s1, '=', '=']);
            assert(base64_of(rest).take(4) =~= base64_of(rest));
        }
        if !takes_group(&mut chars, s0, s1, '=', '=') {
            return false;
        }
    } else if n - i == 2 {
        let a = bytes[i];
        let b = bytes[i + 1];
        let s0 = symbol(a / 4);
        let s1 = symbol((a % 4) * 16 + b / 16);
        let s2 = symbol((b % 16) * 4);
        proof {
            assert(rest[0] == a && rest[1] == b);
            assert(base64_of(rest) =~= seq![s0, s1, s2, '=']);
            assert(base64_of(rest).take(4) =~= base64_of(rest));
        }
        if !takes_group(&mut chars, s0, s1, s2, '=') {
            return false;
        }
    }
    let ghost after = chars.remaining();
    let last = chars.next();
    proof {
        assert(last is None <==> after.len() == 0);
        if n - i == 0 {
            assert(base64_of(rest) =~= Seq::<char>::empty());
            assert(after == start);
            assert(start.len() == 0 <==> start =~= Seq::<char>::empty());
        } else {
            assert(start.len() >= 4);
            assert(after == start.skip(4));
            assert(start.take(4) == base64_of(rest));
            assert(base64_of(rest).len() == 4);
            if after.len() == 0 {
                assert(start =~= start.take(4));
            } else {
                assert(start.len() > 4);
            }
        }
        assert((start == base64_of(rest)) <==> last is None);
    }
    last.is_none()
}

} // verus!
