use vstd::prelude::*;
use vstd::string::*;

use crate::word::U256;
use ethers::abi::ethabi::ethereum_types::FromStrRadixErr;

verus! {

/// Characters that calldata normalization removes.
pub open spec fn is_stripped(c: char) -> bool {
    c == '"' || c == '[' || c == ']' || c == ' ' || c == '\n'
}

/// The text with every stripped character removed, order kept.
pub open spec fn normalized(s: Seq<char>) -> Seq<char>
    decreases s.len(),
{
    if s.len() == 0 {
        s
    } else if is_stripped(s.last()) {
        normalized(s.drop_last())
    } else {
        normalized(s.drop_last()).push(s.last())
    }
}

/// The pieces of `s` between occurrences of `sep`; an empty text is one
/// empty piece.
pub open spec fn split_on(s: Seq<char>, sep: char) -> Seq<Seq<char>>
    decreases s.len(),
{
    if s.len() == 0 {
        seq![Seq::<char>::empty()]
    } else {
        let rest = split_on(s.drop_last(), sep);
        if s.last() == sep {
            rest.push(Seq::<char>::empty())
        } else {
            rest.update(rest.len() - 1, rest.last().push(s.last()))
        }
    }
}

pub proof fn lemma_split_nonempty(s: Seq<char>, sep: char)
    ensures
        split_on(s, sep).len() >= 1,
    decreases s.len(),
{
    if s.len() > 0 {
        lemma_split_nonempty(s.drop_last(), sep);
    }
}

pub open spec fn is_hex_digit(c: char) -> bool {
    ('0' <= c && c <= '9') || ('a' <= c && c <= 'f') || ('A' <= c && c <= 'F')
}

pub open spec fn hex_digit_value(c: char) -> nat {
    if '0' <= c && c <= '9' {
        (c as nat - 48) as nat
    } else if 'a' <= c && c <= 'f' {
        (c as nat - 87) as nat
    } else {
        (c as nat - 55) as nat
    }
}

/// The value of a string of hex digits, most significant first.
pub open spec fn hex_value(d: Seq<char>) -> nat
    decreases d.len(),
{
    if d.len() == 0 {
        0
    } else {
        hex_value(d.drop_last()) * 16 + hex_digit_value(d.last())
    }
}

/// A token without its `0x` prefix, if it has one.
pub open spec fn hex_digits(t: Seq<char>) -> Seq<char> {
    if t.len() >= 2 && t[0] == '0' && t[1] == 'x' {
        t.subrange(2, t.len() as int)
    } else {
        t
    }
}

/// A token that reads as a 256-bit word: at most 64 hex digits after an
/// optional `0x`. No digits at all read as zero.
pub open spec fn is_hex_word(t: Seq<char>) -> bool {
    let d = hex_digits(t);
    d.len() <= 64 && forall|i: int| 0 <= i < d.len() ==> is_hex_digit(#[trigger] d[i])
}

/// The number that a hex word token stands for.
pub open spec fn word_value(t: Seq<char>) -> nat {
    hex_value(hex_digits(t))
}

/// The tokens of a calldata dump: its normalized text split at commas.
pub open spec fn calldata_tokens(text: Seq<char>) -> Seq<Seq<char>> {
    split_on(normalized(text), ',')
}

pub open spec fn all_hex_words(toks: Seq<Seq<char>>) -> bool {
    forall|i: int| 0 <= i < toks.len() ==> is_hex_word(#[trigger] toks[i])
}

#[derive(Clone, Copy, Debug, PartialEq, Eq, Structural)]
pub enum CalldataError {
    /// The token at this position is not a hex word.
    InvalidToken(usize),
    /// Only this many words were given; a proof needs eight.
    TooFewWords(usize),
}

/// A Groth16 proof as an on-chain verifier takes it.
#[derive(Clone, Debug)]
pub struct Proof {
    pub a: [U256; 2],
    pub b: [[U256; 2]; 2],
    pub c: [U256; 2],
    pub public: Vec<U256>,
}

/// The words of a proof in calldata order: `a`, the rows of `b`, `c`, then
/// the public inputs.
pub open spec fn proof_words(p: Proof) -> Seq<U256> {
    seq![p.a[0], p.a[1], p.b[0][0], p.b[0][1], p.b[1][0], p.b[1][1], p.c[0], p.c[1]] + p.public@
}

impl Proof {
    /// Lays out words positionally: `a`, the two rows of `b`, `c`, and the
    /// rest as public inputs.
    pub fn from_words(words: &Vec<U256>) -> (r: Result<Proof, CalldataError>)
        ensures
            r is Ok <==> words@.len() >= 8,
            words@.len() < 8 ==> r == Err::<Proof, CalldataError>(
                CalldataError::TooFewWords(words@.len() as usize),
            ),
            r matches Ok(p) ==> proof_words(p) == words@,
            r matches Ok(p) ==> p.public@.len() + 8 == words@.len(),
    {
        if words.len() < 8 {
            return Err(CalldataError::TooFewWords(words.len()));
        }
        let mut public: Vec<U256> = Vec::new();
        let mut i: usize = 8;
        while i < words.len()
            invariant
                8 <= i <= words@.len(),
                public@ == words@.subrange(8, i as int),
            decreases words@.len() - i,
        {
            public.push(words[i]);
            i = i + 1;
            assert(public@ =~= words@.subrange(8, i as int));
        }
        let p = Proof {
            a: [words[0], words[1]],
            b: [[words[2], words[3]], [words[4], words[5]]],
            c: [words[6], words[7]],
            public,
        };
        assert(proof_words(p) =~= words@);
        Ok(p)
    }
}

impl Default for Proof {
    /// The all-zero proof with no public inputs.
    fn default() -> (r: Proof)
        ensures
            forall|k: int| 0 <= k < 8 ==> (#[trigger] proof_words(r)[k]).value() == 0,
            r.public@.len() == 0,
    {
        let z = U256::zero();
        Proof { a: [z, z], b: [[z, z], [z, z]], c: [z, z], public: Vec::new() }
    }
}

/// Relies on `String::push`, which appends one character.
#[verifier::external_body]
pub(crate) fn push_char(s: &mut String, c: char)
    ensures
        final(s)@ == old(s)@.push(c),
{
    s.push(c)
}

/// Removes every quote, bracket, space and newline.
pub fn normalize_calldata(text: &str) -> (r: String)
    ensures
        r@ == normalized(text@),
{
    let n = text.unicode_len();
    let mut out = String::new();
    let mut i: usize = 0;
    while i < n
        invariant
            n == text@.len(),
            i <= n,
            out@ == normalized(text@.subrange(0, i as int)),
        decreases n - i,
    {
        let c = text.get_char(i);
        if !(c == '"' || c == '[' || c == ']' || c == ' ' || c == '\n') {
            push_char(&mut out, c);
        }
        assert(text@.subrange(0, i + 1).drop_last() =~= text@.subrange(0, i as int));
        i = i + 1;
    }
    assert(text@.subrange(0, n as int) =~= text@);
    out
}

/// Splits at every comma, as `str::split(",")` does.
pub fn split_commas(s: &str) -> (r: Vec<String>)
    ensures
        r@.len() == split_on(s@, ',').len(),
        forall|k: int| 0 <= k < r@.len() ==> (#[trigger] r@[k])@ == split_on(s@, ',')[k],
{
    let n = s.unicode_len();
    let mut done: Vec<String> = Vec::new();
    let mut cur = String::new();
    let mut i: usize = 0;
    proof {
        assert(s@.subrange(0, 0) =~= Seq::<char>::empty());
    }
    while i < n
        invariant
            n == s@.len(),
            i <= n,
            done@.len() + 1 == split_on(s@.subrange(0, i as int), ',').len(),
            forall|k: int|
                0 <= k < done@.len() ==> (#[trigger] done@[k])@ == split_on(
                    s@.subrange(0, i as int),
                    ',',
                )[k],
            cur@ == split_on(s@.subrange(0, i as int), ',').last(),
        decreases n - i,
    {
        let c = s.get_char(i);
        let ghost pre = s@.subrange(0, i as int);
        proof {
            lemma_split_nonempty(pre, ',');
            assert(s@.subrange(0, i + 1).drop_last() =~= pre);
        }
        if c == ',' {
            done.push(cur);
            cur = String::new();
        } else {
            push_char(&mut cur, c);
        }
        i = i + 1;
    }
    assert(s@.subrange(0, n as int) =~= s@);
    done.push(cur);
    done
}

/// The error of ethers' `U256::from_str_radix`.
#[verifier::external_type_specification]
#[verifier::external_body]
pub struct ExFromStrRadixErr(FromStrRadixErr);

/// Relies on `U256::from_str_radix` of ethers (uint's `construct_uint!`):
/// in base 16 it drops one `0x` prefix, accepts at most 64 hex digits of
/// either case (none reads as zero), and reads them most significant first.
#[verifier::external_body]
fn parse_hex_word(t: &str) -> (r: Result<U256, FromStrRadixErr>)
    ensures
        r is Ok <==> is_hex_word(t@),
        r matches Ok(w) ==> w.value() == word_value(t@),
{
    ethers::types::U256::from_str_radix(t, 16).map(|w| U256 { limbs: w.0 })
}

/// What parsing calldata `text` into `r` means. Success comes exactly when
/// every token is a hex word and there are at least eight; the proof's
/// words are then the tokens' values in order. Otherwise the error names
/// the first bad token, or the number of words when all were good.
pub open spec fn parsed(text: Seq<char>, r: Result<Proof, CalldataError>) -> bool {
    let toks = calldata_tokens(text);
    &&& (r is Ok <==> all_hex_words(toks) && toks.len() >= 8)
    &&& (r matches Ok(p) ==> proof_words(p).len() == toks.len() && forall|k: int|
        0 <= k < proof_words(p).len() ==> (#[trigger] proof_words(p)[k]).value() == word_value(
            toks[k],
        ))
    &&& (r matches Err(CalldataError::InvalidToken(i)) ==> i < toks.len() && !is_hex_word(
        toks[i as int],
    ) && forall|j: int| 0 <= j < i ==> is_hex_word(#[trigger] toks[j]))
    &&& (r matches Err(CalldataError::TooFewWords(n)) ==> all_hex_words(toks) && n == toks.len())
}

/// Parses a calldata dump into a proof: normalize, split at commas, read
/// each token as a hex word, then lay the words out positionally.
pub fn parse_calldata(text: &str) -> (r: Result<Proof, CalldataError>)
    ensures
        parsed(text@, r),
{
    let norm = normalize_calldata(text);
    let toks = split_commas(norm.as_str());
    let ghost spec_toks = calldata_tokens(text@);
    let mut words: Vec<U256> = Vec::new();
    let mut i: usize = 0;
    while i < toks.len()
        invariant
            spec_toks == calldata_tokens(text@),
            toks@.len() == spec_toks.len(),
            forall|k: int| 0 <= k < toks@.len() ==> (#[trigger] toks@[k])@ == spec_toks[k],
            i <= toks@.len(),
            words@.len() == i,
            forall|k: int| 0 <= k < i ==> is_hex_word(#[trigger] spec_toks[k]),
            forall|k: int| 0 <= k < i ==> (#[trigger] words@[k]).value() == word_value(spec_toks[k]),
        decreases toks@.len() - i,
    {
        match parse_hex_word(toks[i].as_str()) {
            Ok(w) => {
                words.push(w);
            },
            Err(_) => {
                return Err(CalldataError::InvalidToken(i));
            },
        }
        i = i + 1;
    }
    Proof::from_words(&words)
}

} // verus!
