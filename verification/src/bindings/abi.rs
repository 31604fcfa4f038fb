use vstd::prelude::*;
use vstd::slice::slice_subrange;
use crate::primitives::U256;

verus! {

/// The number of bytes of a word of an encoding.
pub const WORD_LEN: usize = 32;

/// The most bytes that a dynamic value may have to be encoded.
pub const MAX_BYTES_LEN: usize = 0x7fff_ff00;

/// The most words that are decoded at once.
pub const MAX_WORDS: usize = 64;

/// The last `len` base-256 digits of `n`, most significant first.
pub open spec fn be_bytes(n: nat, len: nat) -> Seq<u8>
    decreases len,
{
    if len == 0 {
        Seq::empty()
    } else {
        be_bytes(n / 256, (len - 1) as nat).push((n % 256) as u8)
    }
}

/// The number whose base-256 digits, most significant first, are `bytes`.
pub open spec fn be_value(bytes: Seq<u8>) -> nat
    decreases bytes.len(),
{
    if bytes.len() == 0 {
        0
    } else {
        be_value(bytes.drop_last()) * 256 + bytes.last() as nat
    }
}

/// The word that encodes the number `n`: its 32 big-endian bytes.
pub open spec fn word_bytes(n: nat) -> Seq<u8> {
    be_bytes(n, 32)
}

/// The words of `words`, one after the other.
pub open spec fn words_bytes(words: Seq<U256>) -> Seq<u8>
    decreases words.len(),
{
    if words.len() == 0 {
        Seq::empty()
    } else {
        words_bytes(words.drop_last()) + word_bytes(words.last().value())
    }
}

/// `len` zero bytes.
pub open spec fn zero_bytes(len: nat) -> Seq<u8> {
    Seq::new(len, |i: int| 0u8)
}

/// The number of zero bytes that fill `len` bytes up to whole words.
pub open spec fn padding_len(len: nat) -> nat {
    ((32 - len % 32) % 32) as nat
}

/// The encoding of one dynamic byte string: the offset of its tail, which is one word, then the
/// tail, which is the length, the bytes, and zero bytes up to a whole word.
pub open spec fn dynamic_bytes(data: Seq<u8>) -> Seq<u8> {
    word_bytes(32) + word_bytes(data.len()) + data + zero_bytes(padding_len(data.len()))
}

/// The number that a word holds, where it is below 2^32; `None` where one of its first 28
/// bytes is not zero.
pub open spec fn small_word(word: Seq<u8>) -> Option<nat> {
    if word.len() == 32 && word.subrange(0, 28) == zero_bytes(28) {
        Some(be_value(word.subrange(28, 32)))
    } else {
        None
    }
}

/// The word of `data` that starts at `offset`, where there is one.
pub open spec fn word_at(data: Seq<u8>, offset: nat) -> Option<Seq<u8>> {
    if offset + 32 <= data.len() {
        Some(data.subrange(offset as int, offset as int + 32))
    } else {
        None
    }
}

/// What decoding gives for one dynamic byte string: the first word is the offset of the tail,
/// the word there is the length, and the bytes follow it. `None` where a word is missing or
/// holds a number of 2^32 or more, or where the bytes reach beyond the data.
pub open spec fn decoded_bytes(data: Seq<u8>) -> Option<Seq<u8>> {
    match word_at(data, 0) {
        None => None,
        Some(head) => match small_word(head) {
            None => None,
            Some(offset) => match word_at(data, offset) {
                None => None,
                Some(length_word) => match small_word(length_word) {
                    None => None,
                    Some(len) => if offset + 32 + len <= data.len() {
                        Some(data.subrange(offset as int + 32, offset as int + 32 + len as int))
                    } else {
                        None
                    },
                },
            },
        },
    }
}

/// 256 to the power of `len`: the number of values that `len` bytes can hold.
pub open spec fn pow256(len: nat) -> nat
    decreases len,
{
    if len == 0 {
        1
    } else {
        256 * pow256((len - 1) as nat)
    }
}

/// `be_bytes` gives as many bytes as it is asked for.
pub proof fn lemma_be_bytes_len(n: nat, len: nat)
    ensures
        be_bytes(n, len).len() == len,
    decreases len,
{
    if len > 0 {
        lemma_be_bytes_len(n / 256, (len - 1) as nat);
    }
}

/// Reading the bytes of a number gives the number back, as far as the bytes can hold it.
pub proof fn lemma_be_value_of_be_bytes(n: nat, len: nat)
    ensures
        pow256(len) > 0,
        be_value(be_bytes(n, len)) == n % pow256(len),
    decreases len,
{
    if len > 0 {
        let rest = be_bytes(n / 256, (len - 1) as nat);
        let bytes = be_bytes(n, len);
        lemma_be_value_of_be_bytes(n / 256, (len - 1) as nat);
        assert(bytes.drop_last() =~= rest);
        assert(bytes.last() == (n % 256) as u8);
        let p = pow256((len - 1) as nat);
        vstd::arithmetic::div_mod::lemma_mod_breakdown(n as int, 256, p as int);
        assert(be_value(bytes) == be_value(rest) * 256 + (n % 256));
    }
}

/// The bytes of a number are the bytes of its upper part, then those of its lower part.
pub proof fn lemma_be_bytes_split(n: nat, upper: nat, lower: nat)
    ensures
        pow256(lower) > 0,
        be_bytes(n, upper + lower) == be_bytes(n / pow256(lower), upper) + be_bytes(n, lower),
    decreases lower,
{
    if lower == 0 {
        assert(pow256(lower) == 1);
        assert(n / pow256(lower) == n);
        assert(be_bytes(n, lower) =~= Seq::<u8>::empty());
        assert(be_bytes(n, upper) + Seq::<u8>::empty() =~= be_bytes(n, upper));
    } else {
        let shorter = (lower - 1) as nat;
        lemma_be_bytes_split(n / 256, upper, shorter);
        vstd::arithmetic::div_mod::lemma_div_denominator(n as int, 256, pow256(shorter) as int);
        assert((n / 256) / pow256(shorter) == n / pow256(lower));
        let last = (n % 256) as u8;
        let high = be_bytes(n / pow256(lower), upper);
        let low = be_bytes(n / 256, shorter);
        assert(be_bytes(n, lower) == low.push(last));
        assert((upper + lower - 1) as nat == upper + shorter);
        assert(be_bytes(n, upper + lower) == be_bytes(n / 256, upper + shorter).push(last));
        assert(be_bytes(n / 256, upper + shorter) == high + low);
        assert((high + low).push(last) =~= high + low.push(last));
    }
}

/// The bytes of zero are zero bytes.
pub proof fn lemma_be_bytes_of_zero(len: nat)
    ensures
        be_bytes(0, len) == zero_bytes(len),
    decreases len,
{
    if len > 0 {
        lemma_be_bytes_of_zero((len - 1) as nat);
    }
    assert(be_bytes(0, len) =~= zero_bytes(len));
}

/// Four bytes hold the numbers below 2^32, and 32 bytes those below 2^256.
pub proof fn lemma_pow256_values()
    ensures
        pow256(4) == 0x1_0000_0000,
        pow256(16) == 0x1_0000_0000_0000_0000_0000_0000_0000_0000,
        pow256(32) == 0x1_0000_0000_0000_0000_0000_0000_0000_0000
            * 0x1_0000_0000_0000_0000_0000_0000_0000_0000,
{
    reveal_with_fuel(pow256, 5);
    assert(pow256(4) == 0x1_0000_0000);
    assert(pow256(8) == 0x1_0000_0000 * pow256(4));
    assert(pow256(12) == 0x1_0000_0000 * pow256(8));
    assert(pow256(16) == 0x1_0000_0000 * pow256(12));
    assert(pow256(20) == 0x1_0000_0000 * pow256(16));
    assert(pow256(24) == 0x1_0000_0000 * pow256(20));
    assert(pow256(28) == 0x1_0000_0000 * pow256(24));
    assert(pow256(32) == 0x1_0000_0000 * pow256(28));
}

/// A word that holds a number below 2^256 gives that number back when it is read.
pub proof fn lemma_word_round_trip(n: nat)
    requires
        n < pow256(32),
    ensures
        word_bytes(n).len() == 32,
        be_value(word_bytes(n)) == n,
{
    lemma_be_bytes_len(n, 32);
    lemma_be_value_of_be_bytes(n, 32);
    vstd::arithmetic::div_mod::lemma_small_mod(n, pow256(32));
}

/// A word that holds a number below 2^32 starts with 28 zero bytes, and its last four bytes
/// hold the number.
pub proof fn lemma_small_word_round_trip(n: nat)
    requires
        n < 0x1_0000_0000,
    ensures
        small_word(word_bytes(n)) == Some(n),
{
    lemma_pow256_values();
    lemma_be_bytes_split(n, 28, 4);
    vstd::arithmetic::div_mod::lemma_basic_div(n as int, pow256(4) as int);
    lemma_be_bytes_of_zero(28);
    lemma_be_bytes_len(n, 4);
    lemma_be_bytes_len(n, 32);
    lemma_be_value_of_be_bytes(n, 4);
    vstd::arithmetic::div_mod::lemma_small_mod(n, pow256(4));
    let word = word_bytes(n);
    assert(word == zero_bytes(28) + be_bytes(n, 4));
    assert(word.subrange(0, 28) =~= zero_bytes(28));
    assert(word.subrange(28, 32) =~= be_bytes(n, 4));
}

/// Decoding the encoding of a byte string gives the byte string back.
pub proof fn lemma_bytes_round_trip(data: Seq<u8>)
    requires
        data.len() <= MAX_BYTES_LEN,
    ensures
        decoded_bytes(dynamic_bytes(data)) == Some(data),
{
    let encoded = dynamic_bytes(data);
    lemma_small_word_round_trip(32);
    lemma_small_word_round_trip(data.len());
    lemma_be_bytes_len(32, 32);
    lemma_be_bytes_len(data.len(), 32);
    assert(encoded.subrange(0, 32) =~= word_bytes(32));
    assert(encoded.subrange(32, 64) =~= word_bytes(data.len()));
    assert(encoded.subrange(64, 64 + data.len() as int) =~= data);
}

/// Calls `ethers_core::abi::encode` on one `Token::Uint` for each word. The encoding of static
/// values is the words themselves, in order.
#[verifier::external_body]
pub(crate) fn encode_words(words: &Vec<U256>) -> (encoded: Vec<u8>)
    requires
        words@.len() <= MAX_WORDS,
    ensures
        encoded@ == words_bytes(words@),
{
    let tokens: Vec<ethers_core::abi::Token> = words.iter().map(|w| {
        let bytes = [w.high.to_be_bytes(), w.low.to_be_bytes()].concat();
        ethers_core::abi::Token::Uint(ethers_core::types::U256::from_big_endian(&bytes))
    }).collect();
    ethers_core::abi::encode(&tokens)
}

/// Calls `ethers_core::abi::encode` on one `Token::Bytes`. The encoding is the offset word, the
/// length word, the bytes, and zero bytes up to a whole word.
#[verifier::external_body]
pub(crate) fn encode_bytes(data: &Vec<u8>) -> (encoded: Vec<u8>)
    requires
        data@.len() <= MAX_BYTES_LEN,
    ensures
        encoded@ == dynamic_bytes(data@),
{
    ethers_core::abi::encode(&[ethers_core::abi::Token::Bytes(data.clone())])
}

/// Calls `ethers_core::abi::decode` for `count` parameters of type `uint256`. It succeeds where
/// the data holds `count` words, whatever follows them, and gives the numbers of these words.
#[verifier::external_body]
pub(crate) fn decode_words(count: usize, data: &[u8]) -> (words: Option<Vec<U256>>)
    requires
        count <= MAX_WORDS,
    ensures
        words is Some <==> 32 * count <= data@.len(),
        words matches Some(found) ==> found@.len() == count && forall|i: int|
            0 <= i < count ==> (#[trigger] found@[i]).value() == be_value(
                data@.subrange(32 * i, 32 * i + 32),
            ),
{
    let types = vec![ethers_core::abi::ParamType::Uint(256); count];
    let tokens = ethers_core::abi::decode(&types, data).ok()?;
    tokens.into_iter().map(|token| {
        let mut word = [0u8; 32];
        token.into_uint()?.to_big_endian(&mut word);
        let high = u128::from_be_bytes(word[..16].try_into().ok()?);
        Some(U256 { high, low: u128::from_be_bytes(word[16..].try_into().ok()?) })
    }).collect()
}

/// Calls `ethers_core::abi::decode` for one parameter of type `bytes`, and gives the bytes. The
/// decoder adds 32 to an offset that it has read from the data, a number below 2^32, so the
/// machine's addresses have to be wider than 32 bits.
#[verifier::external_body]
pub(crate) fn decode_bytes(data: &[u8]) -> (bytes: Option<Vec<u8>>)
    requires
        usize::BITS == 64,
    ensures
        bytes is Some <==> decoded_bytes(data@) is Some,
        bytes matches Some(found) ==> decoded_bytes(data@) == Some(found@),
{
    let mut tokens = ethers_core::abi::decode(&[ethers_core::abi::ParamType::Bytes], data).ok()?;
    tokens.pop()?.into_bytes()
}

/// The bytes of `selector`, then those of `arguments`.
pub fn with_selector(selector: [u8; 4], arguments: Vec<u8>) -> (data: Vec<u8>)
    ensures
        data@ == selector@ + arguments@,
{
    let mut data: Vec<u8> = Vec::new();
    data.push(selector[0]);
    data.push(selector[1]);
    data.push(selector[2]);
    data.push(selector[3]);
    let mut rest = arguments;
    data.append(&mut rest);
    assert(data@ =~= selector@ + arguments@);
    data
}

/// The bytes of `data` that follow a leading `selector`; `None` where `data` does not start
/// with `selector`.
pub open spec fn after_selector(selector: Seq<u8>, data: Seq<u8>) -> Option<Seq<u8>> {
    if data.len() >= selector.len() && data.subrange(0, selector.len() as int) == selector {
        Some(data.subrange(selector.len() as int, data.len() as int))
    } else {
        None
    }
}

/// Splits a leading `selector` off `data`.
pub fn strip_selector<'a>(selector: [u8; 4], data: &'a [u8]) -> (rest: Option<&'a [u8]>)
    ensures
        rest is Some <==> after_selector(selector@, data@) is Some,
        rest matches Some(found) ==> after_selector(selector@, data@) == Some(found@),
{
    if data.len() < 4 {
        return None;
    }
    if data[0] != selector[0] || data[1] != selector[1] || data[2] != selector[2] || data[3]
        != selector[3] {
        assert(data@.subrange(0, 4)[0] == data@[0]);
        assert(data@.subrange(0, 4)[1] == data@[1]);
        assert(data@.subrange(0, 4)[2] == data@[2]);
        assert(data@.subrange(0, 4)[3] == data@[3]);
        return None;
    }
    assert(data@.subrange(0, 4) =~= selector@);
    Some(slice_subrange(data, 4, data.len()))
}

} // verus!
