//! Texts on their way across the native boundary: null-terminated byte
//! strings going in, bytes of a native string coming out.

use vstd::prelude::*;
use vstd::string::*;
use vstd::utf8::*;

use crate::error::Error;

verus! {

/// Whether some byte is NUL.
pub open spec fn has_nul(bytes: Seq<u8>) -> bool {
    exists|i: int| 0 <= i < bytes.len() && bytes[i] == 0
}

/// Whether the byte at `position` is NUL and none before it is.
pub open spec fn is_first_nul(bytes: Seq<u8>, position: int) -> bool {
    &&& 0 <= position < bytes.len()
    &&& bytes[position] == 0
    &&& forall|i: int| 0 <= i < position ==> bytes[i] != 0
}

/// Whether the bytes are a null-terminated byte string: the last byte is
/// NUL and no other is.
pub open spec fn is_terminated(bytes: Seq<u8>) -> bool {
    &&& bytes.len() >= 1
    &&& is_first_nul(bytes, bytes.len() - 1)
}

/// The text that a native string is read as: the characters that its bytes
/// encode, and where they encode none, what the lossy decoder makes of them.
pub open spec fn native_text(bytes: Seq<u8>) -> Seq<char> {
    if valid_utf8(bytes) {
        decode_utf8(bytes)
    } else {
        utf8_lossy(bytes)
    }
}

/// What `String::from_utf8_lossy` makes of a byte sequence.
pub uninterp spec fn utf8_lossy(bytes: Seq<u8>) -> Seq<char>;

/// `String::from_utf8_lossy`, followed by `Cow::into_owned`. The decoder
/// never fails: malformed bytes come out as replacement characters. Its
/// result is a function of the bytes alone, and std documents that valid
/// UTF-8 comes out as the text that it encodes.
#[verifier::external_body]
pub(crate) fn from_utf8_lossy(bytes: &[u8]) -> (text: String)
    ensures
        text@ == utf8_lossy(bytes@),
        valid_utf8(bytes@) ==> text@ == decode_utf8(bytes@),
{
    String::from_utf8_lossy(bytes).into_owned()
}

/// The digit that stands for a number below ten.
pub open spec fn digit(d: nat) -> Seq<char> {
    if d == 0 {
        "0"@
    } else if d == 1 {
        "1"@
    } else if d == 2 {
        "2"@
    } else if d == 3 {
        "3"@
    } else if d == 4 {
        "4"@
    } else if d == 5 {
        "5"@
    } else if d == 6 {
        "6"@
    } else if d == 7 {
        "7"@
    } else if d == 8 {
        "8"@
    } else {
        "9"@
    }
}

/// A natural number in decimal notation, without leading zeros.
pub open spec fn decimal_nat(n: nat) -> Seq<char>
    decreases n,
{
    if n < 10 {
        digit(n)
    } else {
        decimal_nat(n / 10) + digit(n % 10)
    }
}

/// An integer in decimal notation, with a minus sign where it is negative.
pub open spec fn decimal(n: int) -> Seq<char> {
    if n < 0 {
        "-"@ + decimal_nat((-n) as nat)
    } else {
        decimal_nat(n as nat)
    }
}

fn digit_text(d: u128) -> (text: &'static str)
    requires
        d < 10,
    ensures
        text@ == digit(d as nat),
{
    match d {
        0 => "0",
        1 => "1",
        2 => "2",
        3 => "3",
        4 => "4",
        5 => "5",
        6 => "6",
        7 => "7",
        8 => "8",
        _ => "9",
    }
}

fn decimal_nat_text(n: u128) -> (text: String)
    ensures
        text@ == decimal_nat(n as nat),
    decreases n,
{
    if n < 10 {
        digit_text(n).to_owned()
    } else {
        decimal_nat_text(n / 10).concat(digit_text(n % 10))
    }
}

/// Writes an integer in decimal notation.
pub fn decimal_text(n: i128) -> (text: String)
    ensures
        text@ == decimal(n as int),
{
    if n < 0 {
        let magnitude: u128 = if n == i128::MIN {
            0x8000_0000_0000_0000_0000_0000_0000_0000
        } else {
            (-n) as u128
        };
        "-".to_owned().concat(decimal_nat_text(magnitude).as_str())
    } else {
        decimal_nat_text(n as u128)
    }
}

/// A text as the native library takes it: its UTF-8 bytes and a NUL after
/// them, with no NUL among them.
#[derive(Debug, PartialEq, Eq)]
pub struct NativeString {
    bytes: Vec<u8>,
}

impl View for NativeString {
    type V = Seq<u8>;

    /// All bytes, the final NUL included.
    closed spec fn view(&self) -> Seq<u8> {
        self.bytes@
    }
}

impl Clone for NativeString {
    fn clone(&self) -> (copy: NativeString)
        ensures
            copy@ == self@,
    {
        proof {
            use_type_invariant(self);
        }
        let bytes = self.bytes.clone();
        assert(bytes@ =~= self.bytes@);
        NativeString { bytes }
    }
}

impl NativeString {
    #[verifier::type_invariant]
    spec fn well_formed(&self) -> bool {
        is_terminated(self.bytes@)
    }

    /// The bytes that stand for a text on the native side.
    pub open spec fn encoding(text: Seq<char>) -> Seq<u8> {
        encode_utf8(text).push(0u8)
    }

    /// Encodes a text. Fails exactly when the text holds a NUL byte, and
    /// then says where the first one is.
    pub fn new(text: &str) -> (encoded: Result<NativeString, Error>)
        ensures
            match encoded {
                Ok(s) => !has_nul(encode_utf8(text@)) && s@ == Self::encoding(text@),
                Err(Error::Encoding { position }) => is_first_nul(
                    encode_utf8(text@),
                    position as int,
                ),
                Err(_) => false,
            },
    {
        let source = text.as_bytes();
        let mut bytes: Vec<u8> = Vec::new();
        let mut i: usize = 0;
        while i < source.len()
            invariant
                i <= source.len(),
                source@ == encode_utf8(text@),
                bytes@ == source@.subrange(0, i as int),
                forall|j: int| 0 <= j < i ==> source@[j] != 0,
            decreases source.len() - i,
        {
            let byte: u8 = source[i];
            if byte == 0 {
                return Err(Error::Encoding { position: i });
            }
            bytes.push(byte);
            assert(bytes@ =~= source@.subrange(0, i + 1));
            i += 1;
        }
        assert(bytes@ =~= source@);
        bytes.push(0u8);
        Ok(NativeString { bytes })
    }

    /// All bytes, the final NUL included.
    pub fn as_bytes_with_nul(&self) -> (bytes: &[u8])
        ensures
            bytes@ == self@,
            is_terminated(bytes@),
    {
        proof {
            use_type_invariant(self);
        }
        self.bytes.as_slice()
    }

    /// The bytes before the final NUL.
    pub fn as_bytes(&self) -> (bytes: &[u8])
        ensures
            bytes@ == self@.drop_last(),
            !has_nul(bytes@),
    {
        proof {
            use_type_invariant(self);
        }
        let all = self.bytes.as_slice();
        let end: usize = all.len() - 1;
        let content = vstd::slice::slice_subrange(all, 0, end);
        assert(content@ =~= self@.drop_last());
        content
    }

    /// Reads the bytes of a native string as text. Never fails: where the
    /// bytes are no UTF-8, the lossy decoder replaces what is malformed.
    pub fn decode(bytes: &[u8]) -> (text: String)
        ensures
            text@ == native_text(bytes@),
    {
        from_utf8_lossy(bytes)
    }

    /// A text that was encoded comes back unchanged when the bytes before the
    /// final NUL are read again. So a JSON text that is staged on a writer
    /// and handed back by the native side byte for byte is read from the
    /// reader as the text that was staged.
    pub proof fn lemma_round_trip(text: Seq<char>)
        ensures
            native_text(Self::encoding(text).drop_last()) == text,
    {
        broadcast use {encode_utf8_valid_utf8, encode_utf8_decode_utf8};

        assert(Self::encoding(text).drop_last() =~= encode_utf8(text));
    }

    /// The bytes of a text hold a NUL exactly when the text holds the NUL
    /// character: no other character has a zero byte in its encoding.
    pub proof fn lemma_nul_byte_iff_nul_char(text: Seq<char>)
        ensures
            has_nul(encode_utf8(text)) <==> text.contains('\0'),
        decreases text.len(),
    {
        if text.len() == 0 {
            assert(!text.contains('\0'));
        } else {
            let first = encode_scalar(text[0] as u32);
            let rest = encode_utf8(text.drop_first());
            Self::lemma_nul_byte_iff_nul_char(text.drop_first());
            Self::lemma_scalar_nul(text[0]);
            if has_nul(first + rest) {
                let i: int = choose|i: int| 0 <= i < (first + rest).len() && (first + rest)[i] == 0;
                if i < first.len() {
                    assert(first[i] == 0);
                    assert(text[0] == '\0');
                } else {
                    assert(rest[i - first.len()] == 0);
                    let j: int = choose|j: int|
                        0 <= j < text.drop_first().len() && text.drop_first()[j] == '\0';
                    assert(text[j + 1] == '\0');
                }
            }
            if text.contains('\0') {
                let j: int = choose|j: int| 0 <= j < text.len() && text[j] == '\0';
                if j == 0 {
                    let i: int = choose|i: int| 0 <= i < first.len() && first[i] == 0;
                    assert((first + rest)[i] == 0);
                } else {
                    assert(text.drop_first()[j - 1] == '\0');
                    let i: int = choose|i: int| 0 <= i < rest.len() && rest[i] == 0;
                    assert((first + rest)[first.len() + i] == 0);
                }
            }
        }
    }

    proof fn lemma_scalar_nul(c: char)
        ensures
            has_nul(encode_scalar(c as u32)) <==> c == '\0',
    {
        let s: u32 = c as u32;
        char_is_scalar(c);
        Self::lemma_scalar_bytes(s);
        let bytes = encode_scalar(s);
        if c == '\0' {
            assert(s == 0);
            assert(bytes[0] == 0);
        } else {
            assert(s != 0) by {
                char_u32_cast(c, s);
                char_u32_cast('\0', 0u32);
            }
            assert forall|i: int| 0 <= i < bytes.len() implies bytes[i] != 0 by {}
        }
    }

    proof fn lemma_scalar_bytes(s: u32)
        by (bit_vector)
        ensures
            s <= 0x7F ==> ((s & 0x7F) as u8 == 0 <==> s == 0),
            0xC0 | ((s >> 6) & 0x1F) as u8 != 0,
            0xE0 | ((s >> 12) & 0x0F) as u8 != 0,
            0xF0 | ((s >> 18) & 0x7) as u8 != 0,
            0x80 | (s & 0x3F) as u8 != 0,
            0x80 | ((s >> 6) & 0x3F) as u8 != 0,
            0x80 | ((s >> 12) & 0x3F) as u8 != 0,
    {
    }

    /// At most one position is that of the first NUL.
    pub proof fn lemma_first_nul_unique(bytes: Seq<u8>, p: int, q: int)
        requires
            is_first_nul(bytes, p),
            is_first_nul(bytes, q),
        ensures
            p == q,
    {
        if p < q {
            assert(bytes[p] != 0);
        }
        if q < p {
            assert(bytes[q] != 0);
        }
    }

    /// A text has a first NUL exactly when it has a NUL.
    pub proof fn lemma_first_nul_exists(bytes: Seq<u8>)
        ensures
            has_nul(bytes) <==> exists|p: int| is_first_nul(bytes, p),
    {
        if has_nul(bytes) {
            let i: int = choose|i: int| 0 <= i < bytes.len() && bytes[i] == 0;
            Self::lemma_first_nul_below(bytes, i);
        }
    }

    proof fn lemma_first_nul_below(bytes: Seq<u8>, i: int)
        requires
            0 <= i < bytes.len(),
            bytes[i] == 0,
        ensures
            exists|p: int| is_first_nul(bytes, p),
        decreases i,
    {
        if exists|j: int| 0 <= j < i && bytes[j] == 0 {
            let j: int = choose|j: int| 0 <= j < i && bytes[j] == 0;
            Self::lemma_first_nul_below(bytes, j);
        } else {
            assert(is_first_nul(bytes, i));
        }
    }
}

} // verus!
