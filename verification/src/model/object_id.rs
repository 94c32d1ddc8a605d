//! Twelve-byte record identities and their 24-digit hexadecimal text form.

use vstd::prelude::*;
use vstd::std_specs::cmp::PartialEqSpecImpl;
use vstd::string::*;

verus! {

/// The number a hexadecimal digit stands for; `None` for any other character.
/// Both cases of the letters are digits.
pub open spec fn hex_digit_value(c: char) -> Option<u8> {
    if '0' <= c <= '9' {
        Some((c as u8 - 0x30) as u8)
    } else if 'a' <= c <= 'f' {
        Some((c as u8 - 0x61 + 10) as u8)
    } else if 'A' <= c <= 'F' {
        Some((c as u8 - 0x41 + 10) as u8)
    } else {
        None
    }
}

/// The lower-case hexadecimal digit for a number below sixteen.
pub open spec fn hex_digit(v: int) -> char {
    if v < 10 {
        (0x30 + v) as char
    } else {
        (0x61 + v - 10) as char
    }
}

/// Text is an identity's text form when it is exactly 24 hexadecimal digits.
pub open spec fn is_object_id_text(s: Seq<char>) -> bool {
    &&& s.len() == 24
    &&& forall|i: int| 0 <= i < 24 ==> (#[trigger] hex_digit_value(s[i])) is Some
}

/// The twelve bytes that 24 hexadecimal digits spell, two digits to a byte,
/// the high digit first.
pub open spec fn hex_bytes(s: Seq<char>) -> Seq<u8> {
    Seq::new(
        12,
        |i: int|
            (hex_digit_value(s[2 * i]).unwrap() * 16 + hex_digit_value(s[2 * i + 1]).unwrap()) as u8,
    )
}

/// The 24 lower-case hexadecimal digits that spell twelve bytes.
pub open spec fn hex_text(bytes: Seq<u8>) -> Seq<char> {
    Seq::new(
        24,
        |i: int|
            if i % 2 == 0 {
                hex_digit(bytes[i / 2] as int / 16)
            } else {
                hex_digit(bytes[i / 2] as int % 16)
            },
    )
}

/// The number held in the last eight bytes of an identity, most significant
/// byte first.
pub open spec fn sequence_number(bytes: Seq<u8>) -> int {
    ((((((bytes[4] as int * 256 + bytes[5] as int) * 256 + bytes[6] as int) * 256
        + bytes[7] as int) * 256 + bytes[8] as int) * 256 + bytes[9] as int) * 256
        + bytes[10] as int) * 256 + bytes[11] as int
}

/// Spelling twelve bytes as text and reading the text back gives the bytes.
pub proof fn lemma_hex_round_trip(bytes: Seq<u8>)
    requires
        bytes.len() == 12,
    ensures
        is_object_id_text(hex_text(bytes)),
        hex_bytes(hex_text(bytes)) == bytes,
{
    let text = hex_text(bytes);
    assert forall|i: int| 0 <= i < 24 implies (#[trigger] hex_digit_value(text[i])) is Some by {
        let b = bytes[i / 2] as int;
        assert(0 <= b / 16 < 16 && 0 <= b % 16 < 16);
    }
    assert forall|i: int| 0 <= i < 12 implies hex_bytes(text)[i] == bytes[i] by {
        let b = bytes[i] as int;
        assert(0 <= b / 16 < 16 && 0 <= b % 16 < 16);
        assert((2 * i) % 2 == 0 && (2 * i) / 2 == i);
        assert((2 * i + 1) % 2 == 1 && (2 * i + 1) / 2 == i);
        assert(hex_digit_value(text[2 * i]) == Some((b / 16) as u8));
        assert(hex_digit_value(text[2 * i + 1]) == Some((b % 16) as u8));
    }
    assert(hex_bytes(text) =~= bytes);
}

/// The identity of a stored record: twelve opaque bytes.
#[derive(Clone, Copy, Debug, Eq, Hash)]
pub struct ObjectId {
    bytes: [u8; 12],
}

impl View for ObjectId {
    type V = Seq<u8>;

    closed spec fn view(&self) -> Seq<u8> {
        self.bytes@
    }
}

impl PartialEq for ObjectId {
    fn eq(&self, other: &ObjectId) -> (r: bool) {
        let mut i: usize = 0;
        while i < 12
            invariant
                i <= 12,
                forall|j: int| 0 <= j < i ==> self.bytes@[j] == other.bytes@[j],
            decreases 12 - i,
        {
            if self.bytes[i] != other.bytes[i] {
                return false;
            }
            i += 1;
        }
        assert(self.bytes@ =~= other.bytes@);
        true
    }
}

impl PartialEqSpecImpl for ObjectId {
    open spec fn obeys_eq_spec() -> bool {
        true
    }

    open spec fn eq_spec(&self, other: &ObjectId) -> bool {
        self@ == other@
    }
}

fn digit_value(b: u8) -> (r: Option<u8>)
    ensures
        r == hex_digit_value(b as char),
        r matches Some(v) ==> v < 16,
{
    if 0x30 <= b && b <= 0x39 {
        Some(b - 0x30)
    } else if 0x61 <= b && b <= 0x66 {
        Some(b - 0x61 + 10)
    } else if 0x41 <= b && b <= 0x46 {
        Some(b - 0x41 + 10)
    } else {
        None
    }
}

fn digit_text(v: u8) -> (s: &'static str)
    requires
        v < 16,
    ensures
        s@ == seq![hex_digit(v as int)],
{
    proof {
        reveal_strlit("0");
        reveal_strlit("1");
        reveal_strlit("2");
        reveal_strlit("3");
        reveal_strlit("4");
        reveal_strlit("5");
        reveal_strlit("6");
        reveal_strlit("7");
        reveal_strlit("8");
        reveal_strlit("9");
        reveal_strlit("a");
        reveal_strlit("b");
        reveal_strlit("c");
        reveal_strlit("d");
        reveal_strlit("e");
        reveal_strlit("f");
    }
    let s = if v == 0 {
        "0"
    } else if v == 1 {
        "1"
    } else if v == 2 {
        "2"
    } else if v == 3 {
        "3"
    } else if v == 4 {
        "4"
    } else if v == 5 {
        "5"
    } else if v == 6 {
        "6"
    } else if v == 7 {
        "7"
    } else if v == 8 {
        "8"
    } else if v == 9 {
        "9"
    } else if v == 10 {
        "a"
    } else if v == 11 {
        "b"
    } else if v == 12 {
        "c"
    } else if v == 13 {
        "d"
    } else if v == 14 {
        "e"
    } else {
        "f"
    };
    assert(s@ =~= seq![hex_digit(v as int)]);
    s
}

impl ObjectId {
    /// The identity made of the given bytes.
    pub fn from_bytes(bytes: [u8; 12]) -> (id: ObjectId)
        ensures
            id@ == bytes@,
    {
        ObjectId { bytes }
    }

    /// The twelve bytes of the identity.
    pub fn bytes(&self) -> (bytes: [u8; 12])
        ensures
            bytes@ == self@,
    {
        self.bytes
    }

    /// Two identities with the same bytes are the same identity.
    pub proof fn lemma_view_injective(self, other: ObjectId)
        requires
            self@ == other@,
        ensures
            self == other,
    {
        assert(self.bytes =~= other.bytes);
    }

    /// An identity has twelve bytes.
    pub proof fn lemma_view_len(self)
        ensures
            self@.len() == 12,
    {
    }

    /// Reads an identity from its text form: exactly 24 hexadecimal digits,
    /// letters in either case. Any other text is not an identity.
    pub fn parse_str(s: &str) -> (r: Option<ObjectId>)
        ensures
            match r {
                Some(id) => is_object_id_text(s@) && id@ == hex_bytes(s@),
                None => !is_object_id_text(s@),
            },
    {
        if !s.is_ascii() {
            proof {
                if is_object_id_text(s@) {
                    let i = choose|i: int|
                        0 <= i < s@.len() && !('\0' <= (#[trigger] s@[i]) && s@[i] <= '\u{7f}');
                    assert(hex_digit_value(s@[i]) is Some);
                }
            }
            return None;
        }
        let text = s.as_bytes();
        proof {
            is_ascii_spec_bytes(s);
        }
        if text.len() != 24 {
            return None;
        }
        let mut bytes: [u8; 12] = [0u8; 12];
        let mut i: usize = 0;
        while i < 12
            invariant
                i <= 12,
                is_ascii(s),
                text@.len() == 24,
                s@.len() == 24,
                text@ =~= Seq::new(s@.len(), |k: int| s@.index(k) as u8),
                forall|k: int| 0 <= k < 2 * i ==> (#[trigger] hex_digit_value(s@[k])) is Some,
                forall|k: int| 0 <= k < i ==> bytes@[k] == #[trigger] hex_bytes(s@)[k],
            decreases 12 - i,
        {
            let high = digit_value(text[2 * i]);
            let low = digit_value(text[2 * i + 1]);
            proof {
                let c0 = s@[2 * i as int];
                let c1 = s@[2 * i as int + 1];
                assert(text@[2 * i as int] == c0 as u8);
                assert(text@[2 * i as int + 1] == c1 as u8);
                assert('\0' <= c0 <= '\u{7f}');
                assert('\0' <= c1 <= '\u{7f}');
                assert((c0 as u8) as char == c0);
                assert((c1 as u8) as char == c1);
            }
            match (high, low) {
                (Some(h), Some(l)) => {
                    bytes[i] = h * 16 + l;
                },
                _ => {
                    return None;
                },
            }
            i += 1;
        }
        assert(bytes@ =~= hex_bytes(s@));
        assert forall|k: int| 0 <= k < 24 implies (#[trigger] hex_digit_value(s@[k])) is Some by {}
        Some(ObjectId { bytes })
    }

    /// The text form of the identity: 24 lower-case hexadecimal digits.
    pub fn to_hex(&self) -> (s: String)
        ensures
            s@ == hex_text(self@),
            is_object_id_text(s@),
            hex_bytes(s@) == self@,
    {
        let mut out = String::new();
        let mut i: usize = 0;
        while i < 12
            invariant
                i <= 12,
                out@ =~= hex_text(self@).take(2 * i as int),
            decreases 12 - i,
        {
            let b = self.bytes[i];
            let ghost before = out@;
            out.append(digit_text(b / 16));
            out.append(digit_text(b % 16));
            proof {
                let full = hex_text(self@);
                assert((2 * i as int) % 2 == 0 && (2 * i as int) / 2 == i as int);
                assert((2 * i as int + 1) % 2 == 1 && (2 * i as int + 1) / 2 == i as int);
                assert(full[2 * i as int] == hex_digit(b as int / 16));
                assert(full[2 * i as int + 1] == hex_digit(b as int % 16));
                assert(out@ =~= full.take(2 * (i + 1) as int));
            }
            i += 1;
        }
        proof {
            assert(out@ =~= hex_text(self@));
            lemma_hex_round_trip(self@);
        }
        out
    }

    /// The identity whose first four bytes are zero and whose last eight
    /// hold `n`, most significant byte first.
    pub fn from_sequence_number(n: u64) -> (id: ObjectId)
        ensures
            sequence_number(id@) == n,
            forall|k: int| 0 <= k < 4 ==> id@[k] == 0,
    {
        let mut bytes: [u8; 12] = [0u8; 12];
        bytes[4] = (n / 0x100_0000_0000_0000) as u8;
        bytes[5] = (n / 0x1_0000_0000_0000 % 256) as u8;
        bytes[6] = (n / 0x100_0000_0000 % 256) as u8;
        bytes[7] = (n / 0x1_0000_0000 % 256) as u8;
        bytes[8] = (n / 0x100_0000 % 256) as u8;
        bytes[9] = (n / 0x1_0000 % 256) as u8;
        bytes[10] = (n / 0x100 % 256) as u8;
        bytes[11] = (n % 256) as u8;
        ObjectId { bytes }
    }
}

} // verus!
