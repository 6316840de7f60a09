use vstd::prelude::*;
use vstd::string::StringSliceAdditionalSpecFns;

verus! {

/// A process-unique 128-bit token naming a publisher or subscriber session.
#[derive(Clone, Copy, Debug, PartialEq, Eq, Structural, Hash)]
pub struct SessionId {
    pub value: u128,
}

/// Number of hexadecimal digits in the text form of a session id.
pub const SESSION_ID_DIGITS: usize = 32;

pub open spec fn is_hex_digit(c: u8) -> bool {
    (48 <= c <= 57) || (97 <= c <= 102) || (65 <= c <= 70)
}

pub open spec fn hex_digit_value(c: u8) -> nat {
    if 48 <= c <= 57 {
        (c - 48) as nat
    } else if 97 <= c <= 102 {
        (c - 87) as nat
    } else if 65 <= c <= 70 {
        (c - 55) as nat
    } else {
        0
    }
}

/// The number written by a sequence of hexadecimal digits, most significant first.
pub open spec fn hex_number(d: Seq<u8>) -> nat
    decreases d.len(),
{
    if d.len() == 0 {
        0
    } else {
        hex_number(d.drop_last()) * 16 + hex_digit_value(d.last())
    }
}

pub open spec fn pow16(n: nat) -> nat
    decreases n,
{
    if n == 0 {
        1
    } else {
        16 * pow16((n - 1) as nat)
    }
}

/// The session id written by exactly 32 hexadecimal digits, in either case.
pub open spec fn session_id_digits(text: Seq<u8>) -> Option<SessionId> {
    if text.len() == SESSION_ID_DIGITS && forall|i: int| 0 <= i < text.len() ==> is_hex_digit(#[trigger] text[i]) {
        Some(SessionId { value: hex_number(text) as u128 })
    } else {
        None
    }
}

/// Whether `text` has the hyphens of the UUID layout 8-4-4-4-12.
pub open spec fn uuid_hyphens(text: Seq<u8>) -> bool {
    text.len() == 36 && text[8] == 45u8 && text[13] == 45u8 && text[18] == 45u8 && text[23] == 45u8
}

/// The digits of a text in the UUID layout: the text without its four hyphens.
pub open spec fn uuid_digits(text: Seq<u8>) -> Seq<u8> {
    text.subrange(0, 8) + text.subrange(9, 13) + text.subrange(14, 18) + text.subrange(19, 23) + text.subrange(24, 36)
}

/// The session id written by `text`: 32 hexadecimal digits in either case, bare or
/// in the hyphenated UUID layout 8-4-4-4-12.
pub open spec fn session_id_text(text: Seq<u8>) -> Option<SessionId> {
    if uuid_hyphens(text) {
        session_id_digits(uuid_digits(text))
    } else {
        session_id_digits(text)
    }
}

proof fn lemma_hex_number_bound(d: Seq<u8>)
    requires
        forall|i: int| 0 <= i < d.len() ==> is_hex_digit(#[trigger] d[i]),
    ensures
        hex_number(d) < pow16(d.len()),
    decreases d.len(),
{
    if d.len() > 0 {
        let p = d.drop_last();
        assert forall|i: int| 0 <= i < p.len() implies is_hex_digit(#[trigger] p[i]) by {
            assert(p[i] == d[i]);
        }
        lemma_hex_number_bound(p);
        assert(is_hex_digit(d[d.len() - 1]));
        let a = hex_number(p);
        let b = pow16(p.len());
        let v = hex_digit_value(d.last());
        assert(a * 16 + v < 16 * b) by (nonlinear_arith)
            requires
                a < b,
                v < 16,
        ;
    }
}

fn hex_digit(c: u8) -> (r: Option<u8>)
    ensures
        match r {
            Some(v) => is_hex_digit(c) && v as nat == hex_digit_value(c),
            None => !is_hex_digit(c),
        },
{
    if 48 <= c && c <= 57 {
        Some(c - 48)
    } else if 97 <= c && c <= 102 {
        Some(c - 87)
    } else if 65 <= c && c <= 70 {
        Some(c - 55)
    } else {
        None
    }
}

fn push_range(out: &mut Vec<u8>, b: &[u8], from: usize, to: usize)
    requires
        from <= to <= b@.len(),
    ensures
        final(out)@ == old(out)@ + b@.subrange(from as int, to as int),
{
    let mut i = from;
    while i < to
        invariant
            from <= i <= to <= b@.len(),
            out@ == old(out)@ + b@.subrange(from as int, i as int),
        decreases to - i,
    {
        out.push(b[i]);
        i = i + 1;
        assert(out@ =~= old(out)@ + b@.subrange(from as int, i as int));
    }
}

impl SessionId {
    /// Reads a session id from its text form: 32 hexadecimal digits, bare or in
    /// the hyphenated UUID layout.
    pub fn from_str2(text: &str) -> (r: Option<SessionId>)
        ensures
            r == session_id_text(text.spec_bytes()),
    {
        let b = text.as_bytes();
        if b.len() == 36 && b[8] == 45u8 && b[13] == 45u8 && b[18] == 45u8 && b[23] == 45u8 {
            let mut digits: Vec<u8> = Vec::new();
            push_range(&mut digits, b, 0, 8);
            push_range(&mut digits, b, 9, 13);
            push_range(&mut digits, b, 14, 18);
            push_range(&mut digits, b, 19, 23);
            push_range(&mut digits, b, 24, 36);
            assert(digits@ =~= uuid_digits(b@));
            Self::from_digits(digits.as_slice())
        } else {
            Self::from_digits(b)
        }
    }

    fn from_digits(b: &[u8]) -> (r: Option<SessionId>)
        ensures
            r == session_id_digits(b@),
    {
        if b.len() != SESSION_ID_DIGITS {
            return None;
        }
        let mut acc: u128 = 0;
        let mut i: usize = 0;
        while i < b.len()
            invariant
                b@.len() == SESSION_ID_DIGITS,
                0 <= i <= b@.len(),
                forall|j: int| 0 <= j < i ==> is_hex_digit(#[trigger] b@[j]),
                acc as nat == hex_number(b@.subrange(0, i as int)),
            decreases b@.len() - i,
        {
            let c = b[i];
            match hex_digit(c) {
                None => {
                    return None;
                },
                Some(v) => {
                    let ghost d = b@.subrange(0, i as int + 1);
                    proof {
                        assert(d.drop_last() =~= b@.subrange(0, i as int));
                        assert forall|j: int| 0 <= j < d.len() implies is_hex_digit(#[trigger] d[j]) by {
                            assert(d[j] == b@[j]);
                        }
                        lemma_hex_number_bound(d);
                        reveal_with_fuel(pow16, 33);
                        assert(pow16(32) == 0x1_0000_0000_0000_0000_0000_0000_0000_0000nat);
                        lemma_pow16_mono(d.len(), 32);
                    }
                    acc = acc * 16 + v as u128;
                    i = i + 1;
                },
            }
        }
        proof {
            assert(b@.subrange(0, i as int) =~= b@);
        }
        Some(SessionId { value: acc })
    }
}

proof fn lemma_pow16_mono(a: nat, b: nat)
    requires
        a <= b,
    ensures
        pow16(a) <= pow16(b),
    decreases b,
{
    if a < b {
        lemma_pow16_mono(a, (b - 1) as nat);
        assert(pow16(b) == 16 * pow16((b - 1) as nat));
    }
}

} // verus!
