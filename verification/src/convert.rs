//! Conversion of a byte sequence into the emitted key-code sequence.
//!
//! A single boolean shift state runs across one conversion. A shift code is
//! emitted at every transition edge — when a shift-requiring code follows a
//! plain one or the other way round — and once more at the end if the final
//! run was shifted. The first unclassifiable byte aborts the conversion and
//! nothing of the partial output is handed back.

use vstd::prelude::*;
use vstd::string::StringSliceAdditionalSpecFns;
use crate::classify::ErrorCodes;
use crate::classify::classify;
use crate::classify::classify_byte;
use crate::classify::supported_byte;
use crate::classify::ASCII_LIMIT;
use crate::classify::ASCII_MIN_AND_CASE_OFFSET;
use crate::classify::lemma_classification_total;

verus! {

/// A classification failure, together with the byte that caused it.
#[derive(Debug, PartialEq, Eq, Structural)]
pub struct KeyError {
    /// The byte being processed when the failure occurred.
    pub byte: u8,
    /// Which kind of failure occurred.
    pub error_code: ErrorCodes,
}

/// The key code of the shift key.
pub const VK_SHIFT: u8 = 0x10;

/// The key codes emitted for the suffix of `s` that starts at `i`, entered
/// with the given shift state, or the error for the first bad byte of that
/// suffix. The trailing shift release is part of the base case.
pub open spec fn emitted_from(s: Seq<u8>, i: int, shifting: bool) -> Result<Seq<u8>, KeyError>
    decreases s.len() - i,
{
    if i < 0 || i >= s.len() {
        Ok(if shifting {
            seq![VK_SHIFT]
        } else {
            Seq::<u8>::empty()
        })
    } else {
        match classify(s[i]) {
            Err(code) => Err(KeyError { byte: s[i], error_code: code }),
            Ok(pair) => match emitted_from(s, i + 1, pair.1) {
                Err(e) => Err(e),
                Ok(rest) => Ok(
                    if pair.1 != shifting {
                        seq![VK_SHIFT, pair.0] + rest
                    } else {
                        seq![pair.0] + rest
                    },
                ),
            },
        }
    }
}

/// The whole conversion: every conversion starts with the shift key up.
pub open spec fn keystroke_seq(s: Seq<u8>) -> Result<Seq<u8>, KeyError> {
    emitted_from(s, 0, false)
}

/// Convert a byte sequence into the key codes that would reproduce it.
pub fn to_keystrokes_bytes(s: &[u8]) -> (r: Result<Vec<u8>, KeyError>)
    ensures
        match r {
            Ok(v) => keystroke_seq(s@) == Ok::<Seq<u8>, KeyError>(v@),
            Err(e) => keystroke_seq(s@) == Err::<Seq<u8>, KeyError>(e),
        },
{
    let n: usize = s.len();
    let mut out: Vec<u8> = Vec::new();
    let mut is_shifting: bool = false;
    let mut i: usize = 0;
    proof {
        if let Ok(rest) = emitted_from(s@, 0, false) {
            assert(Seq::<u8>::empty() + rest =~= rest);
        }
    }
    while i < n
        invariant
            i <= n,
            n == s@.len(),
            match emitted_from(s@, i as int, is_shifting) {
                Ok(rest) => keystroke_seq(s@) == Ok::<Seq<u8>, KeyError>(out@ + rest),
                Err(e) => keystroke_seq(s@) == Err::<Seq<u8>, KeyError>(e),
            },
        decreases n - i,
    {
        let ghost old_shift = is_shifting;
        let ghost old_out = out@;
        let b = s[i];
        match classify_byte(b) {
            Err(code) => {
                return Err(KeyError { byte: b, error_code: code });
            },
            Ok((key, needs_shift)) => {
                if needs_shift != is_shifting {
                    out.push(VK_SHIFT);
                    is_shifting = needs_shift;
                }
                out.push(key);
                proof {
                    let prefix: Seq<u8> = if needs_shift != old_shift {
                        seq![VK_SHIFT, key]
                    } else {
                        seq![key]
                    };
                    assert(out@ =~= old_out + prefix);
                    if let Ok(rest) = emitted_from(s@, i as int + 1, needs_shift) {
                        assert((old_out + prefix) + rest =~= old_out + (prefix + rest));
                    }
                }
            },
        }
        i = i + 1;
    }
    proof {
        if is_shifting {
            assert(out@ + seq![VK_SHIFT] =~= out@.push(VK_SHIFT));
        } else {
            assert(out@ + Seq::<u8>::empty() =~= out@);
        }
    }
    if is_shifting {
        out.push(VK_SHIFT);
    }
    Ok(out)
}

/// Convert a text into a fresh vector of key codes.
pub fn to_keystrokes_new(keys: &str) -> (r: Result<Vec<u8>, KeyError>)
    ensures
        match r {
            Ok(v) => keystroke_seq(keys.spec_bytes()) == Ok::<Seq<u8>, KeyError>(v@),
            Err(e) => keystroke_seq(keys.spec_bytes()) == Err::<Seq<u8>, KeyError>(e),
        },
{
    to_keystrokes_bytes(keys.as_bytes())
}

/// Convert a text and append the key codes to an existing vector. On
/// failure the vector is left as it was: the conversion is all-or-nothing.
pub fn to_keystrokes_mut(keys: &str, keystrokes: &mut Vec<u8>) -> (r: Result<(), KeyError>)
    ensures
        match r {
            Ok(_) => keystroke_seq(keys.spec_bytes()) matches Ok(codes) && final(keystrokes)@
                == old(keystrokes)@ + codes,
            Err(e) => keystroke_seq(keys.spec_bytes()) == Err::<Seq<u8>, KeyError>(e)
                && final(keystrokes)@ == old(keystrokes)@,
        },
{
    match to_keystrokes_bytes(keys.as_bytes()) {
        Ok(mut fresh) => {
            keystrokes.append(&mut fresh);
            Ok(())
        },
        Err(e) => Err(e),
    }
}

/// Conversion is a pure function of the input bytes: equal inputs are
/// mapped to equal outcomes, so converting the same text twice yields
/// identical output.
pub proof fn lemma_conversion_deterministic(s: Seq<u8>, t: Seq<u8>)
    requires
        s == t,
    ensures
        keystroke_seq(s) == keystroke_seq(t),
{
}

proof fn lemma_emitted_len(s: Seq<u8>, i: int, shifting: bool)
    requires
        0 <= i <= s.len(),
    ensures
        emitted_from(s, i, shifting) matches Ok(out) ==> s.len() - i <= out.len() <= 2 * (s.len()
            - i) + 1,
    decreases s.len() - i,
{
    if i < s.len() {
        match classify(s[i]) {
            Ok(pair) => {
                lemma_emitted_len(s, i + 1, pair.1);
            },
            Err(_) => {},
        }
    }
}

/// A successful conversion is never shorter than its input: every byte
/// emits its key code, and shift codes only add to that — at most one per
/// byte plus one trailing release.
pub proof fn lemma_output_length(s: Seq<u8>)
    ensures
        keystroke_seq(s) matches Ok(out) ==> s.len() <= out.len() <= 2 * s.len() + 1,
{
    lemma_emitted_len(s, 0, false);
}

/// On a one-byte input, conversion succeeds exactly when the byte is
/// supported; on any other byte it reports that byte, with the failure kind
/// fixed by the range rule.
pub proof fn lemma_convert_single_byte(b: u8)
    ensures
        supported_byte(b) <==> keystroke_seq(seq![b]) is Ok,
        !supported_byte(b) ==> keystroke_seq(seq![b]) == Err::<Seq<u8>, KeyError>(
            KeyError {
                byte: b,
                error_code: if b >= ASCII_LIMIT || b < ASCII_MIN_AND_CASE_OFFSET {
                    ErrorCodes::OutOfRange
                } else {
                    ErrorCodes::NotFound
                },
            },
        ),
{
    lemma_classification_total(b);
    let s: Seq<u8> = seq![b];
    assert(s.len() == 1 && s[0] == b);
    match classify(b) {
        Ok(pair) => {
            assert(emitted_from(s, 1, pair.1) == Ok::<Seq<u8>, KeyError>(
                if pair.1 {
                    seq![VK_SHIFT]
                } else {
                    Seq::<u8>::empty()
                },
            ));
        },
        Err(_) => {},
    }
}

} // verus!
