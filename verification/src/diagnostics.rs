//! The error-diagnostics service.
//!
//! A host failure is reported as a numeric code.  A code with its designated
//! high bit set is an application-defined failure and renders as a fixed
//! textual template embedding the raw code, with no host call.  Any other
//! code is a system failure whose text must be looked up in the host's
//! message tables; the lookup's outcome arrives here as an optional buffer
//! of UTF-16 code units (`None` when the host produced no characters or no
//! buffer), and is decoded with bare carriage returns and line feeds
//! flattened to single spaces so the message fits on one line.

use vstd::prelude::*;

use crate::utf16::char_from_u32;
use crate::utf16::decode_units;
use crate::utf16::REPLACEMENT_CHARACTER;
use vstd::string::StrSliceExecFns;
use vstd::string::StringExecFns;

verus! {

/// The bit that marks a code as an application-defined failure.
pub const APPLICATION_ERROR_BIT: u32 = 0x2000_0000;

/// A numeric failure code reported by the host.
#[derive(Debug, Clone, Copy, PartialEq, Eq, Structural)]
pub struct Win32Error(pub u32);

/// The message-table lookup itself failed: the host produced no characters
/// or no buffer for the code.  Distinct from the original failure code.
#[derive(Debug, Clone, Copy, PartialEq, Eq, Structural)]
pub struct FormatFailure;

/// The decimal digit characters of a number, most significant first.
pub open spec fn decimal_digits(n: int) -> Seq<char>
    recommends
        0 <= n,
    decreases n,
{
    if n < 10 {
        seq![decimal_digit(n)]
    } else {
        decimal_digits(n / 10) + seq![decimal_digit(n % 10)]
    }
}

/// The character for one decimal digit.
pub open spec fn decimal_digit(d: int) -> char
    recommends
        0 <= d <= 9,
{
    if d == 0 {
        '0'
    } else if d == 1 {
        '1'
    } else if d == 2 {
        '2'
    } else if d == 3 {
        '3'
    } else if d == 4 {
        '4'
    } else if d == 5 {
        '5'
    } else if d == 6 {
        '6'
    } else if d == 7 {
        '7'
    } else if d == 8 {
        '8'
    } else {
        '9'
    }
}

/// The fixed template for an application-defined failure, embedding the code.
pub open spec fn application_error_text(code: u32) -> Seq<char> {
    "Win32ApplicationError("@ + decimal_digits(code as int) + ")"@
}

/// A bare carriage return or line feed flattens to one space; every other
/// character stands as it is.
pub open spec fn flattened(c: char) -> char {
    if c == '\r' || c == '\n' {
        ' '
    } else {
        c
    }
}

/// The display text decoded from a host message buffer: its UTF-16 units
/// decoded with replacement, then flattened onto one line.
pub open spec fn rendered_message(units: Seq<u16>) -> Seq<char> {
    decode_units(units).map_values(|c: char| flattened(c))
}

/// Relies on `String::push`: appends the given character to the end of the
/// string.
#[verifier::external_body]
pub(crate) fn push_char(s: &mut String, c: char)
    ensures
        final(s)@ == old(s)@.push(c),
{
    s.push(c);
}

fn digit_char(d: u32) -> (c: char)
    requires
        d < 10,
    ensures
        c == decimal_digit(d as int),
{
    if d == 0 {
        '0'
    } else if d == 1 {
        '1'
    } else if d == 2 {
        '2'
    } else if d == 3 {
        '3'
    } else if d == 4 {
        '4'
    } else if d == 5 {
        '5'
    } else if d == 6 {
        '6'
    } else if d == 7 {
        '7'
    } else if d == 8 {
        '8'
    } else {
        '9'
    }
}

/// The decimal rendering of a number.
pub fn decimal_string(n: u32) -> (r: String)
    ensures
        r@ == decimal_digits(n as int),
    decreases n,
{
    if n < 10 {
        let mut s = String::new();
        push_char(&mut s, digit_char(n));
        proof {
            assert(s@ =~= decimal_digits(n as int));
        }
        s
    } else {
        let mut s = decimal_string(n / 10);
        push_char(&mut s, digit_char(n % 10));
        proof {
            assert(s@ =~= decimal_digits(n as int));
        }
        s
    }
}

/// Decode a host message buffer into one-line display text.  Decoding never
/// aborts: each undecodable unit becomes one replacement character, and raw
/// carriage returns and line feeds become single spaces.
pub fn render_system_message(units: &[u16]) -> (r: String)
    ensures
        r@ == rendered_message(units@),
{
    let ghost all = units@;
    let mut out = String::new();
    let mut i: usize = 0;
    proof {
        assert(all.skip(0) =~= all);
        assert(out@ + rendered_message(all.skip(0)) =~= rendered_message(all));
    }
    while i < units.len()
        invariant
            i <= all.len(),
            all == units@,
            out@ + rendered_message(all.skip(i as int)) == rendered_message(all),
        decreases all.len() - i,
    {
        let ghost suffix = all.skip(i as int);
        proof {
            assert(suffix[0] == all[i as int]);
            assert(suffix.len() == all.len() - i);
        }
        let u = units[i];
        if u < 0xD800 || u >= 0xE000 {
            let c = match char_from_u32(u as u32) {
                Some(c) => c,
                None => REPLACEMENT_CHARACTER,
            };
            let c = if c == '\r' || c == '\n' {
                ' '
            } else {
                c
            };
            push_char(&mut out, c);
            proof {
                assert(suffix.skip(1) =~= all.skip(i + 1));
                lemma_rendered_unfold_one(suffix, flattened((u as u32) as char));
                assert(out@ + rendered_message(all.skip(i + 1)) =~= rendered_message(all));
            }
            i = i + 1;
        } else {
            let mut paired = false;
            if u < 0xDC00 && i + 1 < units.len() {
                let next = units[i + 1];
                if 0xDC00 <= next && next < 0xE000 {
                    proof {
                        assert(suffix[1] == all[i + 1]);
                    }
                    let scalar = 0x10000 + ((u as u32) - 0xD800) * 0x400 + ((next as u32)
                        - 0xDC00);
                    let c = match char_from_u32(scalar) {
                        Some(c) => c,
                        None => REPLACEMENT_CHARACTER,
                    };
                    push_char(&mut out, c);
                    proof {
                        assert(suffix.skip(2) =~= all.skip(i + 2));
                        assert(flattened(c) == c);
                        lemma_rendered_unfold_pair(suffix);
                        assert(out@ + rendered_message(all.skip(i + 2)) =~= rendered_message(all));
                    }
                    paired = true;
                    i = i + 2;
                }
            }
            if !paired {
                push_char(&mut out, REPLACEMENT_CHARACTER);
                proof {
                    assert(suffix.skip(1) =~= all.skip(i + 1));
                    assert(flattened(REPLACEMENT_CHARACTER) == REPLACEMENT_CHARACTER);
                    lemma_rendered_unfold_one(suffix, REPLACEMENT_CHARACTER);
                    assert(out@ + rendered_message(all.skip(i + 1)) =~= rendered_message(all));
                }
                i = i + 1;
            }
        }
    }
    proof {
        assert(all.skip(all.len() as int) =~= Seq::<u16>::empty());
        assert(decode_units(Seq::<u16>::empty()) =~= Seq::<char>::empty());
        assert(rendered_message(Seq::<u16>::empty()) =~= Seq::<char>::empty());
        assert(out@ =~= rendered_message(all));
    }
    out
}

/// Unfolding step: the suffix starts with a unit that decodes alone, and its
/// rendering is that character followed by the rendering of the rest.
proof fn lemma_rendered_unfold_one(s: Seq<u16>, c: char)
    requires
        s.len() > 0,
        !(is_pair_at_front(s)),
        c == (if crate::utf16::is_bmp_unit(s[0]) {
            flattened((s[0] as u32) as char)
        } else {
            REPLACEMENT_CHARACTER
        }),
    ensures
        rendered_message(s) == seq![c] + rendered_message(s.skip(1)),
{
    assert(rendered_message(s) =~= seq![c] + rendered_message(s.skip(1)));
}

/// The front of the sequence is a high surrogate directly followed by a low
/// surrogate.
pub open spec fn is_pair_at_front(s: Seq<u16>) -> bool {
    s.len() >= 2 && crate::utf16::is_high_surrogate(s[0]) && crate::utf16::is_low_surrogate(s[1])
}

/// Unfolding step: the suffix starts with a surrogate pair, whose character
/// is never a carriage return or line feed, so it stands unflattened.
proof fn lemma_rendered_unfold_pair(s: Seq<u16>)
    requires
        s.len() >= 2,
        !crate::utf16::is_bmp_unit(s[0]),
        is_pair_at_front(s),
    ensures
        rendered_message(s) == seq![
            flattened(crate::utf16::combined_scalar(s[0], s[1]) as char),
        ] + rendered_message(s.skip(2)),
{
    assert(rendered_message(s) =~= seq![
        flattened(crate::utf16::combined_scalar(s[0], s[1]) as char),
    ] + rendered_message(s.skip(2)));
}

/// The rendered text of a host message holds no raw carriage return or line
/// feed: each was flattened to a single space.
pub proof fn lemma_rendered_no_line_breaks(units: Seq<u16>)
    ensures
        forall|i: int|
            0 <= i < rendered_message(units).len() ==> rendered_message(units)[i] != '\r'
                && rendered_message(units)[i] != '\n',
{
    assert forall|i: int|
        0 <= i < rendered_message(units).len() implies rendered_message(units)[i] != '\r'
        && rendered_message(units)[i] != '\n' by {
        assert(rendered_message(units)[i] == flattened(decode_units(units)[i]));
    }
}

impl Win32Error {
    /// The code names an application-defined failure: its designated high
    /// bit is set, and no host lookup is needed to describe it.
    pub open spec fn is_application_error(self) -> bool {
        self.0 & APPLICATION_ERROR_BIT != 0
    }

    /// Whether describing this code requires the host's message tables.
    pub fn needs_host_lookup(&self) -> (b: bool)
        ensures
            b == !self.is_application_error(),
    {
        self.0 & APPLICATION_ERROR_BIT == 0
    }

    /// The fixed template text for an application-defined failure.  It is
    /// built locally, embedding the raw code; no host call is involved.
    pub fn application_text(&self) -> (r: String)
        ensures
            r@ == application_error_text(self.0),
    {
        let mut s = String::from_str("Win32ApplicationError(");
        let digits = decimal_string(self.0);
        s.append(digits.as_str());
        s.append(")");
        proof {
            assert(s@ =~= application_error_text(self.0));
        }
        s
    }

    /// The display text for this code.  `host_text` is the outcome of the
    /// host message-table lookup, made only for a system code: `None` when
    /// the host produced no characters or no buffer, which is a formatting
    /// failure of its own.  An application-defined code renders from the
    /// fixed template whatever `host_text` holds, in particular when no
    /// lookup was made at all.
    pub fn display_text(&self, host_text: Option<&[u16]>) -> (r: Result<String, FormatFailure>)
        ensures
            self.is_application_error() ==> r is Ok && r->Ok_0@ == application_error_text(self.0),
            !self.is_application_error() && host_text is Some ==> r is Ok && r->Ok_0@
                == rendered_message(host_text->0@),
            !self.is_application_error() && host_text is None ==> r is Err,
    {
        if !self.needs_host_lookup() {
            Ok(self.application_text())
        } else {
            match host_text {
                Some(units) => Ok(render_system_message(units)),
                None => Err(FormatFailure),
            }
        }
    }
}

} // verus!
