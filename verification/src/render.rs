//! Diagnostic rendering of a [`Volume`]: total for every byte content of the
//! label, with the address and extent as fixed-width hexadecimal.

use vstd::prelude::*;
use vstd::string::StringExecFns;
use vstd::utf8::{decode_utf8, valid_utf8};
use crate::fat::Volume;

verus! {

/// The sixteen hexadecimal digits, lower case.
pub open spec fn spec_hex_digit(n: u32) -> char {
    if n == 0 {
        '0'
    } else if n == 1 {
        '1'
    } else if n == 2 {
        '2'
    } else if n == 3 {
        '3'
    } else if n == 4 {
        '4'
    } else if n == 5 {
        '5'
    } else if n == 6 {
        '6'
    } else if n == 7 {
        '7'
    } else if n == 8 {
        '8'
    } else if n == 9 {
        '9'
    } else if n == 10 {
        'a'
    } else if n == 11 {
        'b'
    } else if n == 12 {
        'c'
    } else if n == 13 {
        'd'
    } else if n == 14 {
        'e'
    } else {
        'f'
    }
}

/// Eight hexadecimal digits, most significant nibble first, zero padded.
pub open spec fn spec_hex8(x: u32) -> Seq<char> {
    seq![
        spec_hex_digit((x >> 28) & 0xf),
        spec_hex_digit((x >> 24) & 0xf),
        spec_hex_digit((x >> 20) & 0xf),
        spec_hex_digit((x >> 16) & 0xf),
        spec_hex_digit((x >> 12) & 0xf),
        spec_hex_digit((x >> 8) & 0xf),
        spec_hex_digit((x >> 4) & 0xf),
        spec_hex_digit(x & 0xf),
    ]
}

/// How the label is reported: the decoded text when the bytes are valid
/// UTF-8, otherwise a fixed decode-failure marker in place of the text.
pub open spec fn spec_name_text(name: Seq<u8>) -> Seq<char> {
    if valid_utf8(name) {
        "Ok(\""@ + decode_utf8(name) + "\")"@
    } else {
        "Err(invalid utf-8)"@
    }
}

/// The whole diagnostic line for a volume.
pub open spec fn spec_render(v: Volume) -> Seq<char> {
    "Volume(name="@ + spec_name_text(v.name@) + ", lba_start=0x"@ + spec_hex8(v.lba_start.0)
        + ", num_blocks=0x"@ + spec_hex8(v.num_blocks.0) + ")"@
}

proof fn lemma_nibble_bound(y: u32)
    ensures
        y & 0xf < 16,
{
    assert(y & 0xf < 16) by (bit_vector);
}

/// The single hexadecimal digit for a value below sixteen.
fn hex_digit_str(n: u32) -> (r: &'static str)
    requires
        n < 16,
    ensures
        r@ == seq![spec_hex_digit(n)],
{
    let s: &'static str = if n == 0 {
        "0"
    } else if n == 1 {
        "1"
    } else if n == 2 {
        "2"
    } else if n == 3 {
        "3"
    } else if n == 4 {
        "4"
    } else if n == 5 {
        "5"
    } else if n == 6 {
        "6"
    } else if n == 7 {
        "7"
    } else if n == 8 {
        "8"
    } else if n == 9 {
        "9"
    } else if n == 10 {
        "a"
    } else if n == 11 {
        "b"
    } else if n == 12 {
        "c"
    } else if n == 13 {
        "d"
    } else if n == 14 {
        "e"
    } else {
        "f"
    };
    proof {
        reveal_strlit("0");
        reveal_strlit("1");
        reveal_strlit("2");
        reveal_strlit("3");
        reveal_strlit("4");
        reveal_strlit("5");
        reveal_strlit("6");
        reveal_strlit("7");
        reveal_strlit("8");
        reveal_strlit("9");
        reveal_strlit("a");
        reveal_strlit("b");
        reveal_strlit("c");
        reveal_strlit("d");
        reveal_strlit("e");
        reveal_strlit("f");
        assert(s@ =~= seq![spec_hex_digit(n)]);
    }
    s
}

/// Append the eight-digit hexadecimal form of `x`.
fn append_hex8(s: &mut String, x: u32)
    ensures
        final(s)@ == old(s)@ + spec_hex8(x),
{
    proof {
        lemma_nibble_bound(x >> 28);
        lemma_nibble_bound(x >> 24);
        lemma_nibble_bound(x >> 20);
        lemma_nibble_bound(x >> 16);
        lemma_nibble_bound(x >> 12);
        lemma_nibble_bound(x >> 8);
        lemma_nibble_bound(x >> 4);
        lemma_nibble_bound(x);
    }
    s.append(hex_digit_str((x >> 28) & 0xf));
    s.append(hex_digit_str((x >> 24) & 0xf));
    s.append(hex_digit_str((x >> 20) & 0xf));
    s.append(hex_digit_str((x >> 16) & 0xf));
    s.append(hex_digit_str((x >> 12) & 0xf));
    s.append(hex_digit_str((x >> 8) & 0xf));
    s.append(hex_digit_str((x >> 4) & 0xf));
    s.append(hex_digit_str(x & 0xf));
    proof {
        assert(s@ =~= old(s)@ + spec_hex8(x));
    }
}

/// Relies on `core::str::from_utf8`: it succeeds exactly on valid UTF-8 and
/// yields the characters those bytes encode.
#[verifier::external_body]
fn utf8_to_string(bytes: &Vec<u8>) -> (r: Option<String>)
    ensures
        r is Some <==> valid_utf8(bytes@),
        r matches Some(s) ==> s@ == decode_utf8(bytes@),
{
    match core::str::from_utf8(bytes.as_slice()) {
        Ok(s) => Some(s.to_owned()),
        Err(_) => None,
    }
}

impl Volume {
    /// The diagnostic line for this volume. Rendering never fails: a label
    /// that is not valid text is reported as a decode failure, and the start
    /// address and extent are printed as eight-digit hexadecimal.
    pub fn render(&self) -> (r: String)
        ensures
            r@ == spec_render(*self),
    {
        let mut s = String::new();
        s.append("Volume(name=");
        match utf8_to_string(&self.name) {
            Some(text) => {
                s.append("Ok(\"");
                s.append(text.as_str());
                s.append("\")");
            },
            None => {
                s.append("Err(invalid utf-8)");
            },
        }
        s.append(", lba_start=0x");
        append_hex8(&mut s, self.lba_start.0);
        s.append(", num_blocks=0x");
        append_hex8(&mut s, self.num_blocks.0);
        s.append(")");
        proof {
            assert(s@ =~= spec_render(*self));
        }
        s
    }
}

} // verus!
