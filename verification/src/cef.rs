use vstd::prelude::*;

verus! {

/// The embedded Chromium engine, once loaded.
#[derive(Clone, Copy, Debug, PartialEq, Eq, Structural)]
pub struct CefEngine;

/// The UTF-16 code units of one character.
pub open spec fn utf16_of_char(c: char) -> Seq<u16> {
    let v = c as u32;
    if v < 0x10000 {
        seq![v as u16]
    } else {
        seq![(0xD800 + (v - 0x10000) / 0x400) as u16, (0xDC00 + (v - 0x10000) % 0x400) as u16]
    }
}

/// The UTF-16 encoding of a string.
pub open spec fn encode_utf16(s: Seq<char>) -> Seq<u16>
    decreases s.len(),
{
    if s.len() == 0 {
        seq![]
    } else {
        utf16_of_char(s[0]) + encode_utf16(s.drop_first())
    }
}

/// The UTF-16 code units of `s`, or nothing if `s` holds a NUL character.
///
/// Calls `widestring::U16CString::from_str`, which encodes `s` with
/// `str::encode_utf16` and fails exactly when a code unit is zero, which
/// happens exactly for the NUL character; `into_vec` gives the units without
/// the terminator.
#[verifier::external_body]
fn utf16_units(s: &str) -> (r: Option<Vec<u16>>)
    ensures
        r is Some <==> !s@.contains('\0'),
        r matches Some(v) ==> v@ == encode_utf16(s@),
{
    match widestring::U16CString::from_str(s) {
        Ok(w) => Some(w.into_vec()),
        Err(_) => None,
    }
}

/// A string as the engine takes it: its length in UTF-16 code units, and the
/// units themselves.
#[derive(Debug)]
pub struct CefString {
    pub length: u64,
    pub units: Vec<u16>,
}

/// The engine's form of `s`; `s` must not hold a NUL character.
pub fn new_cef_string(s: &str) -> (r: CefString)
    requires
        !s@.contains('\0'),
    ensures
        r.units@ == encode_utf16(s@),
        r.length == r.units@.len(),
{
    match utf16_units(s) {
        Some(units) => {
            let length = units.len() as u64;
            CefString { length, units }
        },
        None => CefString { length: 0, units: Vec::new() },
    }
}

} // verus!
