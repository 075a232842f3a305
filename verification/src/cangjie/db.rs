//! Plain values exchanged with the libcangjie2 database.
use vstd::prelude::*;
use crate::text::{decimal, decimal_digits};

verus! {

/// Cangjie table generation.
#[derive(Debug, Clone, Copy, PartialEq, Eq, Structural)]
pub enum Version {
    V3,
    V5,
}

impl Version {
    /// libcangjie's `CangjieVersion` value.
    pub fn raw(self) -> (r: u32)
        ensures
            r == (match self {
                Version::V3 => 3u32,
                Version::V5 => 5u32,
            }),
    {
        match self {
            Version::V3 => 3,
            Version::V5 => 5,
        }
    }
}

/// Character-set filters, libcangjie's `CANGJIE_FILTER_*` bits. Combine with `|`.
#[derive(Debug, Clone, Copy, PartialEq, Eq, Structural)]
pub struct Filter(u32);

impl Filter {
    /// Big5, the everyday Traditional Chinese set.
    pub fn big5() -> (f: Filter)
        ensures
            f.spec_bits() == 1,
    {
        Filter(1)
    }

    /// HKSCS, Hong Kong characters outside Big5.
    pub fn hkscs() -> (f: Filter)
        ensures
            f.spec_bits() == 2,
    {
        Filter(2)
    }

    /// Full-width punctuation.
    pub fn punctuation() -> (f: Filter)
        ensures
            f.spec_bits() == 4,
    {
        Filter(4)
    }

    /// Every Chinese character in the table.
    pub fn chinese() -> (f: Filter)
        ensures
            f.spec_bits() == 8,
    {
        Filter(8)
    }

    /// Zhuyin symbols.
    pub fn zhuyin() -> (f: Filter)
        ensures
            f.spec_bits() == 16,
    {
        Filter(16)
    }

    /// Japanese kanji.
    pub fn kanji() -> (f: Filter)
        ensures
            f.spec_bits() == 32,
    {
        Filter(32)
    }

    /// Katakana.
    pub fn katakana() -> (f: Filter)
        ensures
            f.spec_bits() == 64,
    {
        Filter(64)
    }

    /// Hiragana.
    pub fn hiragana() -> (f: Filter)
        ensures
            f.spec_bits() == 128,
    {
        Filter(128)
    }

    /// Other symbols.
    pub fn symbols() -> (f: Filter)
        ensures
            f.spec_bits() == 256,
    {
        Filter(256)
    }

    /// Big5 + HKSCS: the usual set for Hong Kong users.
    pub fn hong_kong() -> (f: Filter)
        ensures
            f.spec_bits() == 3,
    {
        Filter(3)
    }

    /// The bits of this filter.
    pub closed spec fn spec_bits(self) -> u32 {
        self.0
    }

    /// The raw bit mask handed to libcangjie.
    pub fn bits(self) -> (r: u32)
        ensures
            r == self.spec_bits(),
    {
        self.0
    }

    /// The filter admitting both sets.
    pub fn union(self, rhs: Filter) -> (r: Filter)
        ensures
            r.spec_bits() == self.spec_bits() | rhs.spec_bits(),
    {
        Filter(self.0 | rhs.0)
    }
}

impl std::ops::BitOr for Filter {
    type Output = Filter;

    fn bitor(self, rhs: Filter) -> (r: Filter)
        ensures
            r.spec_bits() == self.spec_bits() | rhs.spec_bits(),
    {
        self.union(rhs)
    }
}

impl vstd::std_specs::ops::BitOrSpecImpl for Filter {
    open spec fn obeys_bitor_spec() -> bool {
        true
    }

    open spec fn bitor_req(self, rhs: Filter) -> bool {
        true
    }

    closed spec fn bitor_spec(self, rhs: Filter) -> Filter {
        Filter(self.0 | rhs.0)
    }
}

/// `a | b` admits the sets of both: its bits are the union of theirs.
pub proof fn lemma_bitor_bits(a: Filter, b: Filter)
    ensures
        vstd::std_specs::ops::BitOrSpec::bitor_spec(a, b).spec_bits() == a.spec_bits() | b.spec_bits(),
{
}

/// Errors libcangjie reports.
#[derive(Debug, Clone, PartialEq, Eq, Structural)]
pub enum CangjieError {
    DbOpen,
    DbError,
    NoMem,
    Invalid,
    Unknown(i32),
}

/// The meaning of a libcangjie return code: `CANGJIE_OK` (0) and
/// `CANGJIE_NOCHARS` (1) are success, 2 to 5 are the known errors.
pub open spec fn code_meaning(code: i32) -> Result<(), CangjieError> {
    if code == 0 || code == 1 {
        Ok(())
    } else if code == 2 {
        Err(CangjieError::DbOpen)
    } else if code == 3 {
        Err(CangjieError::DbError)
    } else if code == 4 {
        Err(CangjieError::NoMem)
    } else if code == 5 {
        Err(CangjieError::Invalid)
    } else {
        Err(CangjieError::Unknown(code))
    }
}


/// Decimal notation of a signed number.
pub open spec fn signed_digits(c: i32) -> Seq<char> {
    if c < 0 {
        seq!['-'] + decimal_digits((-c) as nat)
    } else {
        decimal_digits(c as nat)
    }
}

impl CangjieError {
    /// The error message.
    pub fn describe(&self) -> (s: String)
        ensures
            s@ == (match self {
                CangjieError::DbOpen => "could not open the Cangjie database"@,
                CangjieError::DbError => "Cangjie database query failed"@,
                CangjieError::NoMem => "libcangjie ran out of memory"@,
                CangjieError::Invalid => "invalid input passed to libcangjie"@,
                CangjieError::Unknown(c) => "libcangjie returned unknown error "@ + signed_digits(*c),
            }),
    {
        match self {
            CangjieError::DbOpen => "could not open the Cangjie database".to_owned(),
            CangjieError::DbError => "Cangjie database query failed".to_owned(),
            CangjieError::NoMem => "libcangjie ran out of memory".to_owned(),
            CangjieError::Invalid => "invalid input passed to libcangjie".to_owned(),
            CangjieError::Unknown(c) => {
                let mut s = "libcangjie returned unknown error ".to_owned();
                if *c < 0 {
                    s.append("-");
                    proof {
                        reveal_strlit("-");
                    }
                    let m: i128 = -(*c as i128);
                    s.append(decimal(m as u128).as_str());
                } else {
                    s.append(decimal(*c as u128).as_str());
                }
                s
            },
        }
    }
}

/// Maps a libcangjie return code to a `Result`.
pub fn check(code: i32) -> (r: Result<(), CangjieError>)
    ensures
        r == code_meaning(code),
{
    match code {
        0 | 1 => Ok(()),
        2 => Err(CangjieError::DbOpen),
        3 => Err(CangjieError::DbError),
        4 => Err(CangjieError::NoMem),
        5 => Err(CangjieError::Invalid),
        _ => Err(CangjieError::Unknown(code)),
    }
}

/// A database row as character sequences.
pub struct CharView {
    pub chchar: Seq<char>,
    pub code: Seq<char>,
    pub frequency: u32,
}

/// One row of a libcangjie lookup.
#[derive(Debug, Clone, PartialEq, Eq)]
pub struct Char {
    pub chchar: String,
    pub code: String,
    pub frequency: u32,
}

impl View for Char {
    type V = CharView;

    open spec fn view(&self) -> CharView {
        CharView { chchar: self.chchar@, code: self.code@, frequency: self.frequency }
    }
}

impl Char {
    /// A copy of this row.
    pub fn duplicate(&self) -> (c: Char)
        ensures
            c@ == self@,
    {
        Char { chchar: self.chchar.clone(), code: self.code.clone(), frequency: self.frequency }
    }
}

/// The views of a list of rows.
pub open spec fn chars_view(s: Seq<Char>) -> Seq<CharView> {
    s.map_values(|c: Char| c@)
}

/// A lookup result as character sequences.
pub open spec fn lookup_view(r: Result<Vec<Char>, CangjieError>) -> Result<Seq<CharView>, CangjieError> {
    match r {
        Ok(v) => Ok(chars_view(v@)),
        Err(e) => Err(e),
    }
}

} // verus!
