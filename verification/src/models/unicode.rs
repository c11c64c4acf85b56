//! Records of the character reference data.

use vstd::prelude::*;

verus! {

/// One character of the reference data: its code point, written in
/// hexadecimal, its name and the block it belongs to.
#[derive(Debug, PartialEq, Eq)]
pub struct UnicodeChar {
    pub codepoint: String,
    pub name: String,
    pub block: String,
}

/// A `UnicodeChar` as plain text columns.
pub struct CharRow {
    pub codepoint: Seq<char>,
    pub name: Seq<char>,
    pub block: Seq<char>,
}

impl View for UnicodeChar {
    type V = CharRow;

    open spec fn view(&self) -> CharRow {
        CharRow { codepoint: self.codepoint@, name: self.name@, block: self.block@ }
    }
}

/// One block of the reference data: its name and the first and last code
/// point of its range, written in hexadecimal.
#[derive(Debug, PartialEq, Eq)]
pub struct UnicodeBlock {
    pub name: String,
    pub range_start: String,
    pub range_end: String,
}

/// A `UnicodeBlock` as plain text columns.
pub struct BlockRow {
    pub name: Seq<char>,
    pub range_start: Seq<char>,
    pub range_end: Seq<char>,
}

impl View for UnicodeBlock {
    type V = BlockRow;

    open spec fn view(&self) -> BlockRow {
        BlockRow { name: self.name@, range_start: self.range_start@, range_end: self.range_end@ }
    }
}

/// What an inspection reports of one character: the character itself, its
/// code point, name and block, and its encodings.
#[derive(Debug, PartialEq, Eq)]
pub struct UnicodeResult {
    pub char: String,
    pub codepoint: String,
    pub name: String,
    pub utf8: String,
    pub utf16: String,
    pub utf16_le: String,
    pub block: String,
}

} // verus!
