//! Option words: the flags of the engine, the ones a compilation accepts, and
//! the test that guards them.
//!
//! The engine reads an option bit at one or more of four moments. The flags
//! below that alter what is compiled are supported here; a flag that is only
//! inspected when a subject is searched is not a compile option of this binding.

use vstd::prelude::*;

verus! {

/// Allow `[]` as an empty class. Alters what is compiled.
pub const PCRE2_ALLOW_EMPTY_CLASS: u32 = 0x0000_0001;

/// Alternative handling of `\u`, `\U` and `\x`. Alters what is compiled.
pub const PCRE2_ALT_BSUX: u32 = 0x0000_0002;

/// Compile automatic callouts. Alters what is compiled.
pub const PCRE2_AUTO_CALLOUT: u32 = 0x0000_0004;

/// Match letters without regard to case. Alters what is compiled.
pub const PCRE2_CASELESS: u32 = 0x0000_0008;

/// `$` matches only at the end of the subject. Inspected when searching.
pub const PCRE2_DOLLAR_ENDONLY: u32 = 0x0000_0010;

/// `.` matches a newline too. Alters what is compiled.
pub const PCRE2_DOTALL: u32 = 0x0000_0020;

/// Allow two groups of one name. Alters what is compiled.
pub const PCRE2_DUPNAMES: u32 = 0x0000_0040;

/// Ignore white space and `#` comments in the pattern. Alters what is compiled.
pub const PCRE2_EXTENDED: u32 = 0x0000_0080;

/// A match must begin in the first line. Inspected when searching.
pub const PCRE2_FIRSTLINE: u32 = 0x0000_0100;

/// A reference to an unset group matches the empty string. Alters what is compiled.
pub const PCRE2_MATCH_UNSET_BACKREF: u32 = 0x0000_0200;

/// `^` and `$` match at newlines within the subject. Alters what is compiled.
pub const PCRE2_MULTILINE: u32 = 0x0000_0400;

/// Lock out Unicode properties. Alters what is compiled.
pub const PCRE2_NEVER_UCP: u32 = 0x0000_0800;

/// Lock out UTF. Alters what is compiled.
pub const PCRE2_NEVER_UTF: u32 = 0x0000_1000;

/// Plain parentheses do not capture. Alters what is compiled.
pub const PCRE2_NO_AUTO_CAPTURE: u32 = 0x0000_2000;

/// No automatic possessive quantifiers. Alters what is compiled.
pub const PCRE2_NO_AUTO_POSSESS: u32 = 0x0000_4000;

/// A leading `.*` does not anchor. Alters what is compiled.
pub const PCRE2_NO_DOTSTAR_ANCHOR: u32 = 0x0000_8000;

/// No optimisation of where a match can start. Inspected when searching.
pub const PCRE2_NO_START_OPTIMIZE: u32 = 0x0001_0000;

/// Unicode properties for `\d`, `\w` and the like. Alters what is compiled.
pub const PCRE2_UCP: u32 = 0x0002_0000;

/// Quantifiers are not greedy. Alters what is compiled.
pub const PCRE2_UNGREEDY: u32 = 0x0004_0000;

/// Pattern and subject are UTF. Alters what is compiled.
pub const PCRE2_UTF: u32 = 0x0008_0000;

/// Lock out `\C`. Alters what is compiled.
pub const PCRE2_NEVER_BACKSLASH_C: u32 = 0x0010_0000;

/// Alternative handling of `^` in multiline mode. Inspected when searching.
pub const PCRE2_ALT_CIRCUMFLEX: u32 = 0x0020_0000;

/// Process backslashes in verb names. Alters what is compiled.
pub const PCRE2_ALT_VERBNAMES: u32 = 0x0040_0000;

/// Enable the offset limit. Inspected when searching.
pub const PCRE2_USE_OFFSET_LIMIT: u32 = 0x0080_0000;

/// More of what `PCRE2_EXTENDED` ignores. Alters what is compiled.
pub const PCRE2_EXTENDED_MORE: u32 = 0x0100_0000;

/// The pattern is a literal string. Alters what is compiled.
pub const PCRE2_LITERAL: u32 = 0x0200_0000;

/// A match must end at the end of the subject. Compiling and searching.
pub const PCRE2_ENDANCHORED: u32 = 0x2000_0000;

/// Do not check that the text is valid UTF. Compiling and searching.
pub const PCRE2_NO_UTF_CHECK: u32 = 0x4000_0000;

/// A match must begin at the starting offset. Compiling and searching.
pub const PCRE2_ANCHORED: u32 = 0x8000_0000;

/// What a match attempt returns when the pattern occurs nowhere.
pub const PCRE2_ERROR_NOMATCH: i32 = -1;

/// The bits of the flags that a compilation accepts.
pub const SUPPORTED_OPTIONS: u32 = 0xe35e_feef;

/// Bits that no supported compile flag uses.
pub const OPTION_MASK: u32 = !SUPPORTED_OPTIONS;

/// The options of a pattern compiled without a choice of options: Unicode
/// properties, and UTF for pattern and subject.
pub const DEFAULT_OPTIONS: u32 = PCRE2_UCP | PCRE2_UTF;

/// Bit `i` of `word` is set.
pub open spec fn bit(word: u32, i: u32) -> bool {
    (word >> i) & 1 == 1
}

/// An option word is valid when each bit set in it is the bit of a supported
/// compile flag.
pub open spec fn option_valid(option: u32) -> bool {
    option & OPTION_MASK == 0
}

/// Tells whether every bit of `option` is a supported compile flag.
pub fn is_option_valid(option: u32) -> (valid: bool)
    ensures
        valid == option_valid(option),
{
    option & OPTION_MASK == 0
}

/// The supported bits are those of the flags that alter what is compiled, and
/// no others.
pub proof fn supported_are_the_compile_flags()
    ensures
        SUPPORTED_OPTIONS == PCRE2_ALLOW_EMPTY_CLASS | PCRE2_ALT_BSUX | PCRE2_AUTO_CALLOUT
            | PCRE2_CASELESS | PCRE2_DOTALL | PCRE2_DUPNAMES | PCRE2_EXTENDED
            | PCRE2_MATCH_UNSET_BACKREF | PCRE2_MULTILINE | PCRE2_NEVER_UCP | PCRE2_NEVER_UTF
            | PCRE2_NO_AUTO_CAPTURE | PCRE2_NO_AUTO_POSSESS | PCRE2_NO_DOTSTAR_ANCHOR | PCRE2_UCP
            | PCRE2_UNGREEDY | PCRE2_UTF | PCRE2_NEVER_BACKSLASH_C | PCRE2_ALT_VERBNAMES
            | PCRE2_EXTENDED_MORE | PCRE2_LITERAL | PCRE2_ENDANCHORED | PCRE2_NO_UTF_CHECK
            | PCRE2_ANCHORED,
{
    assert(0xe35e_feefu32 == 0x0000_0001u32 | 0x0000_0002u32 | 0x0000_0004u32 | 0x0000_0008u32
        | 0x0000_0020u32 | 0x0000_0040u32 | 0x0000_0080u32 | 0x0000_0200u32 | 0x0000_0400u32
        | 0x0000_0800u32 | 0x0000_1000u32 | 0x0000_2000u32 | 0x0000_4000u32 | 0x0000_8000u32
        | 0x0002_0000u32 | 0x0004_0000u32 | 0x0008_0000u32 | 0x0010_0000u32 | 0x0040_0000u32
        | 0x0100_0000u32 | 0x0200_0000u32 | 0x2000_0000u32 | 0x4000_0000u32 | 0x8000_0000u32)
        by (bit_vector);
}

/// An option word is valid exactly when each of its bits is a supported one:
/// a single bit outside the supported flags makes the word invalid.
pub proof fn valid_means_every_bit_supported(option: u32)
    ensures
        option_valid(option) <==> forall|i: u32|
            0 <= i < 32 && #[trigger] bit(option, i) ==> bit(SUPPORTED_OPTIONS, i),
{
    if option_valid(option) {
        assert forall|i: u32| 0 <= i < 32 && #[trigger] bit(option, i) implies bit(
            SUPPORTED_OPTIONS,
            i,
        ) by {
            assert(option & !0xe35e_feefu32 == 0 && i < 32 && (option >> i) & 1 == 1 ==> (
            0xe35e_feefu32 >> i) & 1 == 1) by (bit_vector);
        }
    } else {
        let i = unsupported_bit(option);
    }
}

/// A bit of an invalid option word that is no supported flag.
proof fn unsupported_bit(option: u32) -> (i: u32)
    requires
        !option_valid(option),
    ensures
        i < 32,
        bit(option, i),
        !bit(SUPPORTED_OPTIONS, i),
{
    assert(option & !0xe35e_feefu32 != 0 ==> (option >> 4u32) & 1 == 1 || (option >> 8u32) & 1 == 1
        || (option >> 16u32) & 1 == 1 || (option >> 21u32) & 1 == 1 || (option >> 23u32) & 1 == 1
        || (option >> 26u32) & 1 == 1 || (option >> 27u32) & 1 == 1 || (option >> 28u32) & 1
        == 1) by (bit_vector);
    assert((0xe35e_feefu32 >> 4u32) & 1 != 1 && (0xe35e_feefu32 >> 8u32) & 1 != 1 && (
    0xe35e_feefu32 >> 16u32) & 1 != 1 && (0xe35e_feefu32 >> 21u32) & 1 != 1 && (0xe35e_feefu32
        >> 23u32) & 1 != 1 && (0xe35e_feefu32 >> 26u32) & 1 != 1 && (0xe35e_feefu32 >> 27u32) & 1
        != 1 && (0xe35e_feefu32 >> 28u32) & 1 != 1) by (bit_vector);
    if bit(option, 4) {
        4
    } else if bit(option, 8) {
        8
    } else if bit(option, 16) {
        16
    } else if bit(option, 21) {
        21
    } else if bit(option, 23) {
        23
    } else if bit(option, 26) {
        26
    } else if bit(option, 27) {
        27
    } else {
        28
    }
}

/// Two option words are both valid exactly when their union is.
pub proof fn union_valid(a: u32, b: u32)
    ensures
        option_valid(a | b) <==> option_valid(a) && option_valid(b),
{
    assert(((a | b) & !0xe35e_feefu32 == 0) <==> (a & !0xe35e_feefu32 == 0 && b & !0xe35e_feefu32
        == 0)) by (bit_vector);
}

/// The options of a pattern compiled without a choice of options are valid,
/// and so is the empty option word.
pub proof fn default_options_valid()
    ensures
        option_valid(DEFAULT_OPTIONS),
        option_valid(0),
{
    assert((0x0002_0000u32 | 0x0008_0000u32) & !0xe35e_feefu32 == 0) by (bit_vector);
    assert(0u32 & !0xe35e_feefu32 == 0) by (bit_vector);
}

} // verus!
