use pcre2_matcher::options::{
    PCRE2_ALT_CIRCUMFLEX, PCRE2_ANCHORED, PCRE2_CASELESS, PCRE2_DOLLAR_ENDONLY, PCRE2_ENDANCHORED,
    PCRE2_FIRSTLINE, PCRE2_NO_START_OPTIMIZE, PCRE2_NO_UTF_CHECK, PCRE2_UCP,
    PCRE2_USE_OFFSET_LIMIT, PCRE2_UTF, DEFAULT_OPTIONS, SUPPORTED_OPTIONS,
};
use pcre2_matcher::{is_option_valid, OPTION_MASK};

#[test]
fn test_is_option_valid() {
    let valid = is_option_valid(0x20000000);
    assert!(valid);
    let valid = is_option_valid(0x10000000);
    assert!(!valid);
}

#[test]
fn test_dfa_match() {
    // The flags that are only read while a subject is searched, by the
    // backtracking or the DFA matcher, are no compile options.
    for flag in [
        PCRE2_DOLLAR_ENDONLY,
        PCRE2_FIRSTLINE,
        PCRE2_NO_START_OPTIMIZE,
        PCRE2_ALT_CIRCUMFLEX,
        PCRE2_USE_OFFSET_LIMIT,
    ] {
        assert!(!is_option_valid(flag));
    }
}

#[test]
fn option_mask_is_the_complement_of_the_supported_flags() {
    assert_eq!(OPTION_MASK, 0x1ca1_0110);
    assert_eq!(OPTION_MASK, !0xe35e_feef);
    assert_eq!(SUPPORTED_OPTIONS | OPTION_MASK, u32::MAX);
    assert_eq!(SUPPORTED_OPTIONS & OPTION_MASK, 0);
}

#[test]
fn empty_and_default_options_are_valid() {
    assert!(is_option_valid(0));
    assert_eq!(DEFAULT_OPTIONS, 0x000a_0000);
    assert_eq!(DEFAULT_OPTIONS, PCRE2_UCP | PCRE2_UTF);
    assert!(is_option_valid(DEFAULT_OPTIONS));
}

#[test]
fn every_single_bit_is_valid_exactly_when_supported() {
    for i in 0..32 {
        let bit: u32 = 1 << i;
        assert_eq!(is_option_valid(bit), SUPPORTED_OPTIONS & bit != 0, "bit {}", i);
    }
    // The three bits that no flag of the engine uses.
    assert!(!is_option_valid(0x0400_0000));
    assert!(!is_option_valid(0x0800_0000));
    assert!(!is_option_valid(0x1000_0000));
}

#[test]
fn one_unsupported_bit_spoils_a_valid_word() {
    let good = PCRE2_CASELESS | PCRE2_UTF | PCRE2_ANCHORED;
    assert!(is_option_valid(good));
    assert!(!is_option_valid(good | PCRE2_FIRSTLINE));
    assert!(is_option_valid(SUPPORTED_OPTIONS));
    assert!(!is_option_valid(u32::MAX));
}

#[test]
fn a_union_is_valid_exactly_when_both_parts_are() {
    let words = [0, PCRE2_CASELESS, PCRE2_ENDANCHORED | PCRE2_NO_UTF_CHECK, PCRE2_FIRSTLINE, 0x1000_0001];
    for a in words {
        for b in words {
            assert_eq!(is_option_valid(a | b), is_option_valid(a) && is_option_valid(b));
        }
    }
}
