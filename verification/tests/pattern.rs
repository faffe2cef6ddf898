use pcre2_matcher::options::{DEFAULT_OPTIONS, PCRE2_CASELESS, PCRE2_FIRSTLINE, PCRE2_MULTILINE};
use pcre2_matcher::{CompileContext, Error, PCRE2Builder, Pattern, PCRE2};

/// A compile context at the address of a block that stands for the engine's.
fn context() -> CompileContext {
    CompileContext::new(0x1000)
}

#[test]
fn test_compile_context_new() {
    let mut ctx = CompileContext::new(0x1000);
    assert!(ctx.as_mut_ptr() != 0);
}

#[test]
fn test_pattern_new() {
    // The engine rejects a quantifier that follows nothing, at offset 0.
    let pattern = Pattern::new(r"*", context()).and_then(|call| Pattern::compiled(call, 0, 109, 0));
    assert!(pattern.is_err());
    let pattern = Pattern::new(r"(?<=\d{4})[^\d\s]{3,11}(?=\S)", context())
        .and_then(|call| Pattern::compiled(call, 0x2000, 100, 0));
    assert!(pattern.is_ok());
}

#[test]
fn context_keeps_its_address() {
    let mut ctx = CompileContext::new(0xdead_beef);
    assert_eq!(ctx.as_mut_ptr(), 0xdead_beef);
    assert_eq!(ctx.as_mut_ptr(), 0xdead_beef);
}

#[test]
fn default_compilation_uses_unicode_and_utf() {
    let call = Pattern::new("a+", context()).unwrap();
    assert_eq!(call.pattern(), "a+");
    assert_eq!(call.options(), DEFAULT_OPTIONS);
    assert_eq!(call.options(), 0x000a_0000);
    assert_eq!(call.context(), 0x1000);
}

#[test]
fn compilation_with_valid_options_is_prepared() {
    let options = PCRE2_CASELESS | PCRE2_MULTILINE;
    let call = Pattern::new_with("^a$", options, CompileContext::new(0x77)).unwrap();
    assert_eq!(call.pattern(), "^a$");
    assert_eq!(call.options(), options);
    assert_eq!(call.context(), 0x77);
}

#[test]
fn invalid_options_are_refused_before_any_call() {
    let refused = Pattern::new_with("a", 0x1000_0000, context());
    assert_eq!(refused.unwrap_err(), Error::InvalidOption { options: 0x1000_0000 });
    let options = PCRE2_CASELESS | PCRE2_FIRSTLINE;
    let refused = Pattern::new_with("a", options, context());
    assert_eq!(refused.unwrap_err(), Error::InvalidOption { options });
    let refused = PCRE2Builder::new().options(u32::MAX).build("a", context());
    assert_eq!(refused.unwrap_err(), Error::InvalidOption { options: u32::MAX });
}

#[test]
fn compile_error_carries_code_and_offset() {
    let call = Pattern::new("*", context()).unwrap();
    let failed = Pattern::compiled(call, 0, 109, 0);
    assert_eq!(failed.unwrap_err(), Error::CompileError { code: 109, byte_offset: 0 });
    let call = Pattern::new("ab(cd", context()).unwrap();
    let failed = Pattern::compiled(call, 0, 114, 5);
    assert_eq!(failed.unwrap_err(), Error::CompileError { code: 114, byte_offset: 5 });
}

#[test]
fn compiled_pattern_keeps_code_options_and_source() {
    let call = Pattern::new_with("a|b", PCRE2_CASELESS, context()).unwrap();
    // Error code and offset mean nothing beside a code block.
    let pattern = Pattern::compiled(call, 0x2000, 100, 7).unwrap();
    assert_eq!(pattern.as_ptr(), 0x2000);
    assert_eq!(pattern.options(), PCRE2_CASELESS);
    assert_eq!(pattern.source(), "a|b");
}

#[test]
fn builder_starts_empty_and_collects_options() {
    let call = PCRE2Builder::new().build("a", context()).unwrap();
    assert_eq!(call.options(), 0);
    let call = PCRE2Builder::default().build("a", context()).unwrap();
    assert_eq!(call.options(), 0);
    let call = PCRE2Builder::new()
        .add_option(PCRE2_CASELESS)
        .add_option(PCRE2_MULTILINE)
        .build("a", context())
        .unwrap();
    assert_eq!(call.options(), PCRE2_CASELESS | PCRE2_MULTILINE);
    assert_eq!(call.options(), 0x0000_0408);
    let call = PCRE2Builder::new()
        .add_option(PCRE2_CASELESS)
        .options(PCRE2_MULTILINE)
        .build("a", context())
        .unwrap();
    assert_eq!(call.options(), PCRE2_MULTILINE);
}

#[test]
fn builder_does_not_check_options_before_build() {
    let builder = PCRE2Builder::new().options(PCRE2_FIRSTLINE).add_option(PCRE2_CASELESS);
    let refused = builder.build("a", context());
    assert_eq!(
        refused.unwrap_err(),
        Error::InvalidOption { options: PCRE2_FIRSTLINE | PCRE2_CASELESS }
    );
}

#[test]
fn engine_compiles_with_no_option_set() {
    let call = PCRE2::new("a+", context()).unwrap();
    assert_eq!(call.pattern(), "a+");
    assert_eq!(call.options(), 0);
    assert_eq!(call.context(), 0x1000);
}
