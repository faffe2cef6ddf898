//! Compiling a pattern: the check of the options before the engine is asked,
//! what the engine is asked, and what is made of its answer.

use vstd::prelude::*;

use crate::context::CompileContext;
use crate::error::Error;
use crate::options::{default_options_valid, is_option_valid, option_valid, DEFAULT_OPTIONS};

verus! {

/// What a [`CompileCall`] holds.
pub struct CompileCallView {
    /// The source of the pattern.
    pub pattern: Seq<char>,
    /// The options to compile with.
    pub options: u32,
    /// The address of the compile context.
    pub context: usize,
}

/// A compilation that the engine is to carry out: the pattern's source, the
/// options and the context to compile it with. There is one only for valid
/// options.
#[derive(Debug)]
pub struct CompileCall<'p> {
    pattern: &'p str,
    options: u32,
    context: usize,
}

impl<'p> View for CompileCall<'p> {
    type V = CompileCallView;

    closed spec fn view(&self) -> CompileCallView {
        CompileCallView { pattern: self.pattern@, options: self.options, context: self.context }
    }
}

impl<'p> CompileCall<'p> {
    #[verifier::type_invariant]
    spec fn prepared(&self) -> bool {
        option_valid(self.options) && self.context != 0
    }

    /// The source to hand to the engine.
    pub fn pattern(&self) -> (pattern: &'p str)
        ensures
            pattern@ == self@.pattern,
    {
        self.pattern
    }

    /// The options to hand to the engine; they are valid.
    pub fn options(&self) -> (options: u32)
        ensures
            options == self@.options,
            option_valid(options),
    {
        proof {
            use_type_invariant(self);
        }
        self.options
    }

    /// The address of the context to hand to the engine; it is never null.
    pub fn context(&self) -> (context: usize)
        ensures
            context == self@.context,
            context != 0,
    {
        proof {
            use_type_invariant(self);
        }
        self.context
    }
}

/// What a [`Pattern`] holds.
pub struct PatternView {
    /// The address of the compiled code.
    pub code: usize,
    /// The options the pattern was compiled with.
    pub options: u32,
    /// The source the pattern was compiled from.
    pub source: Seq<char>,
}

/// A compiled pattern, known by the address of the engine's code block, with
/// the options and the source it was compiled from.
#[derive(Debug)]
pub struct Pattern {
    code: usize,
    options: u32,
    source: String,
}

impl View for Pattern {
    type V = PatternView;

    closed spec fn view(&self) -> PatternView {
        PatternView { code: self.code, options: self.options, source: self.source@ }
    }
}

impl Pattern {
    #[verifier::type_invariant]
    spec fn compiled_code(&self) -> bool {
        self.code != 0 && option_valid(self.options)
    }

    /// Prepares the compilation of `pattern` with the default options, which
    /// are valid: the call is always made.
    pub fn new(pattern: &str, ctx: CompileContext) -> (call: Result<CompileCall<'_>, Error>)
        ensures
            call matches Ok(c) && c@ == (CompileCallView {
                pattern: pattern@,
                options: DEFAULT_OPTIONS,
                context: ctx@,
            }),
    {
        proof {
            default_options_valid();
        }
        Pattern::new_with(pattern, DEFAULT_OPTIONS, ctx)
    }

    /// Prepares the compilation of `pattern` with `options` in the context
    /// `ctx`. Options with a bit that is no supported compile flag are refused
    /// here, and no call for the engine is made of them.
    pub fn new_with(pattern: &str, options: u32, ctx: CompileContext) -> (call: Result<
        CompileCall<'_>,
        Error,
    >)
        ensures
            !option_valid(options) ==> call == Err::<CompileCall<'_>, Error>(
                Error::InvalidOption { options },
            ),
            option_valid(options) ==> (call matches Ok(c) && c@ == (CompileCallView {
                pattern: pattern@,
                options,
                context: ctx@,
            })),
    {
        if !is_option_valid(options) {
            return Err(Error::InvalidOption { options });
        }
        let mut ctx = ctx;
        let context: usize = ctx.as_mut_ptr();
        Ok(CompileCall { pattern, options, context })
    }

    /// Takes the engine's answer to `call`: the address of the compiled code,
    /// or null with an error code and the offset in the source at which the
    /// compilation failed.
    pub fn compiled(
        call: CompileCall<'_>,
        code: usize,
        error_code: i32,
        error_offset: usize,
    ) -> (pattern: Result<Pattern, Error>)
        ensures
            code == 0 ==> pattern == Err::<Pattern, Error>(
                Error::CompileError { code: error_code, byte_offset: error_offset },
            ),
            code != 0 ==> (pattern matches Ok(p) && p@ == (PatternView {
                code,
                options: call@.options,
                source: call@.pattern,
            })),
    {
        if code == 0 {
            return Err(Error::CompileError { code: error_code, byte_offset: error_offset });
        }
        let options: u32 = call.options();
        let source = call.pattern().to_owned();
        Ok(Pattern { code, options, source })
    }

    /// The address to hand to the engine; it is never null.
    pub fn as_ptr(&self) -> (code: usize)
        ensures
            code == self@.code,
            code != 0,
    {
        proof {
            use_type_invariant(self);
        }
        self.code
    }

    /// The options the pattern was compiled with; they are valid.
    pub fn options(&self) -> (options: u32)
        ensures
            options == self@.options,
            option_valid(options),
    {
        proof {
            use_type_invariant(self);
        }
        self.options
    }

    /// The source the pattern was compiled from.
    pub fn source(&self) -> (source: &str)
        ensures
            source@ == self@.source,
    {
        self.source.as_str()
    }
}

} // verus!
