//! A toy parser over a borrowed context, with lifetimes relating the
//! parser, its context, and the text.

use vstd::prelude::*;

verus! {

/// The text being parsed.
pub struct Context<'s>(pub &'s str);

/// A parser borrowing its context; the text outlives the parser.
pub struct Parser<'a, 's: 'a> {
    pub context: &'a Context<'s>,
}

impl<'a, 's> Parser<'a, 's> {
    /// Parsing always fails, reporting everything after the first
    /// character; the text must have one to skip.
    pub fn parse(&self) -> (r: Result<(), &'s str>)
        requires
            self.context.0@.len() >= 1,
        ensures
            r matches Err(e) && e@ == self.context.0@.skip(1),
    {
        let n = self.context.0.unicode_len();
        let rest = self.context.0.substring_char(1, n);
        proof {
            assert(self.context.0@.subrange(1, n as int) =~= self.context.0@.skip(1));
        }
        Err(rest)
    }
}

/// Parse a context built on the spot; the failure borrows from the text,
/// not from the short-lived context.
pub fn parse_context(context: Context) -> (r: Result<(), &str>)
    requires
        context.0@.len() >= 1,
    ensures
        r matches Err(e) && e@ == context.0@.skip(1),
{
    Parser { context: &context }.parse()
}

} // verus!
