//! The serialization protocol: a value renders as zero or more tokens.
//!
//! `append_arg` appends the value's own tokens (positional emission);
//! `append_option` appends the value under an option name.  For scalar
//! types the option emission is the name token followed by the value's
//! positional tokens.  An absent optional emits nothing, name included;
//! a sequence repeats the option name once per element.  Any field type
//! may implement this trait to take part in command construction.

use vstd::prelude::*;

verus! {

use crate::tokens::char_token;
use crate::tokens::dec_int;
use crate::tokens::dec_nat;
use crate::tokens::lemma_token_views_push;
use crate::tokens::signed_dec;
use crate::tokens::token_views;
use crate::tokens::unsigned_dec;

/// A value that can render itself as command-line tokens.
pub trait Arg {
    /// The tokens the value emits as a positional argument.
    spec fn arg_tokens(&self) -> Seq<Seq<char>>;

    /// The tokens the value emits as an option named `name`.
    spec fn option_tokens(&self, name: Seq<char>) -> Seq<Seq<char>>;

    /// Append the positional tokens of the value to `out`.
    fn append_arg(&self, out: &mut Vec<String>)
        ensures
            token_views(final(out)@) == token_views(old(out)@) + self.arg_tokens(),
    ;

    /// Append the option-mode tokens of the value to `out`.
    fn append_option(&self, name: &str, out: &mut Vec<String>)
        ensures
            token_views(final(out)@) == token_views(old(out)@) + self.option_tokens(name@),
    ;
}

/// Append one token, as a freshly owned string.
fn push_token(out: &mut Vec<String>, token: String)
    ensures
        token_views(final(out)@) == token_views(old(out)@).push(token@),
{
    proof {
        lemma_token_views_push(out@, token);
    }
    out.push(token);
}

/// Append the option name itself as one token.
fn push_name(name: &str, out: &mut Vec<String>)
    ensures
        token_views(final(out)@) == token_views(old(out)@).push(name@),
{
    push_token(out, name.to_owned());
}

impl Arg for String {
    open spec fn arg_tokens(&self) -> Seq<Seq<char>> {
        seq![self@]
    }

    open spec fn option_tokens(&self, name: Seq<char>) -> Seq<Seq<char>> {
        seq![name] + self.arg_tokens()
    }

    fn append_arg(&self, out: &mut Vec<String>) {
        push_token(out, self.clone());
        assert(token_views(out@) =~= token_views(old(out)@) + self.arg_tokens());
    }

    fn append_option(&self, name: &str, out: &mut Vec<String>) {
        push_name(name, out);
        push_token(out, self.clone());
        assert(token_views(out@) =~= token_views(old(out)@) + self.option_tokens(name@));
    }
}

impl Arg for char {
    open spec fn arg_tokens(&self) -> Seq<Seq<char>> {
        seq![seq![*self]]
    }

    open spec fn option_tokens(&self, name: Seq<char>) -> Seq<Seq<char>> {
        seq![name] + self.arg_tokens()
    }

    fn append_arg(&self, out: &mut Vec<String>) {
        push_token(out, char_token(*self));
        assert(token_views(out@) =~= token_views(old(out)@) + self.arg_tokens());
    }

    fn append_option(&self, name: &str, out: &mut Vec<String>) {
        push_name(name, out);
        push_token(out, char_token(*self));
        assert(token_views(out@) =~= token_views(old(out)@) + self.option_tokens(name@));
    }
}

impl Arg for u64 {
    open spec fn arg_tokens(&self) -> Seq<Seq<char>> {
        seq![dec_nat(*self as nat)]
    }

    open spec fn option_tokens(&self, name: Seq<char>) -> Seq<Seq<char>> {
        seq![name] + self.arg_tokens()
    }

    fn append_arg(&self, out: &mut Vec<String>) {
        push_token(out, unsigned_dec(*self));
        assert(token_views(out@) =~= token_views(old(out)@) + self.arg_tokens());
    }

    fn append_option(&self, name: &str, out: &mut Vec<String>) {
        push_name(name, out);
        push_token(out, unsigned_dec(*self));
        assert(token_views(out@) =~= token_views(old(out)@) + self.option_tokens(name@));
    }
}

impl Arg for i64 {
    open spec fn arg_tokens(&self) -> Seq<Seq<char>> {
        seq![dec_int(*self as int)]
    }

    open spec fn option_tokens(&self, name: Seq<char>) -> Seq<Seq<char>> {
        seq![name] + self.arg_tokens()
    }

    fn append_arg(&self, out: &mut Vec<String>) {
        push_token(out, signed_dec(*self));
        assert(token_views(out@) =~= token_views(old(out)@) + self.arg_tokens());
    }

    fn append_option(&self, name: &str, out: &mut Vec<String>) {
        push_name(name, out);
        push_token(out, signed_dec(*self));
        assert(token_views(out@) =~= token_views(old(out)@) + self.option_tokens(name@));
    }
}

impl Arg for u8 {
    open spec fn arg_tokens(&self) -> Seq<Seq<char>> {
        seq![dec_nat(*self as nat)]
    }

    open spec fn option_tokens(&self, name: Seq<char>) -> Seq<Seq<char>> {
        seq![name] + self.arg_tokens()
    }

    fn append_arg(&self, out: &mut Vec<String>) {
        push_token(out, unsigned_dec(*self as u64));
        assert(token_views(out@) =~= token_views(old(out)@) + self.arg_tokens());
    }

    fn append_option(&self, name: &str, out: &mut Vec<String>) {
        push_name(name, out);
        push_token(out, unsigned_dec(*self as u64));
        assert(token_views(out@) =~= token_views(old(out)@) + self.option_tokens(name@));
    }
}

impl Arg for u16 {
    open spec fn arg_tokens(&self) -> Seq<Seq<char>> {
        seq![dec_nat(*self as nat)]
    }

    open spec fn option_tokens(&self, name: Seq<char>) -> Seq<Seq<char>> {
        seq![name] + self.arg_tokens()
    }

    fn append_arg(&self, out: &mut Vec<String>) {
        push_token(out, unsigned_dec(*self as u64));
        assert(token_views(out@) =~= token_views(old(out)@) + self.arg_tokens());
    }

    fn append_option(&self, name: &str, out: &mut Vec<String>) {
        push_name(name, out);
        push_token(out, unsigned_dec(*self as u64));
        assert(token_views(out@) =~= token_views(old(out)@) + self.option_tokens(name@));
    }
}

impl Arg for u32 {
    open spec fn arg_tokens(&self) -> Seq<Seq<char>> {
        seq![dec_nat(*self as nat)]
    }

    open spec fn option_tokens(&self, name: Seq<char>) -> Seq<Seq<char>> {
        seq![name] + self.arg_tokens()
    }

    fn append_arg(&self, out: &mut Vec<String>) {
        push_token(out, unsigned_dec(*self as u64));
        assert(token_views(out@) =~= token_views(old(out)@) + self.arg_tokens());
    }

    fn append_option(&self, name: &str, out: &mut Vec<String>) {
        push_name(name, out);
        push_token(out, unsigned_dec(*self as u64));
        assert(token_views(out@) =~= token_views(old(out)@) + self.option_tokens(name@));
    }
}

impl Arg for usize {
    open spec fn arg_tokens(&self) -> Seq<Seq<char>> {
        seq![dec_nat(*self as nat)]
    }

    open spec fn option_tokens(&self, name: Seq<char>) -> Seq<Seq<char>> {
        seq![name] + self.arg_tokens()
    }

    fn append_arg(&self, out: &mut Vec<String>) {
        push_token(out, unsigned_dec(*self as u64));
        assert(token_views(out@) =~= token_views(old(out)@) + self.arg_tokens());
    }

    fn append_option(&self, name: &str, out: &mut Vec<String>) {
        push_name(name, out);
        push_token(out, unsigned_dec(*self as u64));
        assert(token_views(out@) =~= token_views(old(out)@) + self.option_tokens(name@));
    }
}

impl Arg for i8 {
    open spec fn arg_tokens(&self) -> Seq<Seq<char>> {
        seq![dec_int(*self as int)]
    }

    open spec fn option_tokens(&self, name: Seq<char>) -> Seq<Seq<char>> {
        seq![name] + self.arg_tokens()
    }

    fn append_arg(&self, out: &mut Vec<String>) {
        push_token(out, signed_dec(*self as i64));
        assert(token_views(out@) =~= token_views(old(out)@) + self.arg_tokens());
    }

    fn append_option(&self, name: &str, out: &mut Vec<String>) {
        push_name(name, out);
        push_token(out, signed_dec(*self as i64));
        assert(token_views(out@) =~= token_views(old(out)@) + self.option_tokens(name@));
    }
}

impl Arg for i16 {
    open spec fn arg_tokens(&self) -> Seq<Seq<char>> {
        seq![dec_int(*self as int)]
    }

    open spec fn option_tokens(&self, name: Seq<char>) -> Seq<Seq<char>> {
        seq![name] + self.arg_tokens()
    }

    fn append_arg(&self, out: &mut Vec<String>) {
        push_token(out, signed_dec(*self as i64));
        assert(token_views(out@) =~= token_views(old(out)@) + self.arg_tokens());
    }

    fn append_option(&self, name: &str, out: &mut Vec<String>) {
        push_name(name, out);
        push_token(out, signed_dec(*self as i64));
        assert(token_views(out@) =~= token_views(old(out)@) + self.option_tokens(name@));
    }
}

impl Arg for i32 {
    open spec fn arg_tokens(&self) -> Seq<Seq<char>> {
        seq![dec_int(*self as int)]
    }

    open spec fn option_tokens(&self, name: Seq<char>) -> Seq<Seq<char>> {
        seq![name] + self.arg_tokens()
    }

    fn append_arg(&self, out: &mut Vec<String>) {
        push_token(out, signed_dec(*self as i64));
        assert(token_views(out@) =~= token_views(old(out)@) + self.arg_tokens());
    }

    fn append_option(&self, name: &str, out: &mut Vec<String>) {
        push_name(name, out);
        push_token(out, signed_dec(*self as i64));
        assert(token_views(out@) =~= token_views(old(out)@) + self.option_tokens(name@));
    }
}

impl Arg for isize {
    open spec fn arg_tokens(&self) -> Seq<Seq<char>> {
        seq![dec_int(*self as int)]
    }

    open spec fn option_tokens(&self, name: Seq<char>) -> Seq<Seq<char>> {
        seq![name] + self.arg_tokens()
    }

    fn append_arg(&self, out: &mut Vec<String>) {
        push_token(out, signed_dec(*self as i64));
        assert(token_views(out@) =~= token_views(old(out)@) + self.arg_tokens());
    }

    fn append_option(&self, name: &str, out: &mut Vec<String>) {
        push_name(name, out);
        push_token(out, signed_dec(*self as i64));
        assert(token_views(out@) =~= token_views(old(out)@) + self.option_tokens(name@));
    }
}

impl<T: Arg> Arg for Option<T> {
    open spec fn arg_tokens(&self) -> Seq<Seq<char>> {
        match self {
            Some(v) => v.arg_tokens(),
            None => Seq::empty(),
        }
    }

    open spec fn option_tokens(&self, name: Seq<char>) -> Seq<Seq<char>> {
        match self {
            Some(v) => v.option_tokens(name),
            None => Seq::empty(),
        }
    }

    fn append_arg(&self, out: &mut Vec<String>) {
        match self {
            Some(v) => v.append_arg(out),
            None => {
                assert(token_views(out@) =~= token_views(old(out)@) + self.arg_tokens());
            },
        }
    }

    fn append_option(&self, name: &str, out: &mut Vec<String>) {
        match self {
            Some(v) => v.append_option(name, out),
            None => {
                assert(token_views(out@) =~= token_views(old(out)@) + self.option_tokens(name@));
            },
        }
    }
}

/// The concatenated positional tokens of a sequence of values, in order.
pub open spec fn seq_arg_tokens<T: Arg>(s: Seq<T>) -> Seq<Seq<char>>
    decreases s.len(),
{
    if s.len() == 0 {
        Seq::empty()
    } else {
        seq_arg_tokens(s.drop_last()) + s.last().arg_tokens()
    }
}

/// The concatenated option-mode tokens of a sequence of values: the option
/// name is repeated ahead of every element.
pub open spec fn seq_option_tokens<T: Arg>(s: Seq<T>, name: Seq<char>) -> Seq<Seq<char>>
    decreases s.len(),
{
    if s.len() == 0 {
        Seq::empty()
    } else {
        seq_option_tokens(s.drop_last(), name) + s.last().option_tokens(name)
    }
}

impl<T: Arg> Arg for Vec<T> {
    open spec fn arg_tokens(&self) -> Seq<Seq<char>> {
        seq_arg_tokens(self@)
    }

    open spec fn option_tokens(&self, name: Seq<char>) -> Seq<Seq<char>> {
        seq_option_tokens(self@, name)
    }

    fn append_arg(&self, out: &mut Vec<String>) {
        let mut i: usize = 0;
        while i < self.len()
            invariant
                i <= self.len(),
                token_views(out@) == token_views(old(out)@) + seq_arg_tokens(self@.take(i as int)),
            decreases self.len() - i,
        {
            self[i].append_arg(out);
            proof {
                assert(self@.take(i + 1).drop_last() =~= self@.take(i as int));
                assert(self@.take(i + 1).last() == self@[i as int]);
            }
            i += 1;
        }
        assert(self@.take(self.len() as int) =~= self@);
    }

    fn append_option(&self, name: &str, out: &mut Vec<String>) {
        let mut i: usize = 0;
        while i < self.len()
            invariant
                i <= self.len(),
                token_views(out@) == token_views(old(out)@) + seq_option_tokens(
                    self@.take(i as int),
                    name@,
                ),
            decreases self.len() - i,
        {
            self[i].append_option(name, out);
            proof {
                assert(self@.take(i + 1).drop_last() =~= self@.take(i as int));
                assert(self@.take(i + 1).last() == self@[i as int]);
            }
            i += 1;
        }
        assert(self@.take(self.len() as int) =~= self@);
    }
}

} // verus!
