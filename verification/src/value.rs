//! Dynamic field values for declaration-driven command construction.
//!
//! A record registered at run time carries its field values in a uniform
//! shape: a scalar, a boolean (for flags only), an optional scalar, or a
//! sequence of scalars.  Rendering delegates to the serialization
//! protocol implementations of the underlying types, so a dynamic value
//! emits exactly the tokens the typed value would.

use vstd::prelude::*;

verus! {

use crate::arg::Arg;
use crate::arg::seq_arg_tokens;
use crate::arg::seq_option_tokens;
use crate::tokens::dec_int;
use crate::tokens::dec_nat;
use crate::tokens::token_views;

/// A single renderable scalar: always exactly one token.
pub enum Scalar {
    /// Text, rendered literally.
    Text(String),
    /// An unsigned integer, rendered as decimal text.
    Unsigned(u64),
    /// A signed integer, rendered as decimal text.
    Signed(i64),
    /// A single character, rendered literally.
    Character(char),
}

impl Arg for Scalar {
    open spec fn arg_tokens(&self) -> Seq<Seq<char>> {
        match self {
            Scalar::Text(s) => seq![s@],
            Scalar::Unsigned(n) => seq![dec_nat(*n as nat)],
            Scalar::Signed(n) => seq![dec_int(*n as int)],
            Scalar::Character(c) => seq![seq![*c]],
        }
    }

    open spec fn option_tokens(&self, name: Seq<char>) -> Seq<Seq<char>> {
        seq![name] + self.arg_tokens()
    }

    fn append_arg(&self, out: &mut Vec<String>) {
        match self {
            Scalar::Text(s) => s.append_arg(out),
            Scalar::Unsigned(n) => n.append_arg(out),
            Scalar::Signed(n) => n.append_arg(out),
            Scalar::Character(c) => c.append_arg(out),
        }
    }

    fn append_option(&self, name: &str, out: &mut Vec<String>) {
        match self {
            Scalar::Text(s) => s.append_option(name, out),
            Scalar::Unsigned(n) => n.append_option(name, out),
            Scalar::Signed(n) => n.append_option(name, out),
            Scalar::Character(c) => c.append_option(name, out),
        }
        assert(token_views(out@) =~= token_views(old(out)@) + self.option_tokens(name@));
    }
}

/// A field value of a registered record instance.
pub enum Value {
    /// A plain scalar.
    One(Scalar),
    /// A boolean; only meaningful under a flag role.
    Truth(bool),
    /// An optional scalar: `None` renders to no token at all.
    Maybe(Option<Scalar>),
    /// A sequence of scalars, rendered in order.
    Many(Vec<Scalar>),
}

impl Value {
    /// Whether the value can take part in positional or option emission.
    /// Booleans cannot: they belong to flag roles alone.
    pub open spec fn renderable(&self) -> bool {
        !(self is Truth)
    }

    /// The tokens the value emits as a positional argument.
    pub open spec fn positional_tokens(&self) -> Seq<Seq<char>> {
        match self {
            Value::One(s) => s.arg_tokens(),
            Value::Truth(_) => Seq::empty(),
            Value::Maybe(o) => o.arg_tokens(),
            Value::Many(v) => seq_arg_tokens(v@),
        }
    }

    /// The tokens the value emits as an option named `name`.
    pub open spec fn named_tokens(&self, name: Seq<char>) -> Seq<Seq<char>> {
        match self {
            Value::One(s) => s.option_tokens(name),
            Value::Truth(_) => Seq::empty(),
            Value::Maybe(o) => o.option_tokens(name),
            Value::Many(v) => seq_option_tokens(v@, name),
        }
    }

    /// Append the positional tokens of the value to `out`.
    pub fn append_positional(&self, out: &mut Vec<String>)
        requires
            self.renderable(),
        ensures
            token_views(final(out)@) == token_views(old(out)@) + self.positional_tokens(),
    {
        match self {
            Value::One(s) => s.append_arg(out),
            Value::Truth(_) => {},
            Value::Maybe(o) => o.append_arg(out),
            Value::Many(v) => v.append_arg(out),
        }
    }

    /// Append the option-mode tokens of the value to `out`.
    pub fn append_named(&self, name: &str, out: &mut Vec<String>)
        requires
            self.renderable(),
        ensures
            token_views(final(out)@) == token_views(old(out)@) + self.named_tokens(name@),
    {
        match self {
            Value::One(s) => s.append_option(name, out),
            Value::Truth(_) => {},
            Value::Maybe(o) => o.append_option(name, out),
            Value::Many(v) => v.append_option(name, out),
        }
    }
}

} // verus!
