//! Stable textual names for types.
//!
//! Registries for dynamically dispatched values key their entries by a
//! caller-supplied identity; a type's textual name is the portable way to
//! derive one. Names are not guaranteed unique, so callers should detect
//! and resolve collisions.

use vstd::prelude::*;

verus! {

/// Relies on `String::push_str`: appends the given string slice onto the
/// end of the string.
pub assume_specification[ String::push_str ](s: &mut String, piece: &str)
    ensures
        final(s)@ == old(s)@ + piece@,
;

/// Relies on `String::push`: appends the given character onto the end of
/// the string.
pub assume_specification[ String::push ](s: &mut String, ch: char)
    ensures
        final(s)@ == old(s)@.push(ch),
;

/// Builds a name for a type.
///
/// The name is assembled piece by piece onto a caller-supplied string, so
/// composite types can interleave their own punctuation with the names of
/// their parameters.
pub trait TypeName {
    /// The type's full name.
    spec fn spec_name() -> Seq<char>;

    /// Appends the type's name onto `out`.
    fn build_type_name(out: &mut String)
        ensures
            final(out)@ == old(out)@ + Self::spec_name(),
    ;
}

/// The decimal digit character for `d`.
pub open spec fn spec_digit(d: nat) -> char {
    if d == 0 {
        '0'
    } else if d == 1 {
        '1'
    } else if d == 2 {
        '2'
    } else if d == 3 {
        '3'
    } else if d == 4 {
        '4'
    } else if d == 5 {
        '5'
    } else if d == 6 {
        '6'
    } else if d == 7 {
        '7'
    } else if d == 8 {
        '8'
    } else {
        '9'
    }
}

/// The decimal representation of `n`, most significant digit first.
pub open spec fn spec_dec_digits(n: nat) -> Seq<char>
    decreases n,
{
    if n < 10 {
        seq![spec_digit(n)]
    } else {
        spec_dec_digits(n / 10).push(spec_digit(n % 10))
    }
}

fn digit_char(d: usize) -> (r: char)
    requires
        d < 10,
    ensures
        r == spec_digit(d as nat),
{
    if d == 0 {
        '0'
    } else if d == 1 {
        '1'
    } else if d == 2 {
        '2'
    } else if d == 3 {
        '3'
    } else if d == 4 {
        '4'
    } else if d == 5 {
        '5'
    } else if d == 6 {
        '6'
    } else if d == 7 {
        '7'
    } else if d == 8 {
        '8'
    } else {
        '9'
    }
}

/// Appends the decimal representation of `n` onto `out`.
pub fn push_decimal(out: &mut String, n: usize)
    ensures
        final(out)@ == old(out)@ + spec_dec_digits(n as nat),
    decreases n,
{
    if n >= 10 {
        push_decimal(out, n / 10);
    }
    out.push(digit_char(n % 10));
    proof {
        assert(out@ =~= old(out)@ + spec_dec_digits(n as nat));
    }
}

impl TypeName for i32 {
    open spec fn spec_name() -> Seq<char> {
        "i32"@
    }

    fn build_type_name(out: &mut String) {
        out.push_str("i32");
    }
}

impl TypeName for u8 {
    open spec fn spec_name() -> Seq<char> {
        "u8"@
    }

    fn build_type_name(out: &mut String) {
        out.push_str("u8");
    }
}

impl TypeName for u32 {
    open spec fn spec_name() -> Seq<char> {
        "u32"@
    }

    fn build_type_name(out: &mut String) {
        out.push_str("u32");
    }
}

impl TypeName for String {
    open spec fn spec_name() -> Seq<char> {
        "String"@
    }

    fn build_type_name(out: &mut String) {
        out.push_str("String");
    }
}

impl<T: TypeName> TypeName for Option<T> {
    open spec fn spec_name() -> Seq<char> {
        "Option<"@ + T::spec_name() + ">"@
    }

    fn build_type_name(out: &mut String) {
        out.push_str("Option<");
        T::build_type_name(out);
        out.push_str(">");
        proof {
            assert(out@ =~= old(out)@ + Self::spec_name());
        }
    }
}

impl<T: TypeName> TypeName for (T,) {
    open spec fn spec_name() -> Seq<char> {
        "("@ + T::spec_name() + ",)"@
    }

    fn build_type_name(out: &mut String) {
        out.push_str("(");
        T::build_type_name(out);
        out.push_str(",)");
        proof {
            assert(out@ =~= old(out)@ + Self::spec_name());
        }
    }
}

impl<T: TypeName, U: TypeName> TypeName for (T, U) {
    open spec fn spec_name() -> Seq<char> {
        "("@ + T::spec_name() + ", "@ + U::spec_name() + ")"@
    }

    fn build_type_name(out: &mut String) {
        out.push_str("(");
        T::build_type_name(out);
        out.push_str(", ");
        U::build_type_name(out);
        out.push_str(")");
        proof {
            assert(out@ =~= old(out)@ + Self::spec_name());
        }
    }
}

impl<T: TypeName, const N: usize> TypeName for [T; N] {
    open spec fn spec_name() -> Seq<char> {
        "["@ + T::spec_name() + "; "@ + spec_dec_digits(N as nat) + "]"@
    }

    fn build_type_name(out: &mut String) {
        out.push_str("[");
        T::build_type_name(out);
        out.push_str("; ");
        push_decimal(out, N);
        out.push_str("]");
        proof {
            assert(out@ =~= old(out)@ + Self::spec_name());
        }
    }
}

} // verus!
