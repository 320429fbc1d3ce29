use vstd::prelude::*;
use crate::ids::{ModuleId, StructId};
use crate::text::{decimal, push_decimal};

verus! {

/// The type of a local or of a returned value.
#[derive(Debug, PartialEq, Eq)]
pub enum Type {
    Bool,
    U8,
    U64,
    U128,
    Address,
    Signer,
    Vector(Box<Type>),
    Struct(ModuleId, StructId),
    TypeParameter(u16),
    /// A reference; mutable when the flag is set.
    Reference(bool, Box<Type>),
}

impl Clone for Type {
    fn clone(&self) -> (r: Self)
        ensures
            r == *self,
        decreases self,
    {
        match self {
            Type::Bool => Type::Bool,
            Type::U8 => Type::U8,
            Type::U64 => Type::U64,
            Type::U128 => Type::U128,
            Type::Address => Type::Address,
            Type::Signer => Type::Signer,
            Type::Vector(e) => Type::Vector(Box::new((**e).clone())),
            Type::Struct(m, s) => Type::Struct(*m, *s),
            Type::TypeParameter(i) => Type::TypeParameter(*i),
            Type::Reference(m, e) => Type::Reference(*m, Box::new((**e).clone())),
        }
    }
}

/// The text in which a type is shown.
pub open spec fn type_text(t: Type) -> Seq<char>
    decreases t,
{
    match t {
        Type::Bool => "bool"@,
        Type::U8 => "u8"@,
        Type::U64 => "u64"@,
        Type::U128 => "u128"@,
        Type::Address => "address"@,
        Type::Signer => "signer"@,
        Type::Vector(e) => "vector<"@ + type_text(*e) + ">"@,
        Type::Struct(m, s) => "M"@ + decimal(m as nat) + "::S"@ + decimal(s as nat),
        Type::TypeParameter(i) => "T"@ + decimal(i as nat),
        Type::Reference(m, e) => (if m { "&mut "@ } else { "&"@ }) + type_text(*e),
    }
}

impl Type {
    /// Whether this is a reference type, mutable or not.
    pub fn is_reference(&self) -> (r: bool)
        ensures
            r == self is Reference,
    {
        matches!(self, Type::Reference(_, _))
    }

    /// Appends the text of this type to `out`.
    pub fn push_text(&self, out: &mut String)
        ensures
            final(out)@ == old(out)@ + type_text(*self),
        decreases self,
    {
        let ghost start = out@;
        match self {
            Type::Bool => out.append("bool"),
            Type::U8 => out.append("u8"),
            Type::U64 => out.append("u64"),
            Type::U128 => out.append("u128"),
            Type::Address => out.append("address"),
            Type::Signer => out.append("signer"),
            Type::Vector(e) => {
                out.append("vector<");
                (**e).push_text(out);
                out.append(">");
            },
            Type::Struct(m, s) => {
                out.append("M");
                push_decimal(out, *m);
                out.append("::S");
                push_decimal(out, *s);
            },
            Type::TypeParameter(i) => {
                out.append("T");
                push_decimal(out, *i as usize);
            },
            Type::Reference(m, e) => {
                if *m {
                    out.append("&mut ");
                } else {
                    out.append("&");
                }
                (**e).push_text(out);
            },
        }
        assert(out@ =~= start + type_text(*self));
    }
}

} // verus!
