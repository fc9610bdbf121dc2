//! The text by which a type is shown in a diagnostic.

use crate::types::{
    type_at, Constant, ConstantView, Constructor, ConstructorView, PolyNature, Type, TypeId,
    TypeStore, TypeView,
};
use vstd::prelude::*;
use vstd::string::StringExecFns;

verus! {

/// The text of one decimal digit.
pub open spec fn digit_text(digit: int) -> Seq<char> {
    if digit == 0 {
        "0"@
    } else if digit == 1 {
        "1"@
    } else if digit == 2 {
        "2"@
    } else if digit == 3 {
        "3"@
    } else if digit == 4 {
        "4"@
    } else if digit == 5 {
        "5"@
    } else if digit == 6 {
        "6"@
    } else if digit == 7 {
        "7"@
    } else if digit == 8 {
        "8"@
    } else {
        "9"@
    }
}

/// The decimal digits of a natural number, most significant first.
pub open spec fn decimal_text(n: nat) -> Seq<char>
    decreases n,
{
    if n < 10 {
        digit_text(n as int)
    } else {
        decimal_text(n / 10) + digit_text((n % 10) as int)
    }
}

/// The decimal text of an integer, with a minus sign where it is negative.
pub open spec fn integer_text(n: int) -> Seq<char> {
    if n < 0 {
        "-"@ + decimal_text((-n) as nat)
    } else {
        decimal_text(n as nat)
    }
}

/// The text of a literal: numbers in decimal, strings between double quotes.
pub open spec fn constant_text(constant: ConstantView) -> Seq<char> {
    match constant {
        ConstantView::Number(n) => integer_text(n as int),
        ConstantView::String(s) => "\""@ + s + "\""@,
        ConstantView::Boolean(b) => if b {
            "true"@
        } else {
            "false"@
        },
    }
}

/// The text of the type that `id` names. Unions and intersections show both
/// sides; aliases, applied generics and call results show what they stand
/// for. A part is followed only where it was registered before the whole.
pub open spec fn type_text(types: Seq<TypeView>, id: TypeId) -> Seq<char>
    decreases id.0,
{
    match type_at(types, id) {
        None => "error"@,
        Some(TypeView::Constant(constant)) => constant_text(constant),
        Some(TypeView::Object(_)) => "object"@,
        Some(TypeView::NamedRooted { name }) => name,
        Some(TypeView::AliasTo { to, .. }) => if to.0 < id.0 {
            type_text(types, to)
        } else {
            "alias"@
        },
        Some(TypeView::Function(..)) => "function"@,
        Some(TypeView::FunctionReference(..)) => "function"@,
        Some(TypeView::And(left, right)) => if left.0 < id.0 && right.0 < id.0 {
            type_text(types, left) + " & "@ + type_text(types, right)
        } else {
            "intersection"@
        },
        Some(TypeView::Or(left, right)) => if left.0 < id.0 && right.0 < id.0 {
            type_text(types, left) + " | "@ + type_text(types, right)
        } else {
            "union"@
        },
        Some(TypeView::RootPolyType(PolyNature::Generic { .. })) => "generic"@,
        Some(TypeView::RootPolyType(PolyNature::Parameter { .. })) => "parameter"@,
        Some(TypeView::RootPolyType(PolyNature::FreeThis)) => "this"@,
        Some(TypeView::Constructor(ConstructorView::StructureGenerics { on, .. })) => if on.0
            < id.0 {
            type_text(types, on)
        } else {
            "generic structure"@
        },
        Some(TypeView::Constructor(ConstructorView::FunctionResult { result, .. })) => if result.0
            < id.0 {
            type_text(types, result)
        } else {
            "call result"@
        },
        Some(TypeView::SpecialObject(_)) => "special object"@,
    }
}

fn digit_str(digit: u64) -> (text: &'static str)
    requires
        digit < 10,
    ensures
        text@ == digit_text(digit as int),
{
    if digit == 0 {
        "0"
    } else if digit == 1 {
        "1"
    } else if digit == 2 {
        "2"
    } else if digit == 3 {
        "3"
    } else if digit == 4 {
        "4"
    } else if digit == 5 {
        "5"
    } else if digit == 6 {
        "6"
    } else if digit == 7 {
        "7"
    } else if digit == 8 {
        "8"
    } else {
        "9"
    }
}

/// The decimal digits of `n`.
pub fn print_decimal(n: u64) -> (text: String)
    ensures
        text@ == decimal_text(n as nat),
    decreases n,
{
    if n < 10 {
        String::from_str(digit_str(n))
    } else {
        let mut text = print_decimal(n / 10);
        text.append(digit_str(n % 10));
        text
    }
}

/// The decimal text of `n`.
pub fn print_integer(n: i64) -> (text: String)
    ensures
        text@ == integer_text(n as int),
{
    if n < 0 {
        let magnitude: u64 = ((-(n + 1)) as u64) + 1;
        let mut text = String::from_str("-");
        let digits = print_decimal(magnitude);
        text.append(digits.as_str());
        text
    } else {
        print_decimal(n as u64)
    }
}

/// The text of a literal.
pub fn print_constant(constant: &Constant) -> (text: String)
    ensures
        text@ == constant_text(constant@),
{
    match constant {
        Constant::Number(n) => print_integer(*n),
        Constant::String(s) => {
            let mut text = String::from_str("\"");
            text.append(s.as_str());
            text.append("\"");
            text
        },
        Constant::Boolean(b) => if *b {
            String::from_str("true")
        } else {
            String::from_str("false")
        },
    }
}

fn print_pair(left: TypeId, separator: &str, right: TypeId, types: &TypeStore, bound: TypeId) -> (text:
    String)
    requires
        left.0 < bound.0,
        right.0 < bound.0,
    ensures
        text@ == type_text(types.types_view(), left) + separator@ + type_text(
            types.types_view(),
            right,
        ),
    decreases bound.0, 0int,
{
    let mut text = print_type(left, types);
    text.append(separator);
    let right_text = print_type(right, types);
    text.append(right_text.as_str());
    text
}

/// The text of the type that `id` names in `types`.
pub fn print_type(id: TypeId, types: &TypeStore) -> (text: String)
    ensures
        text@ == type_text(types.types_view(), id),
    decreases id.0, 1int,
{
    match types.get_type_by_id(id) {
        None => String::from_str("error"),
        Some(Type::Constant(constant)) => print_constant(constant),
        Some(Type::Object(_)) => String::from_str("object"),
        Some(Type::NamedRooted { name }) => name.clone(),
        Some(Type::AliasTo { to, .. }) => if to.0 < id.0 {
            print_type(*to, types)
        } else {
            String::from_str("alias")
        },
        Some(Type::Function(..)) => String::from_str("function"),
        Some(Type::FunctionReference(..)) => String::from_str("function"),
        Some(Type::And(left, right)) => if left.0 < id.0 && right.0 < id.0 {
            print_pair(*left, " & ", *right, types, id)
        } else {
            String::from_str("intersection")
        },
        Some(Type::Or(left, right)) => if left.0 < id.0 && right.0 < id.0 {
            print_pair(*left, " | ", *right, types, id)
        } else {
            String::from_str("union")
        },
        Some(Type::RootPolyType(PolyNature::Generic { .. })) => String::from_str("generic"),
        Some(Type::RootPolyType(PolyNature::Parameter { .. })) => String::from_str("parameter"),
        Some(Type::RootPolyType(PolyNature::FreeThis)) => String::from_str("this"),
        Some(Type::Constructor(Constructor::StructureGenerics(generics))) => if generics.on.0
            < id.0 {
            print_type(generics.on, types)
        } else {
            String::from_str("generic structure")
        },
        Some(Type::Constructor(Constructor::FunctionResult { result, .. })) => if result.0 < id.0 {
            print_type(*result, types)
        } else {
            String::from_str("call result")
        },
        Some(Type::SpecialObject(_)) => String::from_str("special object"),
    }
}

/// A type as a diagnostic shows it.
#[derive(Debug)]
pub struct TypeStringRepresentation(pub String);

impl View for TypeStringRepresentation {
    type V = Seq<char>;

    open spec fn view(&self) -> Seq<char> {
        self.0@
    }
}

impl TypeStringRepresentation {
    /// The representation of the type that `id` names in `types`.
    pub fn from_type_id(id: TypeId, types: &TypeStore) -> (shown: TypeStringRepresentation)
        ensures
            shown@ == type_text(types.types_view(), id),
    {
        TypeStringRepresentation(print_type(id, types))
    }
}

} // verus!
