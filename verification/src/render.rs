//! How a type is written out.

use crate::text::{joined, lemma_joined_next};
use crate::types::{views, Type, TypeView};
use vstd::prelude::*;

verus! {

/// The written forms of a sequence of types, in order.
pub open spec fn rendered_each(types: Seq<TypeView>) -> Seq<Seq<char>>
    decreases types, 0int,
{
    Seq::new(
        types.len(),
        |i: int|
            if 0 <= i < types.len() {
                rendered(types[i])
            } else {
                Seq::empty()
            },
    )
}

/// The written form of a type.
///
/// A keyword type is its keyword; a string literal stands in double
/// quotes; a numeric literal is its own text; a union separates its members
/// by ` | `; an array puts `[]` behind its element; a tuple lists its
/// elements in square brackets; a function lists its parameters in round
/// brackets, followed by ` => ` and the return type.
pub open spec fn rendered(t: TypeView) -> Seq<char>
    decreases t, 1int,
{
    match t {
        TypeView::Any => "any"@,
        TypeView::Number => "number"@,
        TypeView::String => "string"@,
        TypeView::Boolean => "boolean"@,
        TypeView::Null => "null"@,
        TypeView::Undefined => "undefined"@,
        TypeView::Never => "never"@,
        TypeView::BigInt => "bigint"@,
        TypeView::Symbol => "symbol"@,
        TypeView::Object => "object"@,
        TypeView::Unknown => "unknown"@,
        TypeView::Void => "void"@,
        TypeView::StringLiteral(value) => "\""@ + value + "\""@,
        TypeView::NumberLiteral(value) => value.text,
        TypeView::BooleanLiteral(value) => if value {
            "true"@
        } else {
            "false"@
        },
        TypeView::Union(members) => joined(rendered_each(members), " | "@),
        TypeView::Array(element) => rendered(*element) + "[]"@,
        TypeView::Tuple(elements) => "["@ + joined(rendered_each(elements), ", "@) + "]"@,
        TypeView::Function { params, return_type } => "("@ + joined(
            rendered_each(params),
            ", "@,
        ) + ") => "@ + rendered(*return_type),
    }
}

/// The written forms of the types, with the separator between them.
fn render_list(types: &Vec<Type>, separator: &str) -> (text: String)
    ensures
        text@ == joined(rendered_each(views(types@)), separator@),
    decreases types, 0int,
{
    let ghost parts = rendered_each(views(types@));
    let mut text = String::new();
    let mut i: usize = 0;
    while i < types.len()
        invariant
            0 <= i <= types.len(),
            parts == rendered_each(views(types@)),
            text@ == joined(parts.take(i as int), separator@),
        decreases types.len() - i,
    {
        if i > 0 {
            text.append(separator);
        }
        let part = types[i].to_string();
        text.append(part.as_str());
        proof {
            lemma_joined_next(parts, separator@, i as int);
        }
        i += 1;
    }
    assert(parts.take(types.len() as int) =~= parts);
    text
}

impl Type {
    /// The written form of the type.
    pub fn to_string(&self) -> (text: String)
        ensures
            text@ == rendered(self@),
        decreases self, 1int,
    {
        match self {
            Type::Any => "any".to_string(),
            Type::Number => "number".to_string(),
            Type::String => "string".to_string(),
            Type::Boolean => "boolean".to_string(),
            Type::Null => "null".to_string(),
            Type::Undefined => "undefined".to_string(),
            Type::Never => "never".to_string(),
            Type::BigInt => "bigint".to_string(),
            Type::Symbol => "symbol".to_string(),
            Type::Object => "object".to_string(),
            Type::Unknown => "unknown".to_string(),
            Type::Void => "void".to_string(),
            Type::StringLiteral(value) => {
                let mut text = "\"".to_string();
                text.append(value.as_str());
                text.append("\"");
                text
            },
            Type::NumberLiteral(value) => value.text.clone(),
            Type::BooleanLiteral(value) => if *value {
                "true".to_string()
            } else {
                "false".to_string()
            },
            Type::Union(members) => render_list(members, " | "),
            Type::Array(element) => {
                let mut text = (**element).to_string();
                text.append("[]");
                text
            },
            Type::Tuple(elements) => {
                let mut text = "[".to_string();
                let inner = render_list(elements, ", ");
                text.append(inner.as_str());
                text.append("]");
                text
            },
            Type::Function { params, return_type } => {
                let mut text = "(".to_string();
                let inner = render_list(params, ", ");
                text.append(inner.as_str());
                text.append(") => ");
                let result = (**return_type).to_string();
                text.append(result.as_str());
                text
            },
        }
    }
}

} // verus!
