//! Expansion of the `BusinessModelUuid` derive.
//!
//! The derive applies to single-field tuple structs wrapping a UUID, such as
//! `struct AccountUuid(Uuid)`, annotated with the database model the
//! identifier belongs to (`#[bm_uuid(model = "AccountModel")]`).  It expands
//! to an implementation of `BusinessModelUuid` for that model.
use vstd::prelude::*;
use vstd::string::StringExecFns;

verus! {

/// The shape of the item the derive is applied to.
pub enum DataShape {
    /// A struct; for each field, whether it has a name.
    Struct(Vec<bool>),
    /// An enum.
    Enum,
    /// A union.
    Union,
}

/// Supported attributes for `#[bm_uuid(...)]`.
pub struct BusinessModelUuidAnnotations {
    /// The model type the identifier is associated with, as source text.
    pub model: String,
}

/// Internal representation of the parsed input of the derive.
pub struct ParsedBusinessModelUuid {
    /// The name of the type the derive is applied to.
    pub ident: String,
    /// Its shape.
    pub data: DataShape,
    /// Its `#[bm_uuid(...)]` attributes.
    pub annos: BusinessModelUuidAnnotations,
}

/// The derive accepts exactly the tuple structs with a single field.
pub open spec fn is_single_field_tuple_struct(data: DataShape) -> bool {
    data matches DataShape::Struct(fields) && fields@.len() == 1 && !fields@[0]
}

/// The implementation the derive expands to, for the type `name` and the
/// model `model`.
pub open spec fn bm_uuid_impl_source(name: Seq<char>, model: Seq<char>) -> Seq<char> {
    "impl BusinessModelUuid<"@ + model + "> for "@ + name
        + " { fn new_from_model(value: galvyn::rorm::prelude::ForeignModel<"@ + model
        + ">) -> Self { Self(value.0) } fn get_inner(&self) -> Uuid { self.0 } }"@
}

/// What the derive expands to for an item of any other shape.
pub open spec fn bm_uuid_shape_error() -> Seq<char> {
    "compile_error!(\"BmUuid derive currently only supports single-field tuple structs\");"@
}

/// The source text the derive expands to: the implementation for a
/// single-field tuple struct, and a compile error for anything else.
pub fn generate_bm_uuid(input: &ParsedBusinessModelUuid) -> (res: String)
    ensures
        if is_single_field_tuple_struct(input.data) {
            res@ == bm_uuid_impl_source(input.ident@, input.annos.model@)
        } else {
            res@ == bm_uuid_shape_error()
        },
{
    let supported = match &input.data {
        DataShape::Struct(fields) => fields.len() == 1 && !fields[0],
        _ => false,
    };
    if !supported {
        return "compile_error!(\"BmUuid derive currently only supports single-field tuple structs\");".to_owned();
    }
    let name = input.ident.as_str();
    let model = input.annos.model.as_str();
    let mut out = "impl BusinessModelUuid<".to_owned();
    out.append(model);
    out.append("> for ");
    out.append(name);
    out.append(" { fn new_from_model(value: galvyn::rorm::prelude::ForeignModel<");
    out.append(model);
    out.append(">) -> Self { Self(value.0) } fn get_inner(&self) -> Uuid { self.0 } }");
    out
}

} // verus!
