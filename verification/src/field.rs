//! Field classification: from a field's declaration to its extraction plan.
use vstd::prelude::*;
use vstd::string::StringExecFns;
use crate::descriptor::{
    Attribute, AttributeView, Data, DataView, FieldDescriptor, FieldDescriptorView, Fields,
    FieldsView, TypeDescriptor, TypeDescriptorView, TypeShape, TypeShapeView,
};

verus! {

/// Whether the path of an attribute starts with the identifier `name`.
pub open spec fn attr_matches(attr: AttributeView, name: Seq<char>) -> bool {
    attr.path.len() > 0 && attr.path[0] == name
}

/// Whether some attribute in `attrs` starts with the identifier `name`.
pub open spec fn has_attr_spec(attrs: Seq<AttributeView>, name: Seq<char>) -> bool {
    exists|i: int| 0 <= i < attrs.len() && attr_matches(#[trigger] attrs[i], name)
}

/// Whether a declared type is the optional wrapper: an unqualified path whose
/// first segment is `Option` with exactly one generic argument.
pub open spec fn is_optional_shape(ty: TypeShapeView) -> bool {
    match ty {
        TypeShapeView::Path { qualified, segments } => {
            &&& !qualified
            &&& segments.len() > 0
            &&& segments[0].ident == "Option"@
            &&& segments[0].arguments == 1
        },
        TypeShapeView::Other => false,
    }
}

/// Tells whether the field's declared type is the optional wrapper.
///
/// The check is shallow: only the outermost type is looked at, and only by
/// name. `Box<Option<T>>` and an alias of `Option<T>` are not optional.
pub fn is_optional_field(field: &FieldDescriptor) -> (optional: bool)
    ensures
        optional == is_optional_shape(field@.ty),
{
    match &field.ty {
        TypeShape::Path { qualified, segments } => {
            if *qualified || segments.len() == 0 {
                return false;
            }
            let segment = &segments[0];
            let wrapper = String::from_str("Option");
            segment.ident == wrapper && segment.arguments == 1
        },
        TypeShape::Other => false,
    }
}

/// Tells whether one of `attrs` has a path that starts with `attr_name`.
pub fn has_attr(attrs: &Vec<Attribute>, attr_name: &str) -> (found: bool)
    ensures
        found == has_attr_spec(attrs@.map_values(|a: Attribute| a@), attr_name@),
{
    let wanted = String::from_str(attr_name);
    let ghost model = attrs@.map_values(|a: Attribute| a@);
    let mut i: usize = 0;
    while i < attrs.len()
        invariant
            i <= attrs.len(),
            wanted@ == attr_name@,
            model == attrs@.map_values(|a: Attribute| a@),
            forall|j: int| 0 <= j < i ==> !attr_matches(#[trigger] model[j], attr_name@),
        decreases attrs.len() - i,
    {
        let attr = &attrs[i];
        if attr.path.len() > 0 && attr.path[0] == wanted {
            assert(attr_matches(model[i as int], attr_name@));
            return true;
        }
        i += 1;
    }
    false
}

/// Whether a field must be present in the mapping.
#[derive(Clone, Copy, Debug, PartialEq, Eq, Structural)]
pub enum Modality {
    /// The key must be present; its absence fails the conversion.
    Required,
    /// The key may be absent; the field is then empty.
    Optional,
}

/// How a field's raw string is turned into its value.
#[derive(Clone, Copy, Debug, PartialEq, Eq, Structural)]
pub enum DecodeStrategy {
    /// The field type's own parsing from a string.
    PlainParse,
    /// Structured decoding of JSON text.
    JsonDecode,
}

/// Why a declaration cannot be given a conversion. Both variants reject the
/// shape of the declaration; nothing is generated for it.
#[derive(Clone, Copy, Debug, PartialEq, Eq, Structural)]
pub enum UnsupportedShape {
    /// The declaration is an enum or a union.
    NotAStruct,
    /// The declaration is a tuple struct or a unit struct.
    UnnamedFields,
}

impl UnsupportedShape {
    /// The text of the diagnostic.
    pub open spec fn message_text(self) -> Seq<char> {
        match self {
            UnsupportedShape::NotAStruct => "Only structs are supported"@,
            UnsupportedShape::UnnamedFields => "Only named fields are supported"@,
        }
    }

    /// The diagnostic to attach to the rejected declaration.
    pub fn message(&self) -> (text: String)
        ensures
            text@ == self.message_text(),
    {
        match self {
            UnsupportedShape::NotAStruct => String::from_str("Only structs are supported"),
            UnsupportedShape::UnnamedFields => String::from_str("Only named fields are supported"),
        }
    }
}

/// The extraction plan of one field: its name, whether it may be absent, and
/// how its raw string is decoded. The last two are independent of each other.
#[derive(Debug)]
pub struct Field {
    name: String,
    modality: Modality,
    strategy: DecodeStrategy,
}

/// Mathematical model of a [`Field`].
pub struct FieldView {
    pub name: Seq<char>,
    pub modality: Modality,
    pub strategy: DecodeStrategy,
}

impl View for Field {
    type V = FieldView;

    closed spec fn view(&self) -> FieldView {
        FieldView { name: self.name@, modality: self.modality, strategy: self.strategy }
    }
}

/// The models of a sequence of plans, in the same order.
pub open spec fn plan_views(fields: Seq<Field>) -> Seq<FieldView> {
    fields.map_values(|f: Field| f@)
}

/// The message of the error for a required field whose key is absent.
pub open spec fn missing_message(name: Seq<char>) -> Seq<char> {
    "Field "@ + name + " not found"@
}

/// The source text of the call that decodes the raw string `value`.
pub open spec fn decode_call_text(strategy: DecodeStrategy) -> Seq<char> {
    match strategy {
        DecodeStrategy::PlainParse => "value.parse()"@,
        DecodeStrategy::JsonDecode => "serde_json::from_str(&value)"@,
    }
}

/// The source text of the statement that looks a field up in `map`, decodes
/// it and binds the result to a local of the field's name.
///
/// A failed decode leaves the routine at once with the decoder's own error. An
/// absent key leaves an optional field empty and, for a required field, leaves
/// the routine with the message of [`missing_message`].
pub open spec fn statement_text(field: FieldView) -> Seq<char> {
    let lookup = "let "@ + field.name + " = map.get(\""@ + field.name + "\").map(|value| "@
        + decode_call_text(field.strategy) + ").transpose()?"@;
    match field.modality {
        Modality::Optional => lookup + ";"@,
        Modality::Required => lookup + ".ok_or_else(|| \""@ + missing_message(field.name)
            + "\")?;"@,
    }
}

impl Field {
    /// A plan from its three parts.
    pub fn new(name: String, modality: Modality, strategy: DecodeStrategy) -> (field: Field)
        ensures
            field@ == (FieldView { name: name@, modality, strategy }),
    {
        Field { name, modality, strategy }
    }

    /// The field's identifier, which is also its key in the mapping.
    pub fn ident(&self) -> (name: &String)
        ensures
            name@ == self@.name,
    {
        &self.name
    }

    /// Whether the field may be absent from the mapping.
    pub fn modality(&self) -> (modality: Modality)
        ensures
            modality == self@.modality,
    {
        self.modality
    }

    /// How the field's raw string is decoded.
    pub fn decode_strategy(&self) -> (strategy: DecodeStrategy)
        ensures
            strategy == self@.strategy,
    {
        self.strategy
    }

    /// The message of the error that reports this field as missing.
    pub fn missing_message(&self) -> (text: String)
        ensures
            text@ == missing_message(self@.name),
    {
        let mut text = String::from_str("Field ");
        text.append(self.name.as_str());
        text.append(" not found");
        text
    }

    /// Writes the statement that extracts this field from the mapping.
    pub fn generate_deserialize(&self) -> (text: String)
        ensures
            text@ == statement_text(self@),
    {
        let parse = match self.strategy {
            DecodeStrategy::PlainParse => "value.parse()",
            DecodeStrategy::JsonDecode => "serde_json::from_str(&value)",
        };
        let mut text = String::from_str("let ");
        text.append(self.name.as_str());
        text.append(" = map.get(\"");
        text.append(self.name.as_str());
        text.append("\").map(|value| ");
        text.append(parse);
        text.append(").transpose()?");
        match self.modality {
            Modality::Optional => {
                text.append(";");
            },
            Modality::Required => {
                let err_msg = self.missing_message();
                text.append(".ok_or_else(|| \"");
                text.append(err_msg.as_str());
                text.append("\")?;");
            },
        }
        text
    }
}

/// The plan of one declared field.
pub open spec fn classify_field(field: FieldDescriptorView) -> FieldView {
    FieldView {
        name: field.ident,
        modality: if is_optional_shape(field.ty) {
            Modality::Optional
        } else {
            Modality::Required
        },
        strategy: if has_attr_spec(field.attrs, "serde_json"@) {
            DecodeStrategy::JsonDecode
        } else {
            DecodeStrategy::PlainParse
        },
    }
}

/// The plans of a declaration's fields in declaration order, or the reason why
/// the declaration has none.
pub open spec fn classify(parsed: TypeDescriptorView) -> Result<Seq<FieldView>, UnsupportedShape> {
    match parsed.data {
        DataView::Struct(FieldsView::Named(fields)) => Ok(
            fields.map_values(|f: FieldDescriptorView| classify_field(f)),
        ),
        DataView::Struct(_) => Err(UnsupportedShape::UnnamedFields),
        _ => Err(UnsupportedShape::NotAStruct),
    }
}

/// Classifies one named field.
pub fn parse_field(field: &FieldDescriptor) -> (plan: Field)
    ensures
        plan@ == classify_field(field@),
{
    let name = field.ident.clone();
    let modality = if is_optional_field(field) {
        Modality::Optional
    } else {
        Modality::Required
    };
    let strategy = if has_attr(&field.attrs, "serde_json") {
        DecodeStrategy::JsonDecode
    } else {
        DecodeStrategy::PlainParse
    };
    Field { name, modality, strategy }
}

/// Classifies every field of a struct with named fields, in declaration
/// order. Any other declaration is rejected.
pub fn parse_fields(parsed: &TypeDescriptor) -> (plans: Result<Vec<Field>, UnsupportedShape>)
    ensures
        match plans {
            Ok(fields) => classify(parsed@) == Ok::<Seq<FieldView>, UnsupportedShape>(
                plan_views(fields@),
            ),
            Err(e) => classify(parsed@) == Err::<Seq<FieldView>, UnsupportedShape>(e),
        },
{
    match &parsed.data {
        Data::Struct(data) => match data {
            Fields::Named(named) => {
                let ghost model = named@.map_values(|f: FieldDescriptor| f@);
                let mut plans: Vec<Field> = Vec::new();
                let mut i: usize = 0;
                while i < named.len()
                    invariant
                        i <= named.len(),
                        plans@.len() == i,
                        model == named@.map_values(|f: FieldDescriptor| f@),
                        forall|j: int|
                            0 <= j < i ==> (#[trigger] plans@[j])@ == classify_field(model[j]),
                    decreases named.len() - i,
                {
                    plans.push(parse_field(&named[i]));
                    i += 1;
                }
                assert(plan_views(plans@) =~= model.map_values(
                    |f: FieldDescriptorView| classify_field(f),
                ));
                Ok(plans)
            },
            _ => Err(UnsupportedShape::UnnamedFields),
        },
        _ => Err(UnsupportedShape::NotAStruct),
    }
}

} // verus!
