//! Structural description of a declared type: the plain data that field
//! classification reads.
//!
//! A descriptor records what a declaration looks like on the page and nothing
//! about what it means: the declared name, whether it is a struct, an enum or a
//! union, and for a struct with named fields each field's identifier, the outer
//! shape of its declared type and the paths of its attributes.
use vstd::prelude::*;

verus! {

/// One segment of a type path, such as `Option<T>` in `std::option::Option<T>`.
#[derive(Debug)]
pub struct PathSegment {
    /// The segment's identifier, without its generic arguments.
    pub ident: String,
    /// How many generic arguments stand in angle brackets behind the identifier.
    pub arguments: usize,
}

/// Mathematical model of a [`PathSegment`].
pub struct PathSegmentView {
    pub ident: Seq<char>,
    pub arguments: nat,
}

impl View for PathSegment {
    type V = PathSegmentView;

    open spec fn view(&self) -> PathSegmentView {
        PathSegmentView { ident: self.ident@, arguments: self.arguments as nat }
    }
}

/// The outer shape of a field's declared type.
#[derive(Debug)]
pub enum TypeShape {
    /// A path type. `qualified` tells whether the path has an explicit self
    /// type, as in `<T as Trait>::Output`.
    Path { qualified: bool, segments: Vec<PathSegment> },
    /// Anything that is not a path: a reference, a tuple, an array, a function
    /// pointer and so on.
    Other,
}

/// Mathematical model of a [`TypeShape`].
pub enum TypeShapeView {
    Path { qualified: bool, segments: Seq<PathSegmentView> },
    Other,
}

impl View for TypeShape {
    type V = TypeShapeView;

    open spec fn view(&self) -> TypeShapeView {
        match self {
            TypeShape::Path { qualified, segments } => TypeShapeView::Path {
                qualified: *qualified,
                segments: segments@.map_values(|s: PathSegment| s@),
            },
            TypeShape::Other => TypeShapeView::Other,
        }
    }
}

/// An attribute attached to a field, reduced to the identifiers of its path:
/// `#[serde_json]` has the path `["serde_json"]`.
#[derive(Debug)]
pub struct Attribute {
    pub path: Vec<String>,
}

/// Mathematical model of an [`Attribute`].
pub struct AttributeView {
    pub path: Seq<Seq<char>>,
}

impl View for Attribute {
    type V = AttributeView;

    open spec fn view(&self) -> AttributeView {
        AttributeView { path: self.path@.map_values(|s: String| s@) }
    }
}

/// A named field of a struct declaration.
#[derive(Debug)]
pub struct FieldDescriptor {
    pub ident: String,
    pub ty: TypeShape,
    pub attrs: Vec<Attribute>,
}

/// Mathematical model of a [`FieldDescriptor`].
pub struct FieldDescriptorView {
    pub ident: Seq<char>,
    pub ty: TypeShapeView,
    pub attrs: Seq<AttributeView>,
}

impl View for FieldDescriptor {
    type V = FieldDescriptorView;

    open spec fn view(&self) -> FieldDescriptorView {
        FieldDescriptorView {
            ident: self.ident@,
            ty: self.ty@,
            attrs: self.attrs@.map_values(|a: Attribute| a@),
        }
    }
}

/// The fields of a struct declaration.
#[derive(Debug)]
pub enum Fields {
    /// `struct S { a: A, b: B }`, fields in declaration order.
    Named(Vec<FieldDescriptor>),
    /// `struct S(A, B);`
    Unnamed,
    /// `struct S;`
    Unit,
}

/// Mathematical model of [`Fields`].
pub enum FieldsView {
    Named(Seq<FieldDescriptorView>),
    Unnamed,
    Unit,
}

impl View for Fields {
    type V = FieldsView;

    open spec fn view(&self) -> FieldsView {
        match self {
            Fields::Named(fields) => FieldsView::Named(
                fields@.map_values(|f: FieldDescriptor| f@),
            ),
            Fields::Unnamed => FieldsView::Unnamed,
            Fields::Unit => FieldsView::Unit,
        }
    }
}

/// What kind of declaration a descriptor stands for.
#[derive(Debug)]
pub enum Data {
    Struct(Fields),
    Enum,
    Union,
}

/// Mathematical model of [`Data`].
pub enum DataView {
    Struct(FieldsView),
    Enum,
    Union,
}

impl View for Data {
    type V = DataView;

    open spec fn view(&self) -> DataView {
        match self {
            Data::Struct(fields) => DataView::Struct(fields@),
            Data::Enum => DataView::Enum,
            Data::Union => DataView::Union,
        }
    }
}

/// A declared type as the derivation sees it.
#[derive(Debug)]
pub struct TypeDescriptor {
    /// The declared name of the type.
    pub ident: String,
    pub data: Data,
}

/// Mathematical model of a [`TypeDescriptor`].
pub struct TypeDescriptorView {
    pub ident: Seq<char>,
    pub data: DataView,
}

impl View for TypeDescriptor {
    type V = TypeDescriptorView;

    open spec fn view(&self) -> TypeDescriptorView {
        TypeDescriptorView { ident: self.ident@, data: self.data@ }
    }
}

} // verus!
