//! The structural shape of a type, read off the token text of its literal.

use crate::text::{begins_with, cut_all, same_text, without_all};
use vstd::prelude::*;
use vstd::string::*;

verus! {

/// What a wrapper has to know of a parameter or return type.
#[derive(Debug, PartialEq, Eq)]
pub enum TypeShape {
    /// Pointer to constant characters.
    ConstStringPtr,
    /// Pointer to mutable characters.
    MutStringPtr,
    /// Pointer to a constant base object.
    ConstObjectPtr,
    /// Pointer to a mutable base object.
    MutObjectPtr,
    /// Pointer to the toolkit's opaque type.
    VoidPtr,
    /// Pointer to pointer.
    PointerArray,
    /// Any other pointer, with the pointee's text and whether it may be written through.
    OtherPointer { inner: String, mutable: bool },
    /// Anything that is no pointer, with its text.
    Value { name: String },
}

/// A `TypeShape` with its texts as sequences of characters.
pub enum ShapeView {
    ConstStringPtr,
    MutStringPtr,
    ConstObjectPtr,
    MutObjectPtr,
    VoidPtr,
    PointerArray,
    OtherPointer { inner: Seq<char>, mutable: bool },
    Value { name: Seq<char> },
}

impl View for TypeShape {
    type V = ShapeView;

    open spec fn view(&self) -> ShapeView {
        match self {
            TypeShape::ConstStringPtr => ShapeView::ConstStringPtr,
            TypeShape::MutStringPtr => ShapeView::MutStringPtr,
            TypeShape::ConstObjectPtr => ShapeView::ConstObjectPtr,
            TypeShape::MutObjectPtr => ShapeView::MutObjectPtr,
            TypeShape::VoidPtr => ShapeView::VoidPtr,
            TypeShape::PointerArray => ShapeView::PointerArray,
            TypeShape::OtherPointer { inner, mutable } => ShapeView::OtherPointer {
                inner: inner@,
                mutable: *mutable,
            },
            TypeShape::Value { name } => ShapeView::Value { name: name@ },
        }
    }
}

/// The literal is const-qualified: it begins with the const qualifier, or with
/// the qualifier of a pointer to something constant.
pub open spec fn is_const_text(lit: Seq<char>) -> bool {
    "const "@.is_prefix_of(lit) || "* const "@.is_prefix_of(lit)
}

pub open spec fn is_const_str_text(lit: Seq<char>) -> bool {
    lit == "* const cty :: c_char"@
}

pub open spec fn is_mut_str_text(lit: Seq<char>) -> bool {
    lit == "* mut cty :: c_char"@
}

/// Pointer to a constant base object, under either spelling of the base type.
pub open spec fn is_const_object_text(lit: Seq<char>) -> bool {
    lit == "* const lv_obj_t"@ || lit == "* const _lv_obj_t"@
}

/// Pointer to a mutable base object, under either spelling of the base type.
pub open spec fn is_mut_object_text(lit: Seq<char>) -> bool {
    lit == "* mut lv_obj_t"@ || lit == "* mut _lv_obj_t"@
}

pub open spec fn is_pointer_text(lit: Seq<char>) -> bool {
    "*"@.is_prefix_of(lit)
}

/// The literal begins with a pointer to a pointer, whatever may be written through either.
pub open spec fn is_array_text(lit: Seq<char>) -> bool {
    "* mut *"@.is_prefix_of(lit) || "* const *"@.is_prefix_of(lit)
}

/// A pointer literal without its pointer qualifiers.
pub open spec fn pointee_text(lit: Seq<char>) -> Seq<char> {
    without_all(without_all(lit, "* const "@), "* mut "@)
}

/// The shape of a literal: the first rule that applies, in this order.
pub open spec fn shape_of(lit: Seq<char>) -> ShapeView {
    if is_const_str_text(lit) {
        ShapeView::ConstStringPtr
    } else if is_mut_str_text(lit) {
        ShapeView::MutStringPtr
    } else if is_const_object_text(lit) {
        ShapeView::ConstObjectPtr
    } else if is_mut_object_text(lit) {
        ShapeView::MutObjectPtr
    } else if is_array_text(lit) {
        ShapeView::PointerArray
    } else if is_pointer_text(lit) {
        if pointee_text(lit) == "cty :: c_void"@ {
            ShapeView::VoidPtr
        } else {
            ShapeView::OtherPointer {
                inner: pointee_text(lit),
                mutable: "* mut"@.is_prefix_of(lit),
            }
        }
    } else {
        ShapeView::Value { name: lit }
    }
}

/// The four exact literals and the pointer-to-pointer prefixes exclude one another,
/// so each of the first five shapes is told by its own test alone. A pointer to a
/// constant string or base object is const-qualified; a pointer to a mutable one is not.
pub proof fn lemma_shapes_of_literals(lit: Seq<char>)
    ensures
        shape_of(lit) is ConstStringPtr <==> is_const_str_text(lit),
        shape_of(lit) is MutStringPtr <==> is_mut_str_text(lit),
        shape_of(lit) is ConstObjectPtr <==> is_const_object_text(lit),
        shape_of(lit) is MutObjectPtr <==> is_mut_object_text(lit),
        shape_of(lit) is PointerArray <==> is_array_text(lit),
        shape_of(lit) is Value <==> !is_pointer_text(lit),
        shape_of(lit) is ConstStringPtr || shape_of(lit) is ConstObjectPtr ==> is_const_text(lit),
        shape_of(lit) is MutStringPtr || shape_of(lit) is MutObjectPtr ==> !is_const_text(lit),
        shape_of(lit) matches ShapeView::OtherPointer { mutable, .. } ==> !(mutable
            && is_const_text(lit)),
{
    reveal_strlit("* const cty :: c_char");
    reveal_strlit("* mut cty :: c_char");
    reveal_strlit("* const lv_obj_t");
    reveal_strlit("* const _lv_obj_t");
    reveal_strlit("* mut lv_obj_t");
    reveal_strlit("* mut _lv_obj_t");
    reveal_strlit("* mut *");
    reveal_strlit("* const *");
    reveal_strlit("* mut");
    reveal_strlit("* const ");
    reveal_strlit("*");
    reveal_strlit("const ");
    if "* mut *"@.is_prefix_of(lit) {
        assert(lit.subrange(0, 7)[6] == lit[6]);
    }
    if "* const *"@.is_prefix_of(lit) {
        assert(lit.subrange(0, 9)[8] == lit[8]);
    }
    if "* mut"@.is_prefix_of(lit) {
        assert(lit.subrange(0, 5)[2] == lit[2]);
    }
}

/// The type of a parameter or of a return value, held as the token text of its literal.
#[derive(Debug)]
pub struct LvType {
    pub literal_name: String,
}

impl View for LvType {
    type V = Seq<char>;

    open spec fn view(&self) -> Seq<char> {
        self.literal_name@
    }
}

impl Clone for LvType {
    fn clone(&self) -> (copy: Self)
        ensures
            copy@ == self@,
    {
        LvType { literal_name: self.literal_name.clone() }
    }
}

impl LvType {
    pub fn new(literal_name: String) -> (ty: Self)
        ensures
            ty@ == literal_name@,
    {
        LvType { literal_name }
    }

    /// The type with the token text of a parsed type as its literal.
    pub fn from(r_type: Box<syn::Type>) -> (ty: Self)
        ensures
            ty@ == crate::syntax::type_text(*r_type),
    {
        LvType { literal_name: crate::syntax::type_tokens(&*r_type) }
    }

    pub fn is_const(&self) -> (yes: bool)
        ensures
            yes == is_const_text(self@),
    {
        begins_with(self.literal_name.as_str(), "const ") || begins_with(
            self.literal_name.as_str(),
            "* const ",
        )
    }

    pub fn is_const_str(&self) -> (yes: bool)
        ensures
            yes == is_const_str_text(self@),
    {
        same_text(self.literal_name.as_str(), "* const cty :: c_char")
    }

    pub fn is_mut_str(&self) -> (yes: bool)
        ensures
            yes == is_mut_str_text(self@),
    {
        same_text(self.literal_name.as_str(), "* mut cty :: c_char")
    }

    pub fn is_const_native_object(&self) -> (yes: bool)
        ensures
            yes == is_const_object_text(self@),
    {
        same_text(self.literal_name.as_str(), "* const lv_obj_t") || same_text(
            self.literal_name.as_str(),
            "* const _lv_obj_t",
        )
    }

    pub fn is_mut_native_object(&self) -> (yes: bool)
        ensures
            yes == is_mut_object_text(self@),
    {
        same_text(self.literal_name.as_str(), "* mut lv_obj_t") || same_text(
            self.literal_name.as_str(),
            "* mut _lv_obj_t",
        )
    }

    pub fn is_pointer(&self) -> (yes: bool)
        ensures
            yes == is_pointer_text(self@),
    {
        begins_with(self.literal_name.as_str(), "*")
    }

    pub fn is_array(&self) -> (yes: bool)
        ensures
            yes == is_array_text(self@),
    {
        begins_with(self.literal_name.as_str(), "* mut *") || begins_with(
            self.literal_name.as_str(),
            "* const *",
        )
    }

    /// Classifies the literal.
    pub fn shape(&self) -> (shape: TypeShape)
        ensures
            shape@ == shape_of(self@),
    {
        if self.is_const_str() {
            TypeShape::ConstStringPtr
        } else if self.is_mut_str() {
            TypeShape::MutStringPtr
        } else if self.is_const_native_object() {
            TypeShape::ConstObjectPtr
        } else if self.is_mut_native_object() {
            TypeShape::MutObjectPtr
        } else if self.is_array() {
            TypeShape::PointerArray
        } else if self.is_pointer() {
            let unconst = cut_all(self.literal_name.as_str(), "* const ");
            let inner = cut_all(unconst.as_str(), "* mut ");
            if same_text(inner.as_str(), "cty :: c_void") {
                TypeShape::VoidPtr
            } else {
                let mutable = begins_with(self.literal_name.as_str(), "* mut");
                TypeShape::OtherPointer { inner, mutable }
            }
        } else {
            TypeShape::Value { name: self.literal_name.clone() }
        }
    }
}

} // verus!
