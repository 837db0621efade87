use lvgl_codegen::{LvType, TypeShape};

fn shape(literal: &str) -> TypeShape {
    LvType::new(literal.to_string()).shape()
}

#[test]
fn string_pointers_are_told_by_their_exact_literal() {
    assert_eq!(shape("* const cty :: c_char"), TypeShape::ConstStringPtr);
    assert_eq!(shape("* mut cty :: c_char"), TypeShape::MutStringPtr);
    assert!(LvType::new("* const cty :: c_char".to_string()).is_const_str());
    assert!(LvType::new("* mut cty :: c_char".to_string()).is_mut_str());
    assert!(!LvType::new("*mut cty::c_char".to_string()).is_mut_str());
}

#[test]
fn object_pointers_are_known_under_both_spellings() {
    assert_eq!(shape("* const lv_obj_t"), TypeShape::ConstObjectPtr);
    assert_eq!(shape("* const _lv_obj_t"), TypeShape::ConstObjectPtr);
    assert_eq!(shape("* mut lv_obj_t"), TypeShape::MutObjectPtr);
    assert_eq!(shape("* mut _lv_obj_t"), TypeShape::MutObjectPtr);
    assert!(LvType::new("* const _lv_obj_t".to_string()).is_const_native_object());
    assert!(LvType::new("* mut _lv_obj_t".to_string()).is_mut_native_object());
    assert!(!LvType::new("* mut lv_obj_t".to_string()).is_const_native_object());
}

#[test]
fn pointer_to_pointer_is_an_array() {
    assert_eq!(shape("* mut * const cty :: c_char"), TypeShape::PointerArray);
    assert_eq!(shape("* mut * mut lv_obj_t"), TypeShape::PointerArray);
    assert_eq!(shape("* const * const cty :: c_char"), TypeShape::PointerArray);
    assert_eq!(shape("* const * mut lv_area_t"), TypeShape::PointerArray);
    assert!(LvType::new("* mut * mut lv_obj_t".to_string()).is_array());
    assert!(LvType::new("* const * const cty :: c_char".to_string()).is_array());
    assert!(LvType::new("* const * mut lv_area_t".to_string()).is_array());
    assert!(!LvType::new("* mut lv_obj_t".to_string()).is_array());
    assert!(!LvType::new("* const lv_obj_t".to_string()).is_array());
    assert!(!LvType::new("* const cty :: c_char".to_string()).is_array());
}

#[test]
fn opaque_pointer_is_told_after_stripping_qualifiers() {
    assert_eq!(shape("* mut cty :: c_void"), TypeShape::VoidPtr);
    assert_eq!(shape("* const cty :: c_void"), TypeShape::VoidPtr);
}

#[test]
fn other_pointers_carry_their_pointee_and_mutability() {
    assert_eq!(
        shape("* mut lv_style_t"),
        TypeShape::OtherPointer {
            inner: "lv_style_t".to_string(),
            mutable: true
        }
    );
    assert_eq!(
        shape("* const lv_area_t"),
        TypeShape::OtherPointer {
            inner: "lv_area_t".to_string(),
            mutable: false
        }
    );
}

#[test]
fn anything_else_is_a_value() {
    assert_eq!(
        shape("u16"),
        TypeShape::Value {
            name: "u16".to_string()
        }
    );
    assert_eq!(
        shape("cty :: c_void"),
        TypeShape::Value {
            name: "cty :: c_void".to_string()
        }
    );
    assert_eq!(
        shape(""),
        TypeShape::Value {
            name: "".to_string()
        }
    );
}

#[test]
fn constness_is_read_off_the_qualifier_at_the_start_of_the_literal() {
    assert!(LvType::new("const u8".to_string()).is_const());
    assert!(LvType::new("* const lv_obj_t".to_string()).is_const());
    assert!(LvType::new("* const _lv_obj_t".to_string()).is_const());
    assert!(LvType::new("* const cty :: c_char".to_string()).is_const());
    assert!(LvType::new("* const lv_area_t".to_string()).is_const());
    assert!(!LvType::new("* mut lv_obj_t".to_string()).is_const());
    assert!(!LvType::new("* mut * const lv_obj_t".to_string()).is_const());
    assert!(!LvType::new("constant".to_string()).is_const());
    assert!(!LvType::new("u8".to_string()).is_const());
    assert!(LvType::new("* const lv_obj_t".to_string()).is_pointer());
    assert!(!LvType::new("u8".to_string()).is_pointer());
}

#[test]
fn a_type_made_from_a_parsed_type_holds_its_token_text() {
    let parsed: syn::Type = syn::parse_str("*const lv_obj_t").unwrap();
    let ty = LvType::from(Box::new(parsed));
    assert_eq!(ty.literal_name, "* const lv_obj_t");
    let parsed: syn::Type = syn::parse_str("*mut cty::c_char").unwrap();
    let ty = LvType::from(Box::new(parsed));
    assert_eq!(ty.literal_name, "* mut cty :: c_char");
    assert!(ty.is_mut_str());
}
