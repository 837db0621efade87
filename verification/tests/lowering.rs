use lvgl_codegen::lower::{choose_reference_form, choose_return_form};
use lvgl_codegen::{
    Lowered, LvArg, LvFunc, LvType, LvWidget, Receiver, Rusty, SkipReason, TypeShape,
    WrapperError,
};

fn arg(name: &str, literal: &str) -> LvArg {
    LvArg::new(name.to_string(), LvType::new(literal.to_string()))
}

fn decl(name: &str, args: Vec<LvArg>, ret: Option<&str>) -> LvFunc {
    LvFunc::new(
        name.to_string(),
        args,
        ret.map(|literal| LvType::new(literal.to_string())),
    )
}

fn in_widget(name: &str) -> LvWidget {
    LvWidget {
        name: name.to_string(),
        methods: vec![],
    }
}

fn operation(lowered: Lowered) -> lvgl_codegen::LoweredOperation {
    match lowered {
        Lowered::Method(op) => op,
        Lowered::Constructor { .. } => panic!("a constructor came out"),
    }
}

#[test]
fn receiver_is_exclusive_for_a_mutable_object_pointer() {
    let f = decl("lv_arc_set_value", vec![arg("arc", "* mut lv_obj_t"), arg("v", "i16")], None);
    let op = operation(f.lower("arc").unwrap());
    assert_eq!(op.receiver, Receiver::Exclusive);
    assert_eq!(op.params[0], "& mut self");
}

#[test]
fn receiver_is_shared_for_a_const_object_pointer() {
    let f = decl("lv_arc_get_value", vec![arg("arc", "* const lv_obj_t")], Some("i16"));
    let op = operation(f.lower("arc").unwrap());
    assert_eq!(op.receiver, Receiver::Shared);
    assert_eq!(op.params, vec!["& self"]);
    assert_eq!(
        f.code(&in_widget("arc")).unwrap(),
        "pub fn get_value (& self) -> i16 { unsafe { lvgl_sys :: lv_arc_get_value (self . core . raw () . as_mut ()) } }"
    );
    let g = decl("lv_arc_get_value", vec![arg("arc", "* const _lv_obj_t")], Some("i16"));
    let op = operation(g.lower("arc").unwrap());
    assert_eq!(op.receiver, Receiver::Shared);
    assert_eq!(op.params, vec!["& self"]);
}

#[test]
fn receiver_follows_the_qualifier_of_any_first_pointer() {
    let shared = decl("lv_arc_area", vec![arg("a", "* const lv_area_t")], None);
    assert_eq!(operation(shared.lower("arc").unwrap()).receiver, Receiver::Shared);
    let exclusive = decl("lv_arc_area", vec![arg("a", "* mut lv_area_t")], None);
    assert_eq!(operation(exclusive.lower("arc").unwrap()).receiver, Receiver::Exclusive);
    let value = decl("lv_arc_area", vec![arg("a", "u8")], None);
    assert_eq!(operation(value.lower("arc").unwrap()).receiver, Receiver::Exclusive);
}

#[test]
fn receiver_is_shared_where_the_literal_begins_with_const() {
    let f = decl("lv_arc_get_value", vec![arg("arc", "const lv_obj_t")], Some("i16"));
    let op = operation(f.lower("arc").unwrap());
    assert_eq!(op.receiver, Receiver::Shared);
    assert_eq!(op.params, vec!["& self"]);
    assert_eq!(
        f.code(&in_widget("arc")).unwrap(),
        "pub fn get_value (& self) -> i16 { unsafe { lvgl_sys :: lv_arc_get_value (self . core . raw () . as_mut ()) } }"
    );
}

#[test]
fn a_declaration_without_parameters_has_no_receiver() {
    let f = decl("lv_arc_init", vec![], None);
    let op = operation(f.lower("arc").unwrap());
    assert_eq!(op.receiver, Receiver::Absent);
    assert!(op.params.is_empty());
    assert!(op.call_args.is_empty());
    assert_eq!(
        f.code(&in_widget("arc")).unwrap(),
        "pub fn init () -> () { unsafe { lvgl_sys :: lv_arc_init () ; } }"
    );
}

#[test]
fn a_mutable_string_is_detached_before_and_reattached_after_the_call() {
    let f = decl(
        "lv_dropdown_get_selected_str",
        vec![
            arg("obj", "* const lv_obj_t"),
            arg("buf", "* mut cty :: c_char"),
            arg("buf_size", "u32"),
        ],
        None,
    );
    let op = operation(f.lower("dropdown").unwrap());
    assert_eq!(op.identifier, "get_selected_str");
    assert!(op.public);
    assert_eq!(op.pre_steps, vec!["let buf_raw = buf . clone () . into_raw () ;"]);
    assert_eq!(
        op.post_steps,
        vec!["* buf = cstr_core :: CString :: from_raw (buf_raw) ;"]
    );
    assert_eq!(
        op.params,
        vec!["& self", "buf : & mut cstr_core :: CString", "buf_size : u32"]
    );
    assert_eq!(
        op.call_args,
        vec!["self . core . raw () . as_mut ()", "buf_raw", "buf_size"]
    );
    assert_eq!(op.native, "lv_dropdown_get_selected_str");
    assert_eq!(op.return_type, "()");
    assert!(op.statement);

    let text = f.code(&in_widget("dropdown")).unwrap();
    let detach = text.find("let buf_raw =").unwrap();
    let call = text.find("lvgl_sys :: lv_dropdown_get_selected_str").unwrap();
    let reattach = text.find("* buf = cstr_core").unwrap();
    assert!(detach < call && call < reattach);
    assert_eq!(text.matches("into_raw").count(), 1);
    assert_eq!(text.matches("from_raw").count(), 1);
}

#[test]
fn two_mutable_strings_are_handed_over_in_order() {
    let f = decl(
        "lv_label_swap",
        vec![
            arg("obj", "* mut lv_obj_t"),
            arg("a", "* mut cty :: c_char"),
            arg("b", "* mut cty :: c_char"),
        ],
        None,
    );
    let op = operation(f.lower("label").unwrap());
    assert_eq!(
        op.pre_steps,
        vec![
            "let a_raw = a . clone () . into_raw () ;",
            "let b_raw = b . clone () . into_raw () ;"
        ]
    );
    assert_eq!(
        op.post_steps,
        vec![
            "* a = cstr_core :: CString :: from_raw (a_raw) ;",
            "* b = cstr_core :: CString :: from_raw (b_raw) ;"
        ]
    );
    assert_eq!(
        f.code(&in_widget("label")).unwrap(),
        "pub fn swap (& mut self , a : & mut cstr_core :: CString , b : & mut cstr_core :: CString) -> () { unsafe { let a_raw = a . clone () . into_raw () ; let b_raw = b . clone () . into_raw () ; lvgl_sys :: lv_label_swap (self . core . raw () . as_mut () , a_raw , b_raw) ; * a = cstr_core :: CString :: from_raw (a_raw) ; * b = cstr_core :: CString :: from_raw (b_raw) ; } }"
    );
}

#[test]
fn a_pointer_return_is_skipped() {
    let f = decl(
        "lv_obj_get_screen",
        vec![arg("obj", "* const lv_obj_t")],
        Some("* mut lv_obj_t"),
    );
    assert_eq!(f.lower("obj"), Err(WrapperError::Skip(SkipReason::PointerReturn)));
    assert!(matches!(f.code(&in_widget("obj")), Err(WrapperError::Skip(SkipReason::PointerReturn))));
    let g = decl(
        "lv_label_get_text",
        vec![arg("obj", "* const lv_obj_t")],
        Some("* mut cty :: c_char"),
    );
    assert_eq!(g.lower("label"), Err(WrapperError::Skip(SkipReason::PointerReturn)));
}

#[test]
fn a_pointer_array_parameter_is_skipped() {
    let f = decl(
        "lv_btnmatrix_set_map",
        vec![
            arg("obj", "* mut lv_obj_t"),
            arg("map", "* mut * const cty :: c_char"),
        ],
        None,
    );
    assert_eq!(f.lower("btnmatrix"), Err(WrapperError::Skip(SkipReason::PointerArray)));
    let g = decl(
        "lv_btnmatrix_get_map",
        vec![
            arg("obj", "* const lv_obj_t"),
            arg("map", "* const * const cty :: c_char"),
        ],
        None,
    );
    assert_eq!(g.lower("btnmatrix"), Err(WrapperError::Skip(SkipReason::PointerArray)));
    assert!(matches!(
        g.code(&in_widget("btnmatrix")),
        Err(WrapperError::Skip(SkipReason::PointerArray))
    ));
    let h = decl(
        "lv_btnmatrix_set_areas",
        vec![arg("obj", "* mut lv_obj_t"), arg("areas", "* const * mut lv_area_t")],
        None,
    );
    assert_eq!(h.lower("btnmatrix"), Err(WrapperError::Skip(SkipReason::PointerArray)));
    let ty = LvType::new("* const * const cty :: c_char".to_string());
    assert_eq!(
        ty.code(&arg("map", "* const * const cty :: c_char")),
        Err(WrapperError::Skip(SkipReason::PointerArray))
    );
    let ty = LvType::new("* mut * mut lv_obj_t".to_string());
    assert_eq!(
        ty.code(&arg("objs", "* mut * mut lv_obj_t")),
        Err(WrapperError::Skip(SkipReason::PointerArray))
    );
}

#[test]
fn an_opaque_pointer_parameter_is_skipped() {
    let f = decl(
        "lv_obj_set_user_data",
        vec![
            arg("obj", "* mut lv_obj_t"),
            arg("data", "* mut cty :: c_void"),
        ],
        None,
    );
    assert_eq!(f.lower("obj"), Err(WrapperError::Skip(SkipReason::OpaquePointer)));
    let g = decl(
        "lv_img_set_src",
        vec![
            arg("obj", "* mut lv_obj_t"),
            arg("src", "* const cty :: c_void"),
        ],
        None,
    );
    assert_eq!(g.lower("img"), Err(WrapperError::Skip(SkipReason::OpaquePointer)));
}

#[test]
fn a_parameter_that_reads_as_no_type_path_is_an_error() {
    let f = decl(
        "lv_arc_set_pair",
        vec![arg("obj", "* mut lv_obj_t"), arg("pair", "[u8 ; 2]")],
        None,
    );
    assert_eq!(f.lower("arc"), Err(WrapperError::UnreadableType));
    let g = decl(
        "lv_arc_set_ref",
        vec![arg("obj", "* mut lv_obj_t"), arg("r", "*mut lv_style_t")],
        None,
    );
    assert_eq!(g.lower("arc"), Err(WrapperError::UnreadableType));
}

#[test]
fn a_return_type_that_reads_as_no_type_is_an_error() {
    let f = decl("lv_arc_get", vec![arg("obj", "* mut lv_obj_t")], Some("u8 u8"));
    assert_eq!(f.lower("arc"), Err(WrapperError::UnreadableType));
}

#[test]
fn the_first_failing_part_decides() {
    let f = decl(
        "lv_arc_set",
        vec![
            arg("obj", "* mut lv_obj_t"),
            arg("a", "[u8 ; 2]"),
            arg("b", "* mut cty :: c_void"),
        ],
        None,
    );
    assert_eq!(f.lower("arc"), Err(WrapperError::UnreadableType));
    let g = decl(
        "lv_arc_set",
        vec![
            arg("obj", "* mut lv_obj_t"),
            arg("b", "* mut cty :: c_void"),
            arg("a", "[u8 ; 2]"),
        ],
        None,
    );
    assert_eq!(g.lower("arc"), Err(WrapperError::Skip(SkipReason::OpaquePointer)));
    let h = decl(
        "lv_arc_set",
        vec![arg("obj", "* mut lv_obj_t"), arg("a", "[u8 ; 2]")],
        Some("* mut lv_obj_t"),
    );
    assert_eq!(h.lower("arc"), Err(WrapperError::Skip(SkipReason::PointerReturn)));
}

#[test]
fn types_are_written_as_they_read() {
    let f = decl(
        "lv_arc_set_angle",
        vec![arg("obj", "* mut lv_obj_t"), arg("angle", "cty::c_int")],
        Some("cty::c_uint"),
    );
    let op = operation(f.lower("arc").unwrap());
    assert_eq!(op.params[1], "angle : cty :: c_int");
    assert_eq!(op.return_type, "cty :: c_uint");
    assert!(!op.statement);
}

#[test]
fn other_pointers_become_references() {
    let f = decl(
        "lv_obj_add_style",
        vec![
            arg("obj", "* mut lv_obj_t"),
            arg("style", "* mut lv_style_t"),
            arg("area", "* const lv_area_t"),
        ],
        None,
    );
    let op = operation(f.lower("obj").unwrap());
    assert_eq!(
        op.params,
        vec![
            "& mut self",
            "style : & mut lv_style_t",
            "area : & lv_area_t"
        ]
    );
    assert_eq!(
        op.call_args,
        vec!["self . raw () . as_mut ()", "style", "area"]
    );
}

#[test]
fn object_parameters_are_passed_by_their_handles() {
    let f = decl(
        "lv_obj_swap",
        vec![
            arg("obj", "* mut lv_obj_t"),
            arg("other", "* mut _lv_obj_t"),
            arg("base", "* const lv_obj_t"),
            arg("text", "* const cty :: c_char"),
        ],
        None,
    );
    let op = operation(f.lower("label").unwrap());
    assert_eq!(op.identifier, "lv_obj_swap");
    assert_eq!(
        op.params,
        vec![
            "& mut self",
            "other : & mut impl NativeObject",
            "base : & impl NativeObject",
            "text : & cstr_core :: CStr"
        ]
    );
    assert_eq!(
        op.call_args,
        vec![
            "self . core . raw () . as_mut ()",
            "other . raw () . as_mut ()",
            "base . raw () . as_ref ()",
            "text . as_ptr ()"
        ]
    );
}

#[test]
fn a_keyword_is_bound_under_its_raw_name() {
    let a = arg("type", "u8");
    assert_eq!(a.get_name_ident(), "r#type");
    assert_eq!(a.get_value_usage(), "r#type");
    assert_eq!(a.code(&decl("f", vec![], None)).unwrap(), "r#type : u8");
    let b = arg("value", "u8");
    assert_eq!(b.get_name_ident(), "value");
    let c = arg("type", "* mut cty :: c_char");
    assert_eq!(c.get_value_usage(), "type_raw");
    assert_eq!(
        c.get_preprocessing(),
        "let type_raw = type . clone () . into_raw () ;"
    );
    assert_eq!(
        c.get_postprocessing(),
        "* type = cstr_core :: CString :: from_raw (type_raw) ;"
    );
    assert_eq!(b.get_preprocessing(), "");
    assert_eq!(b.get_postprocessing(), "");
    assert_eq!(b.get_type().literal_name, "u8");
}

#[test]
fn escape_name_follows_what_it_is_told() {
    assert_eq!(lvgl_codegen::decl::escape_name("x", true), "x");
    assert_eq!(lvgl_codegen::decl::escape_name("x", false), "r#x");
}

#[test]
fn reference_form_for_each_shape() {
    let form = |shape: TypeShape, reading: Option<&str>| {
        choose_reference_form(&shape, reading.map(|r| r.to_string()))
    };
    assert_eq!(
        form(TypeShape::ConstStringPtr, None).unwrap(),
        "& cstr_core :: CStr"
    );
    assert_eq!(
        form(TypeShape::MutStringPtr, None).unwrap(),
        "& mut cstr_core :: CString"
    );
    assert_eq!(
        form(TypeShape::ConstObjectPtr, None).unwrap(),
        "& impl NativeObject"
    );
    assert_eq!(
        form(TypeShape::MutObjectPtr, Some("x")).unwrap(),
        "& mut impl NativeObject"
    );
    assert_eq!(form(TypeShape::PointerArray, Some("x")), Err(WrapperError::Skip(SkipReason::PointerArray)));
    assert_eq!(form(TypeShape::VoidPtr, Some("x")), Err(WrapperError::Skip(SkipReason::OpaquePointer)));
    let other = |mutable: bool| TypeShape::OtherPointer {
        inner: "a".to_string(),
        mutable,
    };
    assert_eq!(form(other(true), Some("b")).unwrap(), "& mut b");
    assert_eq!(form(other(false), Some("b")).unwrap(), "& b");
    assert_eq!(form(other(true), None), Err(WrapperError::UnreadableType));
    let value = TypeShape::Value {
        name: "a".to_string(),
    };
    assert_eq!(form(value, Some("b")).unwrap(), "b");
    let value = TypeShape::Value {
        name: "a".to_string(),
    };
    assert_eq!(form(value, None), Err(WrapperError::UnreadableType));
}

#[test]
fn return_form_for_each_case() {
    let ty = |literal: &str| Some(LvType::new(literal.to_string()));
    assert_eq!(choose_return_form(&None, None).unwrap(), "()");
    assert_eq!(choose_return_form(&None, Some("x".to_string())).unwrap(), "()");
    assert_eq!(
        choose_return_form(&ty("* mut x"), Some("y".to_string())),
        Err(WrapperError::Skip(SkipReason::PointerReturn))
    );
    assert_eq!(
        choose_return_form(&ty("bool"), Some("y".to_string())).unwrap(),
        "y"
    );
    assert_eq!(
        choose_return_form(&ty("bool"), None),
        Err(WrapperError::UnreadableType)
    );
}

#[test]
fn the_operation_name_loses_the_first_namespace_only() {
    let f = decl("lv_arc_lv_arc_reset", vec![arg("obj", "* mut lv_obj_t")], None);
    let op = operation(f.lower("arc").unwrap());
    assert_eq!(op.identifier, "lv_arc_reset");
    let g = decl("get_lv_arc_value", vec![arg("obj", "* mut lv_obj_t")], None);
    let op = operation(g.lower("arc").unwrap());
    assert_eq!(op.identifier, "get_value");
}

#[test]
fn a_constructor_yields_create_and_new() {
    let f = decl(
        "lv_arc_create",
        vec![arg("parent", "* mut lv_obj_t")],
        Some("* mut lv_obj_t"),
    );
    assert_eq!(
        f.lower("arc").unwrap(),
        Lowered::Constructor {
            native: "lv_arc_create".to_string()
        }
    );
    let text = f.code(&in_widget("arc")).unwrap();
    assert_eq!(
        text,
        "pub fn create (parent : & mut impl crate :: NativeObject) -> crate :: LvResult < Self > { unsafe { let ptr = lvgl_sys :: lv_arc_create (parent . raw () . as_mut () ,) ; if let Some (raw) = core :: ptr :: NonNull :: new (ptr) { let core = < crate :: Obj as Widget > :: from_raw (raw) . unwrap () ; Ok (Self { core }) } else { Err (crate :: LvError :: InvalidReference) } } } pub fn new () -> crate :: LvResult < Self > { let mut parent = crate :: display :: get_scr_act () ? ; Self :: create (& mut parent) }"
    );
    assert_eq!(text.matches("pub fn create (parent").count(), 1);
    assert_eq!(text.matches("pub fn new ()").count(), 1);
    assert!(text.contains("Err (crate :: LvError :: InvalidReference)"));
}

#[test]
fn the_root_widget_gets_no_constructor() {
    let f = decl(
        "lv_obj_create",
        vec![arg("parent", "* mut lv_obj_t")],
        Some("* mut lv_obj_t"),
    );
    assert_eq!(f.lower("obj"), Err(WrapperError::Skip(SkipReason::RootConstructor)));
    let root = LvWidget {
        name: "obj".to_string(),
        methods: vec![f],
    };
    let text = root.code(&()).unwrap();
    assert!(!text.contains("create"));
    assert!(!text.contains("fn new"));
}

#[test]
fn the_root_widget_gets_no_create_whatever_it_returns() {
    let no_return = decl("lv_obj_create", vec![arg("parent", "* mut lv_obj_t")], None);
    assert_eq!(
        no_return.lower("obj"),
        Err(WrapperError::Skip(SkipReason::RootConstructor))
    );
    let value_return = decl(
        "lv_obj_create",
        vec![arg("parent", "* mut lv_obj_t"), arg("n", "u8")],
        Some("u32"),
    );
    assert_eq!(
        value_return.lower("obj"),
        Err(WrapperError::Skip(SkipReason::RootConstructor))
    );
    assert!(matches!(
        value_return.code(&in_widget("obj")),
        Err(WrapperError::Skip(SkipReason::RootConstructor))
    ));
    let without_args = decl("lv_obj_create", vec![], None);
    assert_eq!(
        without_args.lower("obj"),
        Err(WrapperError::Skip(SkipReason::RootConstructor))
    );
    let set = decl(
        "lv_obj_set_width",
        vec![arg("obj", "* mut lv_obj_t"), arg("w", "lv_coord_t")],
        None,
    );
    let root = LvWidget {
        name: "obj".to_string(),
        methods: vec![no_return, set, value_return],
    };
    assert_eq!(
        root.code(&()).unwrap(),
        "pub trait Widget < 'a > : NativeObject + Sized + 'a { type SpecialEvent ; type Part : Into < lvgl_sys :: lv_part_t > ; unsafe fn from_raw (raw_pointer : core :: ptr :: NonNull < lvgl_sys :: lv_obj_t >) -> Option < Self > ; fn set_width (& mut self , w : lv_coord_t) -> () { unsafe { lvgl_sys :: lv_obj_set_width (self . raw () . as_mut () , w) ; } } }"
    );
    let elsewhere = decl("lv_obj_create", vec![arg("parent", "* mut lv_obj_t")], None);
    let op = operation(elsewhere.lower("arc").unwrap());
    assert_eq!(op.identifier, "lv_obj_create");
}

#[test]
fn root_operations_carry_no_visibility_and_reach_the_own_handle() {
    let f = decl(
        "lv_obj_set_width",
        vec![arg("obj", "* mut lv_obj_t"), arg("w", "lv_coord_t")],
        None,
    );
    let op = operation(f.lower("obj").unwrap());
    assert!(!op.public);
    assert_eq!(
        f.code(&in_widget("obj")).unwrap(),
        "fn set_width (& mut self , w : lv_coord_t) -> () { unsafe { lvgl_sys :: lv_obj_set_width (self . raw () . as_mut () , w) ; } }"
    );
}

#[test]
fn the_root_module_is_an_interface() {
    let f = decl(
        "lv_obj_set_width",
        vec![arg("obj", "* mut lv_obj_t"), arg("w", "lv_coord_t")],
        None,
    );
    let skipped = decl(
        "lv_obj_get_parent",
        vec![arg("obj", "* const lv_obj_t")],
        Some("* mut lv_obj_t"),
    );
    let root = LvWidget {
        name: "obj".to_string(),
        methods: vec![skipped, f],
    };
    assert_eq!(
        root.code(&()).unwrap(),
        "pub trait Widget < 'a > : NativeObject + Sized + 'a { type SpecialEvent ; type Part : Into < lvgl_sys :: lv_part_t > ; unsafe fn from_raw (raw_pointer : core :: ptr :: NonNull < lvgl_sys :: lv_obj_t >) -> Option < Self > ; fn set_width (& mut self , w : lv_coord_t) -> () { unsafe { lvgl_sys :: lv_obj_set_width (self . raw () . as_mut () , w) ; } } }"
    );
    let empty = in_widget("obj");
    assert_eq!(
        empty.code(&()).unwrap(),
        "pub trait Widget < 'a > : NativeObject + Sized + 'a { type SpecialEvent ; type Part : Into < lvgl_sys :: lv_part_t > ; unsafe fn from_raw (raw_pointer : core :: ptr :: NonNull < lvgl_sys :: lv_obj_t >) -> Option < Self > ; }"
    );
}

#[test]
fn a_widget_module_leaves_out_what_is_skipped_and_fails_on_what_does_not_read() {
    let set = decl(
        "lv_bar_set_value",
        vec![arg("obj", "* mut lv_obj_t"), arg("v", "i32")],
        None,
    );
    let skipped = decl(
        "lv_bar_get_parent",
        vec![arg("obj", "* const lv_obj_t")],
        Some("* mut lv_obj_t"),
    );
    let get = decl("lv_bar_get_value", vec![arg("obj", "* const lv_obj_t")], Some("i32"));
    let bar = LvWidget {
        name: "bar".to_string(),
        methods: vec![set.clone(), skipped, get],
    };
    assert_eq!(bar.pascal_name(), "Bar");
    assert_eq!(
        bar.code(&()).unwrap(),
        "define_object ! (Bar) ; impl < 'a > Bar < 'a > { pub fn set_value (& mut self , v : i32) -> () { unsafe { lvgl_sys :: lv_bar_set_value (self . core . raw () . as_mut () , v) ; } } pub fn get_value (& self) -> i32 { unsafe { lvgl_sys :: lv_bar_get_value (self . core . raw () . as_mut ()) } } }"
    );
    let unreadable = decl(
        "lv_bar_set_pair",
        vec![arg("obj", "* mut lv_obj_t"), arg("pair", "[u8 ; 2]")],
        None,
    );
    let broken = LvWidget {
        name: "bar".to_string(),
        methods: vec![set, unreadable],
    };
    assert!(matches!(broken.code(&()), Err(WrapperError::UnreadableType)));
}

#[test]
fn pascal_names_come_from_snake_names() {
    let w = in_widget("btn_matrix");
    assert_eq!(w.pascal_name(), "BtnMatrix");
    assert_eq!(
        w.code(&()).unwrap(),
        "define_object ! (BtnMatrix) ; impl < 'a > BtnMatrix < 'a > { }"
    );
}

#[test]
fn a_declaration_is_a_method_where_its_first_type_names_the_base_object() {
    assert!(decl("f", vec![arg("o", "* mut lv_obj_t")], None).is_method());
    assert!(decl("f", vec![arg("o", "*const _lv_obj_t"), arg("x", "u8")], None).is_method());
    assert!(!decl("f", vec![arg("x", "u8"), arg("o", "* mut lv_obj_t")], None).is_method());
    assert!(!decl("f", vec![], None).is_method());
}
