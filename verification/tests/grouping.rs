use lvgl_codegen::codegen::widget_names_matching;
use lvgl_codegen::group::{attach, group_widgets};
use lvgl_codegen::{CodeGen, CodeGenError, LvArg, LvFunc, LvType, LvWidget};

fn arg(name: &str, literal: &str) -> LvArg {
    LvArg::new(name.to_string(), LvType::new(literal.to_string()))
}

fn method(name: &str) -> LvFunc {
    LvFunc::new(name.to_string(), vec![arg("obj", "* mut lv_obj_t")], None)
}

fn names_of(widgets: &[LvWidget]) -> Vec<String> {
    widgets.iter().map(|w| w.name.clone()).collect()
}

fn methods_of(widget: &LvWidget) -> Vec<String> {
    widget.methods.iter().map(|m| m.name.clone()).collect()
}

#[test]
fn widgets_are_discovered_from_single_parameter_constructors() {
    let funcs = vec![
        LvFunc::new("lv_obj_create".to_string(), vec![arg("parent", "* mut lv_obj_t")], None),
        LvFunc::new("lv_btn_create".to_string(), vec![arg("parent", "* mut lv_obj_t")], None),
        LvFunc::new(
            "lv_btn_create".to_string(),
            vec![arg("parent", "* mut lv_obj_t"), arg("copy", "* const lv_obj_t")],
            None,
        ),
        LvFunc::new("lv_do_something".to_string(), vec![arg("x", "u8")], None),
    ];
    assert_eq!(CodeGen::get_widget_names(&funcs), vec!["obj", "btn"]);
}

#[test]
fn names_with_a_separator_or_another_frame_are_not_discovered() {
    let funcs = vec![
        method("lv_btn_matrix_create"),
        method("lv__create"),
        method("lv_create"),
        method("xlv_btn_create"),
        method("lv_btn_create_"),
        method("lv_btn_created"),
        method("lv_arc_create"),
        LvFunc::new("lv_bar_create".to_string(), vec![], None),
    ];
    assert_eq!(CodeGen::get_widget_names(&funcs), vec!["arc"]);
}

#[test]
fn names_matching_follows_the_pattern_it_is_given() {
    let funcs = vec![method("make_arc"), method("make_bar"), method("lv_arc_create")];
    let re = regex::Regex::new("^make_(.+)$").unwrap();
    assert_eq!(widget_names_matching(&funcs, &re), vec!["arc", "bar"]);
}

#[test]
fn declarations_go_under_the_namespace_they_begin_with() {
    let funcs = vec![
        method("lv_obj_create"),
        method("lv_btn_create"),
        method("lv_obj_set_width"),
        method("lv_btn_set_state"),
        method("lv_btnmatrix_set_map"),
        LvFunc::new("lv_btn_count".to_string(), vec![arg("x", "u8")], None),
        LvFunc::new("lv_btn_init".to_string(), vec![], None),
        method("lv_obj_set_height"),
    ];
    let widgets = CodeGen::extract_widgets(&funcs);
    assert_eq!(names_of(&widgets), vec!["obj", "btn"]);
    assert_eq!(
        methods_of(&widgets[0]),
        vec!["lv_obj_create", "lv_obj_set_width", "lv_obj_set_height"]
    );
    assert_eq!(methods_of(&widgets[1]), vec!["lv_btn_create", "lv_btn_set_state"]);
}

#[test]
fn widgets_come_in_the_order_of_their_first_method() {
    let funcs = vec![method("lv_b_x"), method("lv_a_x"), method("lv_b_y"), method("lv_c_x")];
    let names = vec!["a".to_string(), "b".to_string(), "c".to_string(), "d".to_string()];
    let widgets = group_widgets(&funcs, &names);
    assert_eq!(names_of(&widgets), vec!["b", "a", "c"]);
    assert_eq!(methods_of(&widgets[0]), vec!["lv_b_x", "lv_b_y"]);
    assert_eq!(methods_of(&widgets[1]), vec!["lv_a_x"]);
    assert_eq!(methods_of(&widgets[2]), vec!["lv_c_x"]);
}

#[test]
fn a_declaration_goes_under_every_name_whose_namespace_it_begins_with() {
    let funcs = vec![method("lv_btn_matrix_set")];
    let names = vec!["btn".to_string(), "btn_matrix".to_string(), "matrix".to_string()];
    let widgets = group_widgets(&funcs, &names);
    assert_eq!(names_of(&widgets), vec!["btn", "btn_matrix"]);
    assert_eq!(methods_of(&widgets[0]), vec!["lv_btn_matrix_set"]);
    assert_eq!(methods_of(&widgets[1]), vec!["lv_btn_matrix_set"]);
}

#[test]
fn grouping_nothing_gives_nothing() {
    assert!(group_widgets(&[], &vec!["a".to_string()]).is_empty());
    assert!(group_widgets(&[method("lv_a_x")], &vec![]).is_empty());
    assert!(CodeGen::extract_widgets(&[]).is_empty());
}

#[test]
fn attach_appends_to_the_widget_or_adds_it() {
    let mut widgets: Vec<LvWidget> = Vec::new();
    attach(&mut widgets, "a", &method("lv_a_1"));
    attach(&mut widgets, "b", &method("lv_b_1"));
    attach(&mut widgets, "a", &method("lv_a_2"));
    assert_eq!(names_of(&widgets), vec!["a", "b"]);
    assert_eq!(methods_of(&widgets[0]), vec!["lv_a_1", "lv_a_2"]);
    assert_eq!(methods_of(&widgets[1]), vec!["lv_b_1"]);
}

#[test]
fn loading_keeps_the_toolkit_functions_of_foreign_blocks() {
    let code = r#"
        pub fn lv_outside(obj: *mut lv_obj_t);
        pub struct lv_obj_t { _private: [u8; 0] }
        extern "C" {
            pub static lv_font_default: u8;
            pub fn lv_obj_create(parent: *mut lv_obj_t) -> *mut lv_obj_t;
            pub fn other_function(x: u8);
            pub fn lv_obj_set_width(obj: *mut _lv_obj_t, w: lv_coord_t);
        }
        extern "C" {
            pub fn lv_label_set_text(obj: *mut lv_obj_t, text: *const cty::c_char) -> bool;
        }
    "#
    .replace("pub fn lv_outside(obj: *mut lv_obj_t);", "pub fn lv_outside() {}");
    let fns = CodeGen::load_func_defs(&code).unwrap();
    let names: Vec<&str> = fns.iter().map(|f| f.name.as_str()).collect();
    assert_eq!(names, vec!["lv_obj_create", "lv_obj_set_width", "lv_label_set_text"]);
    assert_eq!(fns[0].args.len(), 1);
    assert_eq!(fns[0].args[0].name, "parent");
    assert_eq!(fns[0].args[0].typ.literal_name, "* mut lv_obj_t");
    assert_eq!(fns[0].ret.as_ref().unwrap().literal_name, "* mut lv_obj_t");
    assert_eq!(fns[1].args[0].typ.literal_name, "* mut _lv_obj_t");
    assert_eq!(fns[1].args[1].name, "w");
    assert_eq!(fns[1].args[1].typ.literal_name, "lv_coord_t");
    assert!(fns[1].ret.is_none());
    assert_eq!(fns[2].args[1].typ.literal_name, "* const cty :: c_char");
    assert_eq!(fns[2].ret.as_ref().unwrap().literal_name, "bool");
}

#[test]
fn loading_malformed_text_fails() {
    assert!(matches!(
        CodeGen::load_func_defs("extern \"C\" { pub fn lv_x( }"),
        Err(CodeGenError::Malformed)
    ));
    assert!(matches!(CodeGen::from("fn ("), Err(CodeGenError::Malformed)));
    assert!(matches!(CodeGen::generate("\"open"), Err(CodeGenError::Malformed)));
    assert!(CodeGen::load_func_defs("").unwrap().is_empty());
}

#[test]
fn a_generator_holds_its_functions_and_widgets() {
    let code = r#"
        extern "C" {
            pub fn lv_obj_create(parent: *mut lv_obj_t) -> *mut lv_obj_t;
            pub fn lv_arc_create(parent: *mut lv_obj_t) -> *mut lv_obj_t;
            pub fn lv_arc_set_value(obj: *mut lv_obj_t, value: i16);
            pub fn lv_tick_inc(ms: u32);
        }
    "#;
    let generator = CodeGen::from(code).unwrap();
    assert_eq!(
        generator.get_function_names().unwrap(),
        vec!["lv_obj_create", "lv_arc_create", "lv_arc_set_value", "lv_tick_inc"]
    );
    let widgets = generator.get_widgets();
    assert_eq!(names_of(widgets), vec!["obj", "arc"]);
    assert_eq!(methods_of(&widgets[0]), vec!["lv_obj_create"]);
    assert_eq!(methods_of(&widgets[1]), vec!["lv_arc_create", "lv_arc_set_value"]);
}

#[test]
fn the_generator_writes_one_module_for_each_widget() {
    let code = r#"
        extern "C" {
            pub fn lv_obj_create(parent: *mut lv_obj_t) -> *mut lv_obj_t;
            pub fn lv_obj_set_width(obj: *mut lv_obj_t, w: lv_coord_t);
            pub fn lv_arc_create(parent: *mut lv_obj_t) -> *mut lv_obj_t;
            pub fn lv_arc_get_value(obj: *const lv_obj_t) -> i16;
            pub fn lv_arc_set_map(obj: *mut lv_obj_t, map: *mut *const cty::c_char);
        }
    "#;
    let modules = CodeGen::generate(code).unwrap();
    assert_eq!(
        modules,
        vec![
            "pub trait Widget < 'a > : NativeObject + Sized + 'a { type SpecialEvent ; type Part : Into < lvgl_sys :: lv_part_t > ; unsafe fn from_raw (raw_pointer : core :: ptr :: NonNull < lvgl_sys :: lv_obj_t >) -> Option < Self > ; fn set_width (& mut self , w : lv_coord_t) -> () { unsafe { lvgl_sys :: lv_obj_set_width (self . raw () . as_mut () , w) ; } } }",
            "define_object ! (Arc) ; impl < 'a > Arc < 'a > { pub fn create (parent : & mut impl crate :: NativeObject) -> crate :: LvResult < Self > { unsafe { let ptr = lvgl_sys :: lv_arc_create (parent . raw () . as_mut () ,) ; if let Some (raw) = core :: ptr :: NonNull :: new (ptr) { let core = < crate :: Obj as Widget > :: from_raw (raw) . unwrap () ; Ok (Self { core }) } else { Err (crate :: LvError :: InvalidReference) } } } pub fn new () -> crate :: LvResult < Self > { let mut parent = crate :: display :: get_scr_act () ? ; Self :: create (& mut parent) } pub fn get_value (& self) -> i16 { unsafe { lvgl_sys :: lv_arc_get_value (self . core . raw () . as_mut ()) } } }"
        ]
    );
    for module in &modules {
        assert!(module.parse::<proc_macro2::TokenStream>().is_ok());
    }
}

#[test]
fn the_generator_gives_the_same_text_for_the_same_input() {
    let code = r#"
        extern "C" {
            pub fn lv_obj_create(parent: *mut lv_obj_t) -> *mut lv_obj_t;
            pub fn lv_btn_create(parent: *mut lv_obj_t) -> *mut lv_obj_t;
            pub fn lv_bar_create(parent: *mut lv_obj_t) -> *mut lv_obj_t;
            pub fn lv_bar_set_value(obj: *mut lv_obj_t, v: i32);
            pub fn lv_btn_set_text(obj: *mut lv_obj_t, text: *mut cty::c_char);
            pub fn lv_obj_set_x(obj: *mut lv_obj_t, x: lv_coord_t);
        }
    "#;
    let first = CodeGen::generate(code).unwrap();
    let second = CodeGen::generate(code).unwrap();
    assert_eq!(first, second);
    assert_eq!(first.len(), 3);
    assert!(first[0].starts_with("pub trait Widget"));
    assert!(first[1].starts_with("define_object ! (Btn)"));
    assert!(first[2].starts_with("define_object ! (Bar)"));
    let generator = CodeGen::from(code).unwrap();
    assert_eq!(generator.emit().unwrap(), first);
}

#[test]
fn the_generator_fails_on_a_type_that_does_not_read() {
    let code = r#"
        extern "C" {
            pub fn lv_arc_create(parent: *mut lv_obj_t) -> *mut lv_obj_t;
            pub fn lv_arc_set_pair(obj: *mut lv_obj_t, pair: [u8; 2]);
        }
    "#;
    assert!(matches!(
        CodeGen::generate(code),
        Err(CodeGenError::UnreadableType)
    ));
}
