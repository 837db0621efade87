//! Declarations: a native function's name, its parameters in order, and its return type.

use crate::shape::{
    is_const_object_text, is_const_str_text, is_mut_object_text, is_mut_str_text, LvType,
};
use crate::syntax::{plain_ident, reads_as_ident};
use crate::text::{contains_seq, contains_text};
use vstd::prelude::*;
use vstd::string::*;

verus! {

/// The prefix that the name of every function of the toolkit carries.
pub const LIB_PREFIX: &'static str = "lv_";

/// A parameter as texts.
pub struct ArgView {
    pub name: Seq<char>,
    pub typ: Seq<char>,
}

/// A declaration as texts.
pub struct DeclView {
    pub name: Seq<char>,
    pub args: Seq<ArgView>,
    pub ret: Option<Seq<char>>,
}

/// One parameter of a declaration.
#[derive(Debug)]
pub struct LvArg {
    pub name: String,
    pub typ: LvType,
}

impl View for LvArg {
    type V = ArgView;

    open spec fn view(&self) -> ArgView {
        ArgView { name: self.name@, typ: self.typ@ }
    }
}

impl Clone for LvArg {
    fn clone(&self) -> (copy: Self)
        ensures
            copy@ == self@,
    {
        LvArg { name: self.name.clone(), typ: self.typ.clone() }
    }
}

/// The name under which a parameter is bound: the name itself where it reads as a
/// plain identifier, its raw form where it does not.
pub open spec fn binding_name(name: Seq<char>, plain: bool) -> Seq<char> {
    if plain {
        name
    } else {
        "r#"@ + name
    }
}

pub open spec fn ident_text(name: Seq<char>) -> Seq<char> {
    binding_name(name, plain_ident(name))
}

/// The statement that takes the raw pointer out of a string buffer before the call.
pub open spec fn detach_step(name: Seq<char>) -> Seq<char> {
    "let "@ + name + "_raw = "@ + name + " . clone () . into_raw () ;"@
}

/// The statement that gives the string buffer its pointer back after the call.
pub open spec fn reattach_step(name: Seq<char>) -> Seq<char> {
    "* "@ + name + " = cstr_core :: CString :: from_raw ("@ + name + "_raw) ;"@
}

/// What is done to a parameter before the call: nothing but for a mutable string.
pub open spec fn pre_step_text(arg: ArgView) -> Seq<char> {
    if is_mut_str_text(arg.typ) {
        detach_step(arg.name)
    } else {
        Seq::empty()
    }
}

/// What is done to a parameter after the call: nothing but for a mutable string.
pub open spec fn post_step_text(arg: ArgView) -> Seq<char> {
    if is_mut_str_text(arg.typ) {
        reattach_step(arg.name)
    } else {
        Seq::empty()
    }
}

/// How a parameter's value is named inside the wrapper.
pub open spec fn value_usage(arg: ArgView) -> Seq<char> {
    if is_const_str_text(arg.typ) {
        ident_text(arg.name) + " . as_ptr ()"@
    } else if is_mut_str_text(arg.typ) {
        arg.name + "_raw"@
    } else {
        ident_text(arg.name)
    }
}

/// What is handed to the native function for a parameter.
pub open spec fn call_argument(arg: ArgView) -> Seq<char> {
    if is_mut_object_text(arg.typ) {
        value_usage(arg) + " . raw () . as_mut ()"@
    } else if is_const_object_text(arg.typ) {
        value_usage(arg) + " . raw () . as_ref ()"@
    } else {
        value_usage(arg)
    }
}

/// The binding name for `name`, given whether it reads as a plain identifier.
pub fn escape_name(name: &str, plain: bool) -> (bound: String)
    ensures
        bound@ == binding_name(name@, plain),
{
    if plain {
        String::from_str(name)
    } else {
        let mut bound = String::from_str("r#");
        bound.append(name);
        bound
    }
}

impl LvArg {
    pub fn new(name: String, typ: LvType) -> (arg: Self)
        ensures
            arg@ == (ArgView { name: name@, typ: typ@ }),
    {
        LvArg { name, typ }
    }

    pub fn get_name_ident(&self) -> (ident: String)
        ensures
            ident@ == ident_text(self@.name),
    {
        let plain = reads_as_ident(self.name.as_str());
        escape_name(self.name.as_str(), plain)
    }

    pub fn get_preprocessing(&self) -> (step: String)
        ensures
            step@ == pre_step_text(self@),
    {
        if self.typ.is_mut_str() {
            let mut step = String::from_str("let ");
            step.append(self.name.as_str());
            step.append("_raw = ");
            step.append(self.name.as_str());
            step.append(" . clone () . into_raw () ;");
            step
        } else {
            String::new()
        }
    }

    pub fn get_postprocessing(&self) -> (step: String)
        ensures
            step@ == post_step_text(self@),
    {
        if self.typ.is_mut_str() {
            let mut step = String::from_str("* ");
            step.append(self.name.as_str());
            step.append(" = cstr_core :: CString :: from_raw (");
            step.append(self.name.as_str());
            step.append("_raw) ;");
            step
        } else {
            String::new()
        }
    }

    pub fn get_value_usage(&self) -> (usage: String)
        ensures
            usage@ == value_usage(self@),
    {
        if self.typ.is_const_str() {
            let mut usage = self.get_name_ident();
            usage.append(" . as_ptr ()");
            usage
        } else if self.typ.is_mut_str() {
            let mut usage = self.name.clone();
            usage.append("_raw");
            usage
        } else {
            self.get_name_ident()
        }
    }

    /// The expression handed to the native function for this parameter.
    pub fn get_call_argument(&self) -> (expr: String)
        ensures
            expr@ == call_argument(self@),
    {
        let mut expr = self.get_value_usage();
        if self.typ.is_mut_native_object() {
            expr.append(" . raw () . as_mut ()");
        } else if self.typ.is_const_native_object() {
            expr.append(" . raw () . as_ref ()");
        }
        expr
    }

    pub fn get_type(&self) -> (typ: &LvType)
        ensures
            typ == &self.typ,
    {
        &self.typ
    }
}

/// The parameters of a declaration as texts.
pub open spec fn arg_views(args: Seq<LvArg>) -> Seq<ArgView> {
    Seq::new(args.len(), |i: int| args[i]@)
}

/// A declaration is a method where its first parameter's type names the base object.
pub open spec fn is_method_decl(decl: DeclView) -> bool {
    decl.args.len() > 0 && contains_seq(decl.args[0].typ, "lv_obj_t"@)
}

/// A declared native function.
#[derive(Debug)]
pub struct LvFunc {
    pub name: String,
    pub args: Vec<LvArg>,
    pub ret: Option<LvType>,
}

impl View for LvFunc {
    type V = DeclView;

    open spec fn view(&self) -> DeclView {
        DeclView {
            name: self.name@,
            args: arg_views(self.args@),
            ret: match self.ret {
                Some(ty) => Some(ty@),
                None => None,
            },
        }
    }
}

impl Clone for LvFunc {
    fn clone(&self) -> (copy: Self)
        ensures
            copy@ == self@,
    {
        let mut args: Vec<LvArg> = Vec::new();
        let mut i: usize = 0;
        while i < self.args.len()
            invariant
                i <= self.args.len(),
                args.len() == i,
                forall|j: int| 0 <= j < i ==> args[j]@ == self.args[j]@,
            decreases self.args.len() - i,
        {
            args.push(self.args[i].clone());
            i = i + 1;
        }
        let ret = match &self.ret {
            Some(ty) => Some(ty.clone()),
            None => None,
        };
        proof {
            assert(arg_views(args@) =~= arg_views(self.args@));
        }
        LvFunc { name: self.name.clone(), args, ret }
    }
}

impl LvFunc {
    pub fn new(name: String, args: Vec<LvArg>, ret: Option<LvType>) -> (decl: Self)
        ensures
            decl.name == name,
            decl.args == args,
            decl.ret == ret,
    {
        LvFunc { name, args, ret }
    }

    pub fn is_method(&self) -> (yes: bool)
        ensures
            yes == is_method_decl(self@),
    {
        if self.args.len() > 0 {
            contains_text(self.args[0].typ.literal_name.as_str(), "lv_obj_t")
        } else {
            false
        }
    }
}

} // verus!
