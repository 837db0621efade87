//! Loading: from the foreign blocks of a parsed file to declarations.

use crate::decl::{arg_views, ArgView, DeclView, LvArg, LvFunc, LIB_PREFIX};
use crate::shape::LvType;
use crate::syntax::{
    foreign_fn_inputs, foreign_fn_inputs_of, foreign_fn_name, foreign_fn_name_of,
    foreign_fn_output, foreign_fn_output_of, foreign_items_of, items_of, parsed_file, type_text,
    typed_name, typed_name_of, typed_type, typed_type_of,
};
use vstd::prelude::*;

verus! {

/// The parameter that a parsed one stands for: none for a receiver.
pub open spec fn arg_of(input: syn::FnArg) -> Option<ArgView> {
    match (typed_name_of(input), typed_type_of(input)) {
        (Some(name), Some(ty)) => Some(ArgView { name, typ: type_text(ty) }),
        _ => None,
    }
}

/// The typed parameters among the first `hi` parsed ones, in order.
pub open spec fn args_upto(inputs: Seq<syn::FnArg>, hi: int) -> Seq<ArgView>
    decreases hi,
{
    if hi <= 0 {
        Seq::empty()
    } else {
        match arg_of(inputs[hi - 1]) {
            Some(arg) => args_upto(inputs, hi - 1).push(arg),
            None => args_upto(inputs, hi - 1),
        }
    }
}

/// The declaration that a foreign item stands for: none where it is no function.
pub open spec fn decl_of(item: syn::ForeignItem) -> Option<DeclView> {
    match foreign_fn_name_of(item) {
        Some(name) => Some(
            DeclView {
                name,
                args: args_upto(
                    foreign_fn_inputs_of(item),
                    foreign_fn_inputs_of(item).len() as int,
                ),
                ret: match foreign_fn_output_of(item) {
                    Some(ty) => Some(type_text(ty)),
                    None => None,
                },
            },
        ),
        None => None,
    }
}

/// The name carries the toolkit's prefix.
pub open spec fn is_toolkit_name(name: Seq<char>) -> bool {
    LIB_PREFIX@.is_prefix_of(name)
}

/// The toolkit's declarations among the first `hi` items of a foreign block, in order.
pub open spec fn block_decls(items: Seq<syn::ForeignItem>, hi: int) -> Seq<DeclView>
    decreases hi,
{
    if hi <= 0 {
        Seq::empty()
    } else {
        match decl_of(items[hi - 1]) {
            Some(decl) => if is_toolkit_name(decl.name) {
                block_decls(items, hi - 1).push(decl)
            } else {
                block_decls(items, hi - 1)
            },
            None => block_decls(items, hi - 1),
        }
    }
}

/// The toolkit's declarations in the foreign blocks among the first `hi` items of a
/// file, in order.
pub open spec fn file_decls(items: Seq<syn::Item>, hi: int) -> Seq<DeclView>
    decreases hi,
{
    if hi <= 0 {
        Seq::empty()
    } else {
        match foreign_items_of(items[hi - 1]) {
            Some(block) => file_decls(items, hi - 1) + block_decls(block, block.len() as int),
            None => file_decls(items, hi - 1),
        }
    }
}

/// The declarations that a text holds; `None` where the text is malformed.
pub open spec fn loaded_decls(code: Seq<char>) -> Option<Seq<DeclView>> {
    match parsed_file(code) {
        Some(file) => Some(file_decls(items_of(file), items_of(file).len() as int)),
        None => None,
    }
}

impl LvArg {
    /// The parameter that a parsed one stands for.
    pub fn from_typed(input: &syn::FnArg) -> (arg: Option<LvArg>)
        ensures
            match arg {
                Some(a) => arg_of(*input) == Some(a@),
                None => arg_of(*input) is None,
            },
    {
        match typed_name(input) {
            Some(name) => match typed_type(input) {
                Some(ty) => Some(LvArg::new(name, LvType::from(ty))),
                None => None,
            },
            None => None,
        }
    }
}

impl LvFunc {
    /// The declaration that a foreign item stands for.
    pub fn from_foreign(item: &syn::ForeignItem) -> (decl: Option<LvFunc>)
        ensures
            match decl {
                Some(d) => decl_of(*item) == Some(d@),
                None => decl_of(*item) is None,
            },
    {
        let name = match foreign_fn_name(item) {
            Some(name) => name,
            None => {
                return None;
            },
        };
        let inputs = foreign_fn_inputs(item);
        let mut args: Vec<LvArg> = Vec::new();
        let mut i: usize = 0;
        while i < inputs.len()
            invariant
                i <= inputs.len(),
                arg_views(args@) == args_upto(inputs@, i as int),
            decreases inputs.len() - i,
        {
            match LvArg::from_typed(&inputs[i]) {
                Some(arg) => {
                    args.push(arg);
                },
                None => {},
            }
            i = i + 1;
        }
        let ret = match foreign_fn_output(item) {
            Some(ty) => Some(LvType::from(ty)),
            None => None,
        };
        Some(LvFunc::new(name, args, ret))
    }
}

} // verus!
