//! What this library takes from the `syn` parser: the items of a parsed file, the
//! parts of a foreign function's signature, and the token text of types.
//!
//! Nothing in this file is proved. Each function below makes one reading of a
//! `syn` value and its contract gives that reading a name; the verified code of
//! the other modules speaks of these names only.
//!
//! Token text is what `proc_macro2`'s own printer gives, which is the printer at
//! work wherever this library runs outside a procedural macro.

use quote::ToTokens;
use vstd::prelude::*;

verus! {

#[verifier::external_type_specification]
#[verifier::external_body]
pub struct ExFile(syn::File);

#[verifier::external_type_specification]
#[verifier::external_body]
pub struct ExSynError(syn::Error);

#[verifier::external_type_specification]
#[verifier::external_body]
pub struct ExItem(syn::Item);

#[verifier::external_type_specification]
#[verifier::external_body]
pub struct ExForeignItem(syn::ForeignItem);

#[verifier::external_type_specification]
#[verifier::external_body]
pub struct ExFnArg(syn::FnArg);

#[verifier::external_type_specification]
#[verifier::external_body]
pub struct ExType(syn::Type);

/// The file that `syn` reads out of `code`, if it reads one.
pub uninterp spec fn parsed_file(code: Seq<char>) -> Option<syn::File>;

/// The top-level items of a file, in source order.
pub uninterp spec fn items_of(file: syn::File) -> Seq<syn::Item>;

/// The items inside a foreign block; `None` for any other kind of item.
pub uninterp spec fn foreign_items_of(item: syn::Item) -> Option<Seq<syn::ForeignItem>>;

/// The name of a foreign function; `None` for a foreign item that is no function.
pub uninterp spec fn foreign_fn_name_of(item: syn::ForeignItem) -> Option<Seq<char>>;

/// The parameters of a foreign function, in order; empty for a foreign item that is no function.
pub uninterp spec fn foreign_fn_inputs_of(item: syn::ForeignItem) -> Seq<syn::FnArg>;

/// The declared return type of a foreign function; `None` where it declares none,
/// and for a foreign item that is no function.
pub uninterp spec fn foreign_fn_output_of(item: syn::ForeignItem) -> Option<syn::Type>;

/// The token text of a typed parameter's pattern; `None` for a receiver.
pub uninterp spec fn typed_name_of(arg: syn::FnArg) -> Option<Seq<char>>;

/// The type of a typed parameter; `None` for a receiver.
pub uninterp spec fn typed_type_of(arg: syn::FnArg) -> Option<syn::Type>;

/// The token text of a type: its tokens as `proc_macro2` prints them in a row.
pub uninterp spec fn type_text(ty: syn::Type) -> Seq<char>;

/// The token text of `text` read as a type; `None` where it does not read as one.
pub uninterp spec fn type_reading(text: Seq<char>) -> Option<Seq<char>>;

/// The token text of `text` read as a type path; `None` where it does not read as one.
pub uninterp spec fn path_reading(text: Seq<char>) -> Option<Seq<char>>;

/// Whether `text` reads as an identifier that is no keyword.
pub uninterp spec fn plain_ident(text: Seq<char>) -> bool;

/// Calls `syn::parse_str::<syn::File>`. Claims only that the outcome is a function of
/// the text: `Ok` with the file named `parsed_file`, or an error where there is none.
#[verifier::external_body]
pub(crate) fn parse_file(code: &str) -> (parsed: Result<syn::File, syn::Error>)
    ensures
        match parsed {
            Ok(file) => parsed_file(code@) == Some(file),
            Err(_) => parsed_file(code@) is None,
        },
{
    syn::parse_str::<syn::File>(code)
}

/// Clones the field `items` of a `syn::File`. Claims that the vector holds the
/// items named `items_of`, in the same order.
#[verifier::external_body]
pub(crate) fn file_items(file: &syn::File) -> (items: Vec<syn::Item>)
    ensures
        items@ == items_of(*file),
{
    file.items.clone()
}

/// Tells `syn::Item::ForeignMod` from the other variants of `syn::Item` and clones
/// its field `items`. Claims that the result is the sequence named `foreign_items_of`.
#[verifier::external_body]
pub(crate) fn foreign_items(item: &syn::Item) -> (items: Option<Vec<syn::ForeignItem>>)
    ensures
        match items {
            Some(v) => foreign_items_of(*item) == Some(v@),
            None => foreign_items_of(*item) is None,
        },
{
    match item {
        syn::Item::ForeignMod(block) => Some(block.items.clone()),
        _ => None,
    }
}

/// Tells `syn::ForeignItem::Fn` from the other variants and calls `to_string` on its
/// `sig.ident`. Claims that the result is the text named `foreign_fn_name_of`.
#[verifier::external_body]
pub(crate) fn foreign_fn_name(item: &syn::ForeignItem) -> (name: Option<String>)
    ensures
        match name {
            Some(n) => foreign_fn_name_of(*item) == Some(n@),
            None => foreign_fn_name_of(*item) is None,
        },
{
    match item {
        syn::ForeignItem::Fn(f) => Some(f.sig.ident.to_string()),
        _ => None,
    }
}

/// Clones the parameters in `sig.inputs` of a `syn::ForeignItem::Fn`, in order.
/// Claims that the vector holds the sequence named `foreign_fn_inputs_of`.
#[verifier::external_body]
pub(crate) fn foreign_fn_inputs(item: &syn::ForeignItem) -> (inputs: Vec<syn::FnArg>)
    ensures
        inputs@ == foreign_fn_inputs_of(*item),
{
    match item {
        syn::ForeignItem::Fn(f) => f.sig.inputs.iter().cloned().collect(),
        _ => Vec::new(),
    }
}

/// Reads `sig.output` of a `syn::ForeignItem::Fn`: the type behind
/// `syn::ReturnType::Type`, or `None`. Claims that the result is the type named
/// `foreign_fn_output_of`.
#[verifier::external_body]
pub(crate) fn foreign_fn_output(item: &syn::ForeignItem) -> (output: Option<Box<syn::Type>>)
    ensures
        match output {
            Some(ty) => foreign_fn_output_of(*item) == Some(*ty),
            None => foreign_fn_output_of(*item) is None,
        },
{
    match item {
        syn::ForeignItem::Fn(f) => match &f.sig.output {
            syn::ReturnType::Type(_, ty) => Some(ty.clone()),
            syn::ReturnType::Default => None,
        },
        _ => None,
    }
}

/// Tells `syn::FnArg::Typed` from a receiver and prints the tokens of its pattern
/// (`to_token_stream`, then `to_string`). Claims that the result is the text named
/// `typed_name_of`.
#[verifier::external_body]
pub(crate) fn typed_name(arg: &syn::FnArg) -> (name: Option<String>)
    ensures
        match name {
            Some(n) => typed_name_of(*arg) == Some(n@),
            None => typed_name_of(*arg) is None,
        },
{
    match arg {
        syn::FnArg::Typed(typed) => Some(typed.pat.to_token_stream().to_string()),
        syn::FnArg::Receiver(_) => None,
    }
}

/// Tells `syn::FnArg::Typed` from a receiver and clones its field `ty`. Claims that
/// the result is the type named `typed_type_of`.
#[verifier::external_body]
pub(crate) fn typed_type(arg: &syn::FnArg) -> (ty: Option<Box<syn::Type>>)
    ensures
        match ty {
            Some(t) => typed_type_of(*arg) == Some(*t),
            None => typed_type_of(*arg) is None,
        },
{
    match arg {
        syn::FnArg::Typed(typed) => Some(typed.ty.clone()),
        syn::FnArg::Receiver(_) => None,
    }
}

/// Prints the tokens of a `syn::Type` (`to_token_stream`, then `to_string`). Claims
/// that the result is the text named `type_text`.
#[verifier::external_body]
pub(crate) fn type_tokens(ty: &syn::Type) -> (text: String)
    ensures
        text@ == type_text(*ty),
{
    ty.to_token_stream().to_string()
}

/// Calls `syn::parse_str::<syn::Type>` and prints the tokens of what it read. Claims
/// only that the outcome is a function of the text, named `type_reading`.
#[verifier::external_body]
pub(crate) fn read_type(text: &str) -> (reading: Option<String>)
    ensures
        match reading {
            Some(r) => type_reading(text@) == Some(r@),
            None => type_reading(text@) is None,
        },
{
    match syn::parse_str::<syn::Type>(text) {
        Ok(ty) => Some(ty.to_token_stream().to_string()),
        Err(_) => None,
    }
}

/// Calls `syn::parse_str::<syn::TypePath>` and prints the tokens of what it read.
/// Claims only that the outcome is a function of the text, named `path_reading`.
#[verifier::external_body]
pub(crate) fn read_path(text: &str) -> (reading: Option<String>)
    ensures
        match reading {
            Some(r) => path_reading(text@) == Some(r@),
            None => path_reading(text@) is None,
        },
{
    match syn::parse_str::<syn::TypePath>(text) {
        Ok(path) => Some(path.to_token_stream().to_string()),
        Err(_) => None,
    }
}

/// Calls `syn::parse_str::<syn::Ident>`, which accepts identifiers that are no
/// keywords. Claims only that the outcome is a function of the text, named
/// `plain_ident`.
#[verifier::external_body]
pub(crate) fn reads_as_ident(text: &str) -> (plain: bool)
    ensures
        plain == plain_ident(text@),
{
    syn::parse_str::<syn::Ident>(text).is_ok()
}

} // verus!
