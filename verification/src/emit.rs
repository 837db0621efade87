//! Rendering: from lowered operations to source text. Tokens are separated by
//! single spaces; nothing is decided here.

use crate::lower::{texts, Lowered, LoweredOperation, LoweredView, OperationView};
use vstd::prelude::*;
use vstd::string::*;

verus! {

/// The parts in order, with `sep` between neighbours.
pub open spec fn joined(parts: Seq<Seq<char>>, sep: Seq<char>) -> Seq<char>
    decreases parts.len(),
{
    if parts.len() == 0 {
        Seq::empty()
    } else if parts.len() == 1 {
        parts[0]
    } else {
        joined(parts.drop_last(), sep) + sep + parts.last()
    }
}

/// The call of the native function, closed by a semicolon where it stands as a statement.
pub open spec fn call_text(op: OperationView) -> Seq<char> {
    "lvgl_sys :: "@ + op.native + " ("@ + joined(op.call_args, " , "@) + ")"@ + (if op.statement {
        " ;"@
    } else {
        Seq::empty()
    })
}

/// What stands inside the operation's body: the statements before the call, the
/// call, the statements after it.
pub open spec fn body_parts(op: OperationView) -> Seq<Seq<char>> {
    op.pre_steps.push(call_text(op)) + op.post_steps
}

/// The text of one operation.
pub open spec fn operation_text(op: OperationView) -> Seq<char> {
    (if op.public {
        "pub fn "@
    } else {
        "fn "@
    }) + op.identifier + " ("@ + joined(op.params, " , "@) + ") -> "@ + op.return_type
        + " { unsafe { "@ + joined(body_parts(op), " "@) + " } }"@
}

/// The constructor that makes the widget under a given parent: it calls `native`
/// and fails on a null handle.
pub open spec fn create_text(native: Seq<char>) -> Seq<char> {
    "pub fn create (parent : & mut impl crate :: NativeObject) -> crate :: LvResult < Self > { unsafe { let ptr = lvgl_sys :: "@
        + native
        + " (parent . raw () . as_mut () ,) ; if let Some (raw) = core :: ptr :: NonNull :: new (ptr) { let core = < crate :: Obj as Widget > :: from_raw (raw) . unwrap () ; Ok (Self { core }) } else { Err (crate :: LvError :: InvalidReference) } } }"@
}

/// The constructor without arguments: it makes the widget under the active screen.
pub open spec fn new_text() -> Seq<char> {
    "pub fn new () -> crate :: LvResult < Self > { let mut parent = crate :: display :: get_scr_act () ? ; Self :: create (& mut parent) }"@
}

/// The text of what a declaration was lowered to.
pub open spec fn lowered_text(lowered: LoweredView) -> Seq<char> {
    match lowered {
        LoweredView::Constructor { native } => create_text(native) + " "@ + new_text(),
        LoweredView::Method(op) => operation_text(op),
    }
}

/// The interface that stands for the root widget, around the texts of its operations.
pub open spec fn interface_text(methods: Seq<Seq<char>>) -> Seq<char> {
    "pub trait Widget < 'a > : NativeObject + Sized + 'a { "@ + joined(
        seq![
            "type SpecialEvent ; type Part : Into < lvgl_sys :: lv_part_t > ; unsafe fn from_raw (raw_pointer : core :: ptr :: NonNull < lvgl_sys :: lv_obj_t >) -> Option < Self > ;"@,
        ] + methods,
        " "@,
    ) + " }"@
}

/// The concrete type that stands for any other widget, around the texts of its operations.
pub open spec fn object_text(pascal: Seq<char>, methods: Seq<Seq<char>>) -> Seq<char> {
    "define_object ! ("@ + pascal + ") ; impl < 'a > "@ + pascal + " < 'a > "@ + (
    if methods.len() == 0 {
        "{ }"@
    } else {
        "{ "@ + joined(methods, " "@) + " }"@
    })
}

/// Appends to `dst` a copy of each string of `src`.
pub fn extend_texts(dst: &mut Vec<String>, src: &Vec<String>)
    ensures
        texts(final(dst)@) == texts(old(dst)@) + texts(src@),
{
    let ghost before = dst@;
    let mut i: usize = 0;
    while i < src.len()
        invariant
            i <= src.len(),
            texts(dst@) == texts(before) + texts(src@).take(i as int),
        decreases src.len() - i,
    {
        let copy = src[i].clone();
        proof {
            assert(texts(dst@.push(copy)) =~= texts(dst@).push(copy@));
        }
        dst.push(copy);
        i = i + 1;
    }
}

/// Joins the strings with `sep` between neighbours.
pub fn join(parts: &Vec<String>, sep: &str) -> (out: String)
    ensures
        out@ == joined(texts(parts@), sep@),
{
    let mut out = String::new();
    let mut i: usize = 0;
    let ghost all = texts(parts@);
    while i < parts.len()
        invariant
            i <= parts.len(),
            all == texts(parts@),
            out@ == joined(all.take(i as int), sep@),
        decreases parts.len() - i,
    {
        if i > 0 {
            out.append(sep);
        }
        out.append(parts[i].as_str());
        proof {
            assert(all.take(i + 1).drop_last() =~= all.take(i as int));
        }
        i = i + 1;
    }
    proof {
        assert(all.take(parts.len() as int) =~= all);
    }
    out
}

/// Renders one operation.
pub fn render_operation(op: &LoweredOperation) -> (out: String)
    ensures
        out@ == operation_text(op@),
{
    let mut call = String::from_str("lvgl_sys :: ");
    call.append(op.native.as_str());
    call.append(" (");
    let args = join(&op.call_args, " , ");
    call.append(args.as_str());
    call.append(")");
    if op.statement {
        call.append(" ;");
    }
    let mut parts: Vec<String> = Vec::new();
    extend_texts(&mut parts, &op.pre_steps);
    proof {
        assert(texts(parts@.push(call)) =~= op@.pre_steps.push(call@));
    }
    parts.push(call);
    extend_texts(&mut parts, &op.post_steps);
    let body = join(&parts, " ");
    let mut out = if op.public {
        String::from_str("pub fn ")
    } else {
        String::from_str("fn ")
    };
    out.append(op.identifier.as_str());
    out.append(" (");
    let params = join(&op.params, " , ");
    out.append(params.as_str());
    out.append(") -> ");
    out.append(op.return_type.as_str());
    out.append(" { unsafe { ");
    out.append(body.as_str());
    out.append(" } }");
    out
}

/// Renders what a declaration was lowered to.
pub fn render(lowered: &Lowered) -> (out: String)
    ensures
        out@ == lowered_text(lowered@),
{
    match lowered {
        Lowered::Constructor { native } => {
            let mut out = String::from_str(
                "pub fn create (parent : & mut impl crate :: NativeObject) -> crate :: LvResult < Self > { unsafe { let ptr = lvgl_sys :: ",
            );
            out.append(native.as_str());
            out.append(
                " (parent . raw () . as_mut () ,) ; if let Some (raw) = core :: ptr :: NonNull :: new (ptr) { let core = < crate :: Obj as Widget > :: from_raw (raw) . unwrap () ; Ok (Self { core }) } else { Err (crate :: LvError :: InvalidReference) } } }",
            );
            out.append(" ");
            out.append(
                "pub fn new () -> crate :: LvResult < Self > { let mut parent = crate :: display :: get_scr_act () ? ; Self :: create (& mut parent) }",
            );
            out
        },
        Lowered::Method(op) => render_operation(op),
    }
}

/// Renders the interface of the root widget around the texts of its operations.
pub fn render_interface(methods: &Vec<String>) -> (out: String)
    ensures
        out@ == interface_text(texts(methods@)),
{
    let mut parts: Vec<String> = Vec::new();
    let head = String::from_str(
        "type SpecialEvent ; type Part : Into < lvgl_sys :: lv_part_t > ; unsafe fn from_raw (raw_pointer : core :: ptr :: NonNull < lvgl_sys :: lv_obj_t >) -> Option < Self > ;",
    );
    proof {
        assert(texts(parts@.push(head)) =~= seq![head@]);
    }
    parts.push(head);
    extend_texts(&mut parts, methods);
    let inner = join(&parts, " ");
    let mut out = String::from_str("pub trait Widget < 'a > : NativeObject + Sized + 'a { ");
    out.append(inner.as_str());
    out.append(" }");
    out
}

/// Renders the concrete type of a widget around the texts of its operations.
pub fn render_object(pascal: &str, methods: &Vec<String>) -> (out: String)
    ensures
        out@ == object_text(pascal@, texts(methods@)),
{
    let mut out = String::from_str("define_object ! (");
    out.append(pascal);
    out.append(") ; impl < 'a > ");
    out.append(pascal);
    out.append(" < 'a > ");
    if methods.len() == 0 {
        out.append("{ }");
    } else {
        let inner = join(methods, " ");
        out.append("{ ");
        out.append(inner.as_str());
        out.append(" }");
    }
    out
}

} // verus!
