//! Lowering: from a declaration and the widget that owns it to the wrapper operation
//! that stands for it, or to the decision to leave it out.

use crate::decl::{
    call_argument, detach_step, ident_text, post_step_text, pre_step_text, reattach_step, ArgView,
    DeclView, LvArg, LvFunc, LIB_PREFIX,
};
use crate::emit::{body_parts, call_text};
use crate::shape::{
    is_array_text, is_const_text, is_mut_str_text, is_pointer_text, lemma_shapes_of_literals,
    shape_of, LvType, ShapeView, TypeShape,
};
use crate::syntax::{path_reading, read_path, read_type, type_reading};
use crate::text::{cut_first, same_text, without_first};
use vstd::prelude::*;
use vstd::string::*;

verus! {

/// Which shape it was that no wrapper is written for.
#[derive(Debug, Clone, Copy, PartialEq, Eq, Structural)]
pub enum SkipReason {
    /// The declaration returns a pointer.
    PointerReturn,
    /// A parameter is a pointer to pointer.
    PointerArray,
    /// A parameter is a pointer to the toolkit's opaque type.
    OpaquePointer,
    /// The declaration is the root widget's `create`: the root widget's
    /// constructor is written by hand, never generated.
    RootConstructor,
}

/// Why no wrapper text came out.
#[derive(Debug, Clone, Copy, PartialEq, Eq, Structural)]
pub enum WrapperError {
    /// The declaration has a shape that no wrapper is written for: it is left out
    /// and the run goes on.
    Skip(SkipReason),
    /// A type literal that had to denote a known type does not read as one: the run
    /// cannot go on.
    UnreadableType,
}

pub type WrapperResult<T> = Result<T, WrapperError>;

/// Source text for a value, given what it belongs to.
pub trait Rusty {
    type Parent;

    fn code(&self, parent: &Self::Parent) -> WrapperResult<String>;
}

/// How a wrapper operation takes the object it works on.
#[derive(Debug, Clone, Copy, PartialEq, Eq, Structural)]
pub enum Receiver {
    /// The declaration has no parameter at all.
    Absent,
    /// Through a shared reference.
    Shared,
    /// Through an exclusive reference.
    Exclusive,
}

/// A wrapper operation, in the parts it is rendered from.
#[derive(Debug, PartialEq, Eq)]
pub struct LoweredOperation {
    /// The operation's name.
    pub identifier: String,
    /// Whether it carries a visibility qualifier.
    pub public: bool,
    pub receiver: Receiver,
    /// The declared parameters, the receiver first.
    pub params: Vec<String>,
    /// Statements before the call.
    pub pre_steps: Vec<String>,
    /// The native function that is called.
    pub native: String,
    /// The arguments of the call, the receiver's handle first.
    pub call_args: Vec<String>,
    /// Statements after the call.
    pub post_steps: Vec<String>,
    pub return_type: String,
    /// Whether the call stands as a statement (no value is returned).
    pub statement: bool,
}

/// What a declaration is lowered to.
#[derive(Debug, PartialEq, Eq)]
pub enum Lowered {
    /// The pair of constructors of a widget: one from a parent, one under the
    /// active screen.
    Constructor { native: String },
    /// One operation around one call.
    Method(LoweredOperation),
}

/// An optional string as an optional text.
pub open spec fn option_text(o: Option<String>) -> Option<Seq<char>> {
    match o {
        Some(s) => Some(s@),
        None => None,
    }
}

/// A string or an error as a text or that error.
pub open spec fn result_text(r: WrapperResult<String>) -> Result<Seq<char>, WrapperError> {
    match r {
        Ok(s) => Ok(s@),
        Err(e) => Err(e),
    }
}

/// An optional type as its optional literal.
pub open spec fn option_literal(o: Option<LvType>) -> Option<Seq<char>> {
    match o {
        Some(ty) => Some(ty@),
        None => None,
    }
}

/// The texts held by a vector of strings.
pub open spec fn texts(v: Seq<String>) -> Seq<Seq<char>> {
    Seq::new(v.len(), |i: int| v[i]@)
}

pub struct OperationView {
    pub identifier: Seq<char>,
    pub public: bool,
    pub receiver: Receiver,
    pub params: Seq<Seq<char>>,
    pub pre_steps: Seq<Seq<char>>,
    pub native: Seq<char>,
    pub call_args: Seq<Seq<char>>,
    pub post_steps: Seq<Seq<char>>,
    pub return_type: Seq<char>,
    pub statement: bool,
}

pub enum LoweredView {
    Constructor { native: Seq<char> },
    Method(OperationView),
}

impl View for LoweredOperation {
    type V = OperationView;

    open spec fn view(&self) -> OperationView {
        OperationView {
            identifier: self.identifier@,
            public: self.public,
            receiver: self.receiver,
            params: texts(self.params@),
            pre_steps: texts(self.pre_steps@),
            native: self.native@,
            call_args: texts(self.call_args@),
            post_steps: texts(self.post_steps@),
            return_type: self.return_type@,
            statement: self.statement,
        }
    }
}

impl View for Lowered {
    type V = LoweredView;

    open spec fn view(&self) -> LoweredView {
        match self {
            Lowered::Constructor { native } => LoweredView::Constructor { native: native@ },
            Lowered::Method(op) => LoweredView::Method(op@),
        }
    }
}

/// The widget that every other widget embeds.
pub open spec fn is_root(widget: Seq<char>) -> bool {
    widget == "obj"@
}

/// The part of a declaration's name that says which widget it belongs to.
pub open spec fn namespace_of(widget: Seq<char>) -> Seq<char> {
    LIB_PREFIX@ + widget + "_"@
}

/// The operation's name: the declaration's name without the leftmost occurrence of
/// the widget's namespace.
pub open spec fn operation_name(decl_name: Seq<char>, widget: Seq<char>) -> Seq<char> {
    without_first(decl_name, namespace_of(widget))
}

/// The text that a type literal has to read as before a parameter form is chosen:
/// the pointee of an unclassified pointer, or the literal of a value.
pub open spec fn reading_of(shape: ShapeView) -> Option<Seq<char>> {
    match shape {
        ShapeView::OtherPointer { inner, mutable } => path_reading(inner),
        ShapeView::Value { name } => path_reading(name),
        _ => None,
    }
}

/// The form under which a parameter of the given shape is declared, given what its
/// text read as.
pub open spec fn reference_form(shape: ShapeView, reading: Option<Seq<char>>) -> Result<
    Seq<char>,
    WrapperError,
> {
    match shape {
        ShapeView::ConstStringPtr => Ok("& cstr_core :: CStr"@),
        ShapeView::MutStringPtr => Ok("& mut cstr_core :: CString"@),
        ShapeView::ConstObjectPtr => Ok("& impl NativeObject"@),
        ShapeView::MutObjectPtr => Ok("& mut impl NativeObject"@),
        ShapeView::PointerArray => Err(WrapperError::Skip(SkipReason::PointerArray)),
        ShapeView::VoidPtr => Err(WrapperError::Skip(SkipReason::OpaquePointer)),
        ShapeView::OtherPointer { inner, mutable } => match reading {
            Some(path) => Ok(
                if mutable {
                    "& mut "@ + path
                } else {
                    "& "@ + path
                },
            ),
            None => Err(WrapperError::UnreadableType),
        },
        ShapeView::Value { name } => match reading {
            Some(path) => Ok(path),
            None => Err(WrapperError::UnreadableType),
        },
    }
}

/// The form under which a parameter with this type literal is declared.
pub open spec fn type_form(lit: Seq<char>) -> Result<Seq<char>, WrapperError> {
    reference_form(shape_of(lit), reading_of(shape_of(lit)))
}

/// The declaration of one parameter.
pub open spec fn param_result(arg: ArgView) -> Result<Seq<char>, WrapperError> {
    match type_form(arg.typ) {
        Ok(form) => Ok(ident_text(arg.name) + " : "@ + form),
        Err(e) => Err(e),
    }
}

/// The return type of the operation, given what the declared one read as.
pub open spec fn return_form(ret: Option<Seq<char>>, reading: Option<Seq<char>>) -> Result<
    Seq<char>,
    WrapperError,
> {
    match ret {
        None => Ok("()"@),
        Some(lit) => if is_pointer_text(lit) {
            Err(WrapperError::Skip(SkipReason::PointerReturn))
        } else {
            match reading {
                Some(ty) => Ok(ty),
                None => Err(WrapperError::UnreadableType),
            }
        },
    }
}

pub open spec fn return_result(ret: Option<Seq<char>>) -> Result<Seq<char>, WrapperError> {
    return_form(
        ret,
        match ret {
            Some(lit) => type_reading(lit),
            None => None,
        },
    )
}

/// The declarations of the parameters `lo..hi`, or the error of the first among
/// them that has none.
pub open spec fn params_between(args: Seq<ArgView>, lo: int, hi: int) -> Result<
    Seq<Seq<char>>,
    WrapperError,
>
    decreases hi - lo,
{
    if hi <= lo {
        Ok(Seq::empty())
    } else {
        match params_between(args, lo, hi - 1) {
            Err(e) => Err(e),
            Ok(init) => match param_result(args[hi - 1]) {
                Ok(p) => Ok(init.push(p)),
                Err(e) => Err(e),
            },
        }
    }
}

/// The call arguments for the parameters `lo..hi`.
pub open spec fn call_args_between(args: Seq<ArgView>, lo: int, hi: int) -> Seq<Seq<char>>
    decreases hi - lo,
{
    if hi <= lo {
        Seq::empty()
    } else {
        call_args_between(args, lo, hi - 1).push(call_argument(args[hi - 1]))
    }
}

/// The mutable-string parameters among `lo..hi`, by name and in order.
pub open spec fn buffers_between(args: Seq<ArgView>, lo: int, hi: int) -> Seq<Seq<char>>
    decreases hi - lo,
{
    if hi <= lo {
        Seq::empty()
    } else if is_mut_str_text(args[hi - 1].typ) {
        buffers_between(args, lo, hi - 1).push(args[hi - 1].name)
    } else {
        buffers_between(args, lo, hi - 1)
    }
}

/// The statements before the call for the parameters `lo..hi`: one for each
/// mutable-string parameter, in order.
pub open spec fn pre_steps_between(args: Seq<ArgView>, lo: int, hi: int) -> Seq<Seq<char>>
    decreases hi - lo,
{
    if hi <= lo {
        Seq::empty()
    } else if is_mut_str_text(args[hi - 1].typ) {
        pre_steps_between(args, lo, hi - 1).push(pre_step_text(args[hi - 1]))
    } else {
        pre_steps_between(args, lo, hi - 1)
    }
}

/// The statements after the call for the parameters `lo..hi`: one for each
/// mutable-string parameter, in order.
pub open spec fn post_steps_between(args: Seq<ArgView>, lo: int, hi: int) -> Seq<Seq<char>>
    decreases hi - lo,
{
    if hi <= lo {
        Seq::empty()
    } else if is_mut_str_text(args[hi - 1].typ) {
        post_steps_between(args, lo, hi - 1).push(post_step_text(args[hi - 1]))
    } else {
        post_steps_between(args, lo, hi - 1)
    }
}

/// How the operation takes its object: by the const-ness of the first parameter's literal.
pub open spec fn receiver_of(args: Seq<ArgView>) -> Receiver {
    if args.len() == 0 {
        Receiver::Absent
    } else if is_const_text(args[0].typ) {
        Receiver::Shared
    } else {
        Receiver::Exclusive
    }
}

pub open spec fn receiver_param(receiver: Receiver) -> Seq<Seq<char>> {
    match receiver {
        Receiver::Absent => Seq::empty(),
        Receiver::Shared => seq!["& self"@],
        Receiver::Exclusive => seq!["& mut self"@],
    }
}

/// The handle handed to the native function: the object's own for the root widget,
/// that of the embedded base object for any other.
pub open spec fn receiver_arg(receiver: Receiver, widget: Seq<char>) -> Seq<Seq<char>> {
    match receiver {
        Receiver::Absent => Seq::empty(),
        _ => if is_root(widget) {
            seq!["self . raw () . as_mut ()"@]
        } else {
            seq!["self . core . raw () . as_mut ()"@]
        },
    }
}

/// The operation around one call, for a declaration that is no constructor.
pub open spec fn lower_method(decl: DeclView, widget: Seq<char>) -> Result<
    OperationView,
    WrapperError,
> {
    match return_result(decl.ret) {
        Err(e) => Err(e),
        Ok(ret) => match params_between(decl.args, 1, decl.args.len() as int) {
            Err(e) => Err(e),
            Ok(params) => Ok(
                OperationView {
                    identifier: operation_name(decl.name, widget),
                    public: !is_root(widget),
                    receiver: receiver_of(decl.args),
                    params: receiver_param(receiver_of(decl.args)) + params,
                    pre_steps: pre_steps_between(decl.args, 1, decl.args.len() as int),
                    native: decl.name,
                    call_args: receiver_arg(receiver_of(decl.args), widget) + call_args_between(
                        decl.args,
                        1,
                        decl.args.len() as int,
                    ),
                    post_steps: post_steps_between(decl.args, 1, decl.args.len() as int),
                    return_type: ret,
                    statement: decl.ret is None,
                },
            ),
        },
    }
}

/// The declaration's operation name under the widget is `create`.
pub open spec fn is_create(decl: DeclView, widget: Seq<char>) -> bool {
    operation_name(decl.name, widget) == "create"@
}

/// A declaration named `create` under a widget other than the root stands for the
/// widget's constructors.
pub open spec fn is_constructor(decl: DeclView, widget: Seq<char>) -> bool {
    is_create(decl, widget) && !is_root(widget)
}

/// What a declaration is lowered to under a widget. One named `create` never goes
/// the way of the other operations: under the root widget it is skipped, under any
/// other widget it stands for the constructors.
pub open spec fn lower_decl(decl: DeclView, widget: Seq<char>) -> Result<LoweredView, WrapperError> {
    if is_create(decl, widget) {
        if is_root(widget) {
            Err(WrapperError::Skip(SkipReason::RootConstructor))
        } else {
            Ok(LoweredView::Constructor { native: decl.name })
        }
    } else {
        match lower_method(decl, widget) {
            Ok(op) => Ok(LoweredView::Method(op)),
            Err(e) => Err(e),
        }
    }
}

/// The parameter form for a shape, given what its text read as.
pub fn choose_reference_form(shape: &TypeShape, reading: Option<String>) -> (form: WrapperResult<
    String,
>)
    ensures
        result_text(form) == reference_form(shape@, option_text(reading)),
{
    match shape {
        TypeShape::ConstStringPtr => Ok(String::from_str("& cstr_core :: CStr")),
        TypeShape::MutStringPtr => Ok(String::from_str("& mut cstr_core :: CString")),
        TypeShape::ConstObjectPtr => Ok(String::from_str("& impl NativeObject")),
        TypeShape::MutObjectPtr => Ok(String::from_str("& mut impl NativeObject")),
        TypeShape::PointerArray => Err(WrapperError::Skip(SkipReason::PointerArray)),
        TypeShape::VoidPtr => Err(WrapperError::Skip(SkipReason::OpaquePointer)),
        TypeShape::OtherPointer { inner, mutable } => match reading {
            Some(path) => {
                let mut form = if *mutable {
                    String::from_str("& mut ")
                } else {
                    String::from_str("& ")
                };
                form.append(path.as_str());
                Ok(form)
            },
            None => Err(WrapperError::UnreadableType),
        },
        TypeShape::Value { name } => match reading {
            Some(path) => Ok(path),
            None => Err(WrapperError::UnreadableType),
        },
    }
}

/// The return type for a declared one, given what its literal read as.
pub fn choose_return_form(ret: &Option<LvType>, reading: Option<String>) -> (form: WrapperResult<
    String,
>)
    ensures
        result_text(form) == return_form(option_literal(*ret), option_text(reading)),
{
    match ret {
        None => Ok(String::from_str("()")),
        Some(ty) => if ty.is_pointer() {
            Err(WrapperError::Skip(SkipReason::PointerReturn))
        } else {
            match reading {
                Some(text) => Ok(text),
                None => Err(WrapperError::UnreadableType),
            }
        },
    }
}

impl Rusty for LvType {
    type Parent = LvArg;

    /// The form under which a parameter of this type is declared.
    fn code(&self, _parent: &LvArg) -> (form: WrapperResult<String>)
        ensures
            result_text(form) == type_form(self@),
    {
        let shape = self.shape();
        let reading = match &shape {
            TypeShape::OtherPointer { inner, mutable } => read_path(inner.as_str()),
            TypeShape::Value { name } => read_path(name.as_str()),
            _ => None,
        };
        choose_reference_form(&shape, reading)
    }
}

impl Rusty for LvArg {
    type Parent = LvFunc;

    /// The declaration of this parameter.
    fn code(&self, _parent: &LvFunc) -> (declared: WrapperResult<String>)
        ensures
            result_text(declared) == param_result(self@),
    {
        let mut declared = self.get_name_ident();
        match self.typ.code(self) {
            Ok(form) => {
                declared.append(" : ");
                declared.append(form.as_str());
                Ok(declared)
            },
            Err(e) => Err(e),
        }
    }
}

/// What came out of a lowering, as texts.
pub open spec fn lowered_view(r: WrapperResult<Lowered>) -> Result<LoweredView, WrapperError> {
    match r {
        Ok(l) => Ok(l@),
        Err(e) => Err(e),
    }
}

/// Once a parameter has no declaration, no longer range has one.
pub proof fn lemma_params_error_stays(
    args: Seq<ArgView>,
    lo: int,
    mid: int,
    hi: int,
    e: WrapperError,
)
    requires
        mid <= hi,
        params_between(args, lo, mid) == Err::<Seq<Seq<char>>, WrapperError>(e),
    ensures
        params_between(args, lo, hi) == Err::<Seq<Seq<char>>, WrapperError>(e),
    decreases hi - mid,
{
    if mid < hi {
        lemma_params_error_stays(args, lo, mid, hi - 1, e);
    }
}

/// The receiver is shared exactly where the first parameter's literal is
/// const-qualified, and exclusive for every other first parameter.
pub proof fn lemma_receiver_follows_constness(decl: DeclView, widget: Seq<char>, op: OperationView)
    requires
        lower_decl(decl, widget) == Ok::<LoweredView, WrapperError>(LoweredView::Method(op)),
        decl.args.len() > 0,
    ensures
        op.receiver == Receiver::Shared <==> is_const_text(decl.args[0].typ),
        op.receiver == Receiver::Exclusive <==> !is_const_text(decl.args[0].typ),
        op.params[0] == (if is_const_text(decl.args[0].typ) {
            "& self"@
        } else {
            "& mut self"@
        }),
{
}

/// A declaration whose first parameter is a pointer to a constant base object is
/// lowered to an operation with a shared receiver; one whose first parameter is a
/// pointer to a mutable base object, to an operation with an exclusive receiver.
pub proof fn lemma_object_pointer_receiver(decl: DeclView, widget: Seq<char>, op: OperationView)
    requires
        lower_decl(decl, widget) == Ok::<LoweredView, WrapperError>(LoweredView::Method(op)),
        decl.args.len() > 0,
    ensures
        shape_of(decl.args[0].typ) is ConstObjectPtr ==> op.receiver == Receiver::Shared
            && op.params[0] == "& self"@,
        shape_of(decl.args[0].typ) is MutObjectPtr ==> op.receiver == Receiver::Exclusive
            && op.params[0] == "& mut self"@,
{
    lemma_shapes_of_literals(decl.args[0].typ);
}

/// The mutable-string parameters among `lo..hi` are exactly `args[k]` where it is
/// the only one of them.
pub proof fn lemma_single_buffer(args: Seq<ArgView>, lo: int, hi: int, k: int)
    requires
        lo <= k < hi,
        is_mut_str_text(args[k].typ),
        forall|j: int| lo <= j < hi && j != k ==> !is_mut_str_text(#[trigger] args[j].typ),
    ensures
        buffers_between(args, lo, hi) == seq![args[k].name],
        pre_steps_between(args, lo, hi) == seq![detach_step(args[k].name)],
        post_steps_between(args, lo, hi) == seq![reattach_step(args[k].name)],
    decreases hi - lo,
{
    if hi - 1 == k {
        lemma_no_buffer(args, lo, k);
    } else {
        lemma_single_buffer(args, lo, hi - 1, k);
    }
}

/// Where no parameter among `lo..hi` is a mutable string, nothing is done before
/// or after the call.
pub proof fn lemma_no_buffer(args: Seq<ArgView>, lo: int, hi: int)
    requires
        forall|j: int| lo <= j < hi ==> !is_mut_str_text(#[trigger] args[j].typ),
    ensures
        buffers_between(args, lo, hi) == Seq::<Seq<char>>::empty(),
        pre_steps_between(args, lo, hi) == Seq::<Seq<char>>::empty(),
        post_steps_between(args, lo, hi) == Seq::<Seq<char>>::empty(),
    decreases hi - lo,
{
    if lo < hi {
        lemma_no_buffer(args, lo, hi - 1);
    }
}

/// The statements before and after the call stand for the mutable-string
/// parameters one for one and in their order.
pub proof fn lemma_steps_follow_buffers(args: Seq<ArgView>, lo: int, hi: int)
    ensures
        pre_steps_between(args, lo, hi).len() == buffers_between(args, lo, hi).len(),
        post_steps_between(args, lo, hi).len() == buffers_between(args, lo, hi).len(),
        forall|k: int|
            0 <= k < buffers_between(args, lo, hi).len() ==> #[trigger] pre_steps_between(
                args,
                lo,
                hi,
            )[k] == detach_step(buffers_between(args, lo, hi)[k]),
        forall|k: int|
            0 <= k < buffers_between(args, lo, hi).len() ==> #[trigger] post_steps_between(
                args,
                lo,
                hi,
            )[k] == reattach_step(buffers_between(args, lo, hi)[k]),
    decreases hi - lo,
{
    if lo < hi {
        lemma_steps_follow_buffers(args, lo, hi - 1);
    }
}

/// Every operation that comes out of a lowering detaches each mutable-string
/// parameter after the receiver once before the call and reattaches it once after
/// the call, in the order of the parameters. With one such parameter named `name`
/// that is the one statement `detach_step(name)` before the call and the one
/// statement `reattach_step(name)` after it.
pub proof fn lemma_string_handoff(decl: DeclView, widget: Seq<char>, op: OperationView)
    requires
        lower_decl(decl, widget) == Ok::<LoweredView, WrapperError>(LoweredView::Method(op)),
    ensures
        ({
            let buffers = buffers_between(decl.args, 1, decl.args.len() as int);
            &&& op.pre_steps.len() == buffers.len()
            &&& op.post_steps.len() == buffers.len()
            &&& forall|k: int|
                0 <= k < buffers.len() ==> #[trigger] op.pre_steps[k] == detach_step(buffers[k])
            &&& forall|k: int|
                0 <= k < buffers.len() ==> #[trigger] op.post_steps[k] == reattach_step(
                    buffers[k],
                )
        }),
        body_parts(op) == op.pre_steps + seq![call_text(op)]
            + op.post_steps,
        forall|k: int|
            1 <= k < decl.args.len() && is_mut_str_text(decl.args[k].typ) && (forall|j: int|
                1 <= j < decl.args.len() && j != k ==> !is_mut_str_text(
                    #[trigger] decl.args[j].typ,
                )) ==> op.pre_steps == seq![detach_step(#[trigger] decl.args[k].name)]
                && op.post_steps == seq![reattach_step(decl.args[k].name)],
{
    lemma_steps_follow_buffers(decl.args, 1, decl.args.len() as int);
    assert forall|k: int|
        1 <= k < decl.args.len() && is_mut_str_text(decl.args[k].typ) && (forall|j: int|
            1 <= j < decl.args.len() && j != k ==> !is_mut_str_text(
                #[trigger] decl.args[j].typ,
            )) implies op.pre_steps == seq![detach_step(#[trigger] decl.args[k].name)]
        && op.post_steps == seq![reattach_step(decl.args[k].name)] by {
        lemma_single_buffer(decl.args, 1, decl.args.len() as int, k);
    }
}

/// A declaration that returns a pointer is skipped, unless it stands for a
/// widget's constructors; the reason is the pointer return, but for the root
/// widget's `create`, which is skipped as such.
pub proof fn lemma_pointer_return_is_skipped(decl: DeclView, widget: Seq<char>)
    requires
        decl.ret is Some,
        is_pointer_text(decl.ret.unwrap()),
        !is_constructor(decl, widget),
    ensures
        lower_decl(decl, widget) matches Err(WrapperError::Skip(_)),
        !is_create(decl, widget) ==> lower_decl(decl, widget) == Err::<LoweredView, WrapperError>(
            WrapperError::Skip(SkipReason::PointerReturn),
        ),
{
}

/// The shape is one that no wrapper takes as a parameter.
pub open spec fn is_unsupported(shape: ShapeView) -> bool {
    shape is PointerArray || shape is VoidPtr
}

/// A range of parameters that holds one of an unsupported shape has no
/// declarations; it is skipped wherever every parameter before that one reads.
pub proof fn lemma_unsupported_param_fails(args: Seq<ArgView>, lo: int, hi: int, i: int)
    requires
        0 <= lo <= i < hi <= args.len(),
        is_unsupported(shape_of(args[i].typ)),
    ensures
        params_between(args, lo, hi) is Err,
        (forall|j: int|
            lo <= j < i ==> param_result(#[trigger] args[j]) != Err::<Seq<char>, WrapperError>(
                WrapperError::UnreadableType,
            )) ==> params_between(args, lo, hi) matches Err(WrapperError::Skip(_)),
{
    let upto = params_between(args, lo, i + 1);
    if upto == Err::<Seq<Seq<char>>, WrapperError>(WrapperError::UnreadableType) {
        lemma_params_fail_early(args, lo, i + 1, WrapperError::UnreadableType);
    }
    lemma_params_error_stays(args, lo, i + 1, hi, upto->Err_0);
}

/// A range of parameters fails with `e` only where one of them does.
pub proof fn lemma_params_fail_early(args: Seq<ArgView>, lo: int, hi: int, e: WrapperError)
    requires
        params_between(args, lo, hi) == Err::<Seq<Seq<char>>, WrapperError>(e),
    ensures
        exists|j: int| lo <= j < hi && param_result(#[trigger] args[j]) == Err::<
            Seq<char>,
            WrapperError,
        >(e),
    decreases hi - lo,
{
    if lo < hi {
        if params_between(args, lo, hi - 1) is Err {
            lemma_params_fail_early(args, lo, hi - 1, e);
        }
    }
}

/// A declaration with a pointer-array or opaque-pointer parameter after the
/// receiver has no operation. It is skipped wherever the return type and the
/// parameters before that one read as types; where one of them does not, the
/// lowering fails on that instead.
pub proof fn lemma_unsupported_param_is_skipped(decl: DeclView, widget: Seq<char>, i: int)
    requires
        1 <= i < decl.args.len(),
        is_unsupported(shape_of(decl.args[i].typ)),
        !is_constructor(decl, widget),
    ensures
        lower_decl(decl, widget) is Err,
        return_result(decl.ret) != Err::<Seq<char>, WrapperError>(WrapperError::UnreadableType)
            && (forall|j: int|
            1 <= j < i ==> param_result(#[trigger] decl.args[j]) != Err::<Seq<char>, WrapperError>(
                WrapperError::UnreadableType,
            )) ==> lower_decl(decl, widget) matches Err(WrapperError::Skip(_)),
{
    if !is_create(decl, widget) {
        lemma_unsupported_param_fails(decl.args, 1, decl.args.len() as int, i);
    }
}

/// A parameter whose literal begins with a pointer to a pointer, constant or
/// mutable, has the pointer-array shape and no parameter form.
pub proof fn lemma_pointer_to_pointer_is_skipped(lit: Seq<char>)
    requires
        is_array_text(lit),
    ensures
        shape_of(lit) is PointerArray,
        type_form(lit) == Err::<Seq<char>, WrapperError>(
            WrapperError::Skip(SkipReason::PointerArray),
        ),
{
    lemma_shapes_of_literals(lit);
}

/// No operation is ever named `create`: a declaration of that name stands for the
/// constructors of its widget or, under the root widget, is skipped.
pub proof fn lemma_no_operation_named_create(decl: DeclView, widget: Seq<char>)
    ensures
        lower_decl(decl, widget) matches Ok(LoweredView::Method(op)) ==> op.identifier
            != "create"@,
        is_create(decl, widget) && is_root(widget) ==> lower_decl(decl, widget) == Err::<
            LoweredView,
            WrapperError,
        >(WrapperError::Skip(SkipReason::RootConstructor)),
        is_create(decl, widget) && !is_root(widget) ==> lower_decl(decl, widget) == Ok::<
            LoweredView,
            WrapperError,
        >(LoweredView::Constructor { native: decl.name }),
{
}

/// Under the root widget no declaration stands for constructors and none is
/// lowered to an operation named `create`; every operation is without visibility
/// qualifier and reaches the object's own handle.
pub proof fn lemma_root_operations(decl: DeclView, widget: Seq<char>)
    requires
        is_root(widget),
    ensures
        !(lower_decl(decl, widget) matches Ok(LoweredView::Constructor { .. })),
        is_create(decl, widget) ==> lower_decl(decl, widget) matches Err(WrapperError::Skip(_)),
        lower_decl(decl, widget) matches Ok(LoweredView::Method(op)) ==> !op.public
            && op.identifier != "create"@ && (decl.args.len() > 0 ==> op.call_args[0]
            == "self . raw () . as_mut ()"@),
{
}

impl LvFunc {
    /// Lowers this declaration under the widget named `widget`.
    pub fn lower(&self, widget: &str) -> (lowered: WrapperResult<Lowered>)
        ensures
            lowered_view(lowered) == lower_decl(self@, widget@),
    {
        let mut namespace = String::from_str(LIB_PREFIX);
        namespace.append(widget);
        namespace.append("_");
        let identifier = cut_first(self.name.as_str(), namespace.as_str());
        let root = same_text(widget, "obj");
        if same_text(identifier.as_str(), "create") {
            if root {
                return Err(WrapperError::Skip(SkipReason::RootConstructor));
            }
            return Ok(Lowered::Constructor { native: self.name.clone() });
        }
        let reading = match &self.ret {
            Some(ty) => if ty.is_pointer() {
                None
            } else {
                read_type(ty.literal_name.as_str())
            },
            None => None,
        };
        let return_type = match choose_return_form(&self.ret, reading) {
            Ok(ty) => ty,
            Err(e) => {
                return Err(e);
            },
        };
        let n: usize = self.args.len();
        let ghost views = self@.args;
        let mut params: Vec<String> = Vec::new();
        let mut call_args: Vec<String> = Vec::new();
        let mut pre_steps: Vec<String> = Vec::new();
        let mut post_steps: Vec<String> = Vec::new();
        let receiver = if n == 0 {
            Receiver::Absent
        } else if self.args[0].typ.is_const() {
            Receiver::Shared
        } else {
            Receiver::Exclusive
        };
        match receiver {
            Receiver::Absent => {},
            Receiver::Shared => {
                params.push(String::from_str("& self"));
            },
            Receiver::Exclusive => {
                params.push(String::from_str("& mut self"));
            },
        }
        if n > 0 {
            if root {
                call_args.push(String::from_str("self . raw () . as_mut ()"));
            } else {
                call_args.push(String::from_str("self . core . raw () . as_mut ()"));
            }
        }
        let mut i: usize = 1;
        while i < n
            invariant
                n == self.args.len(),
                views == self@.args,
                !is_create(self@, widget@),
                return_result(self@.ret) is Ok,
                1 <= i,
                i == 1 || i <= n,
                params_between(views, 1, i as int) is Ok,
                texts(params@) == receiver_param(receiver) + params_between(
                    views,
                    1,
                    i as int,
                ).unwrap(),
                texts(call_args@) == receiver_arg(receiver, widget@) + call_args_between(
                    views,
                    1,
                    i as int,
                ),
                texts(pre_steps@) == pre_steps_between(views, 1, i as int),
                texts(post_steps@) == post_steps_between(views, 1, i as int),
            decreases n - i,
        {
            let arg = &self.args[i];
            match arg.code(self) {
                Ok(declared) => {
                    proof {
                        assert(texts(params@.push(declared)) =~= texts(params@).push(declared@));
                    }
                    params.push(declared);
                },
                Err(e) => {
                    proof {
                        lemma_params_error_stays(views, 1, i + 1, n as int, e);
                    }
                    return Err(e);
                },
            }
            let expr = arg.get_call_argument();
            proof {
                assert(texts(call_args@.push(expr)) =~= texts(call_args@).push(expr@));
            }
            call_args.push(expr);
            if arg.typ.is_mut_str() {
                let before = arg.get_preprocessing();
                let after = arg.get_postprocessing();
                pre_steps.push(before);
                post_steps.push(after);
            }
            i = i + 1;
        }
        let statement = self.ret.is_none();
        Ok(
            Lowered::Method(
                LoweredOperation {
                    identifier,
                    public: !root,
                    receiver,
                    params,
                    pre_steps,
                    native: self.name.clone(),
                    call_args,
                    post_steps,
                    return_type,
                    statement,
                },
            ),
        )
    }
}

} // verus!
