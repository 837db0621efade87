//! Widgets: a name and the declarations grouped under it, and the module text of each.

use crate::decl::{DeclView, LvFunc};
use crate::emit::{
    interface_text, lowered_text, object_text, render, render_interface, render_object,
};
use crate::lower::{is_root, lower_decl, result_text, texts, Rusty, WrapperError, WrapperResult};
use crate::naming::{pascal_case, pascal_case_of};
use crate::text::same_text;
use vstd::prelude::*;
use vstd::string::*;

verus! {

/// A widget as texts.
pub struct WidgetView {
    pub name: Seq<char>,
    pub methods: Seq<DeclView>,
}

/// The declarations of a vector as texts.
pub open spec fn decl_views(decls: Seq<LvFunc>) -> Seq<DeclView> {
    Seq::new(decls.len(), |i: int| decls[i]@)
}

/// A widget of the toolkit with the declarations that work on it, in the order in
/// which they were declared.
#[derive(Debug)]
pub struct LvWidget {
    pub name: String,
    pub methods: Vec<LvFunc>,
}

impl View for LvWidget {
    type V = WidgetView;

    open spec fn view(&self) -> WidgetView {
        WidgetView { name: self.name@, methods: decl_views(self.methods@) }
    }
}

/// The text of one declaration under a widget, or why there is none.
pub open spec fn decl_text(decl: DeclView, widget: Seq<char>) -> Result<Seq<char>, WrapperError> {
    match lower_decl(decl, widget) {
        Ok(lowered) => Ok(lowered_text(lowered)),
        Err(e) => Err(e),
    }
}

/// The texts of the declarations `lo..hi` under a widget, without those that are
/// skipped; the error of the first whose type does not read.
pub open spec fn method_texts_between(
    methods: Seq<DeclView>,
    widget: Seq<char>,
    lo: int,
    hi: int,
) -> Result<Seq<Seq<char>>, WrapperError>
    decreases hi - lo,
{
    if hi <= lo {
        Ok(Seq::empty())
    } else {
        match method_texts_between(methods, widget, lo, hi - 1) {
            Err(e) => Err(e),
            Ok(init) => match decl_text(methods[hi - 1], widget) {
                Ok(t) => Ok(init.push(t)),
                Err(WrapperError::Skip(_)) => Ok(init),
                Err(e) => Err(e),
            },
        }
    }
}

/// The module text of a widget: an interface for the root widget, a concrete type
/// named in Pascal case for any other.
pub open spec fn widget_text(widget: WidgetView) -> Result<Seq<char>, WrapperError> {
    match method_texts_between(widget.methods, widget.name, 0, widget.methods.len() as int) {
        Err(e) => Err(e),
        Ok(methods) => Ok(
            if is_root(widget.name) {
                interface_text(methods)
            } else {
                object_text(pascal_case_of(widget.name), methods)
            },
        ),
    }
}

/// Once a declaration's type does not read, no longer range has texts.
pub proof fn lemma_method_error_stays(
    methods: Seq<DeclView>,
    widget: Seq<char>,
    lo: int,
    mid: int,
    hi: int,
    e: WrapperError,
)
    requires
        mid <= hi,
        method_texts_between(methods, widget, lo, mid) == Err::<Seq<Seq<char>>, WrapperError>(e),
    ensures
        method_texts_between(methods, widget, lo, hi) == Err::<Seq<Seq<char>>, WrapperError>(e),
    decreases hi - mid,
{
    if mid < hi {
        lemma_method_error_stays(methods, widget, lo, mid, hi - 1, e);
    }
}

/// The texts of a range of declarations are never skipped as a whole: a skipped
/// declaration is left out and the others stay.
pub proof fn lemma_methods_never_skipped(
    methods: Seq<DeclView>,
    widget: Seq<char>,
    lo: int,
    hi: int,
)
    ensures
        !(method_texts_between(methods, widget, lo, hi) matches Err(WrapperError::Skip(_))),
    decreases hi - lo,
{
    if lo < hi {
        lemma_methods_never_skipped(methods, widget, lo, hi - 1);
    }
}

/// A widget's module is never skipped; it fails only where a type does not read.
pub proof fn lemma_module_never_skipped(widget: WidgetView)
    ensures
        widget_text(widget) is Err ==> widget_text(widget) == Err::<Seq<char>, WrapperError>(
            WrapperError::UnreadableType,
        ),
{
    lemma_methods_never_skipped(widget.methods, widget.name, 0, widget.methods.len() as int);
}

/// The root widget's module is the interface around the texts of its operations;
/// any other widget's module is a concrete type.
pub proof fn lemma_root_module_is_interface(widget: WidgetView)
    requires
        widget_text(widget) is Ok,
    ensures
        ({
            let methods = method_texts_between(
                widget.methods,
                widget.name,
                0,
                widget.methods.len() as int,
            );
            &&& methods is Ok
            &&& is_root(widget.name) ==> widget_text(widget) == Ok::<Seq<char>, WrapperError>(
                interface_text(methods.unwrap()),
            )
            &&& !is_root(widget.name) ==> widget_text(widget) == Ok::<Seq<char>, WrapperError>(
                object_text(pascal_case_of(widget.name), methods.unwrap()),
            )
        }),
{
}

impl Clone for LvWidget {
    fn clone(&self) -> (copy: Self)
        ensures
            copy@ == self@,
    {
        let mut methods: Vec<LvFunc> = Vec::new();
        let mut i: usize = 0;
        while i < self.methods.len()
            invariant
                i <= self.methods.len(),
                methods.len() == i,
                forall|j: int| 0 <= j < i ==> methods[j]@ == self.methods[j]@,
            decreases self.methods.len() - i,
        {
            methods.push(self.methods[i].clone());
            i = i + 1;
        }
        proof {
            assert(decl_views(methods@) =~= decl_views(self.methods@));
        }
        LvWidget { name: self.name.clone(), methods }
    }
}

impl LvWidget {
    /// The widget's name in Pascal case.
    pub fn pascal_name(&self) -> (cased: String)
        ensures
            cased@ == pascal_case_of(self@.name),
    {
        pascal_case(self.name.as_str())
    }
}

impl Rusty for LvFunc {
    type Parent = LvWidget;

    /// The text of this declaration's wrapper under `parent`.
    fn code(&self, parent: &LvWidget) -> (out: WrapperResult<String>)
        ensures
            result_text(out) == decl_text(self@, parent@.name),
    {
        match self.lower(parent.name.as_str()) {
            Ok(lowered) => Ok(render(&lowered)),
            Err(e) => Err(e),
        }
    }
}

impl Rusty for LvWidget {
    type Parent = ();

    /// The module text of this widget.
    fn code(&self, _parent: &()) -> (out: WrapperResult<String>)
        ensures
            result_text(out) == widget_text(self@),
    {
        let n: usize = self.methods.len();
        let ghost decls = self@.methods;
        let mut methods: Vec<String> = Vec::new();
        let mut i: usize = 0;
        proof {
            assert(texts(methods@) =~= Seq::<Seq<char>>::empty());
        }
        while i < n
            invariant
                n == self.methods.len(),
                decls == self@.methods,
                i <= n,
                method_texts_between(decls, self@.name, 0, i as int) == Ok::<
                    Seq<Seq<char>>,
                    WrapperError,
                >(texts(methods@)),
            decreases n - i,
        {
            match self.methods[i].code(self) {
                Ok(text) => {
                    proof {
                        assert(texts(methods@.push(text)) =~= texts(methods@).push(text@));
                    }
                    methods.push(text);
                },
                Err(WrapperError::Skip(_)) => {},
                Err(e) => {
                    proof {
                        lemma_method_error_stays(decls, self@.name, 0, i + 1, n as int, e);
                    }
                    return Err(e);
                },
            }
            i = i + 1;
        }
        if same_text(self.name.as_str(), "obj") {
            Ok(render_interface(&methods))
        } else {
            let pascal = self.pascal_name();
            Ok(render_object(pascal.as_str(), &methods))
        }
    }
}

} // verus!
