//! Grouping: which declarations stand under which widget, and in what order.

use crate::decl::{is_method_decl, DeclView, LvFunc, LIB_PREFIX};
use crate::lower::{namespace_of, texts};
use crate::text::{begins_with, same_text};
use crate::widget::{decl_views, LvWidget, WidgetView};
use vstd::prelude::*;
use vstd::string::*;

verus! {

/// A declaration goes under a widget where its name begins with the widget's
/// namespace and it is a method.
pub open spec fn attaches(decl: DeclView, widget: Seq<char>) -> bool {
    namespace_of(widget).is_prefix_of(decl.name) && is_method_decl(decl)
}

/// Some widget of `ws` is named `name`.
pub open spec fn has_widget(ws: Seq<WidgetView>, name: Seq<char>) -> bool {
    exists|i: int| 0 <= i < ws.len() && ws[i].name == name
}

/// `i` is the first position of a widget named `name`.
pub open spec fn first_named(ws: Seq<WidgetView>, name: Seq<char>, i: int) -> bool {
    0 <= i < ws.len() && ws[i].name == name && forall|j: int| 0 <= j < i ==> ws[j].name != name
}

/// `ws` with `decl` as the last method of the widget named `name`; where there is
/// none yet, with a new last widget of that name.
pub open spec fn attached(ws: Seq<WidgetView>, name: Seq<char>, decl: DeclView) -> Seq<
    WidgetView,
> {
    if has_widget(ws, name) {
        let i = choose|i: int| first_named(ws, name, i);
        ws.update(i, WidgetView { name, methods: ws[i].methods.push(decl) })
    } else {
        ws.push(WidgetView { name, methods: seq![decl] })
    }
}

/// `ws` after `decl` has gone under each of the first `hi` names that it attaches to.
pub open spec fn attached_upto(
    ws: Seq<WidgetView>,
    names: Seq<Seq<char>>,
    decl: DeclView,
    hi: int,
) -> Seq<WidgetView>
    decreases hi,
{
    if hi <= 0 {
        ws
    } else if attaches(decl, names[hi - 1]) {
        attached(attached_upto(ws, names, decl, hi - 1), names[hi - 1], decl)
    } else {
        attached_upto(ws, names, decl, hi - 1)
    }
}

/// The widgets after the first `hi` declarations have been grouped: widgets in the
/// order in which each got its first method, methods in the order of declaration.
pub open spec fn grouped(decls: Seq<DeclView>, names: Seq<Seq<char>>, hi: int) -> Seq<WidgetView>
    decreases hi,
{
    if hi <= 0 {
        Seq::empty()
    } else {
        attached_upto(grouped(decls, names, hi - 1), names, decls[hi - 1], names.len() as int)
    }
}

/// The widgets of a vector as texts.
pub open spec fn widget_views(ws: Seq<LvWidget>) -> Seq<WidgetView> {
    Seq::new(ws.len(), |i: int| ws[i]@)
}

/// The first position of a name is unique.
pub proof fn lemma_first_named_unique(ws: Seq<WidgetView>, name: Seq<char>, i: int, j: int)
    requires
        first_named(ws, name, i),
        first_named(ws, name, j),
    ensures
        i == j,
{
}

/// A name without underscore.
pub open spec fn is_simple_name(name: Seq<char>) -> bool {
    forall|i: int| 0 <= i < name.len() ==> name[i] != '_'
}

/// The namespaces of two different names without underscore never begin the same
/// declaration name: among such names a declaration goes under one widget at most.
pub proof fn lemma_simple_names_do_not_collide(decl_name: Seq<char>, a: Seq<char>, b: Seq<char>)
    requires
        is_simple_name(a),
        is_simple_name(b),
        namespace_of(a).is_prefix_of(decl_name),
        namespace_of(b).is_prefix_of(decl_name),
    ensures
        a == b,
{
    reveal_strlit("lv_");
    reveal_strlit("_");
    let na = namespace_of(a);
    let nb = namespace_of(b);
    assert forall|i: int| 0 <= i < b.len() implies nb[3 + i] == b[i] by {}
    let la = a.len() as int;
    let lb = b.len() as int;
    if la < lb {
        assert(b[la] == nb[3 + la]);
    }
    if lb < la {
        assert(a[lb] == na[3 + lb]);
    }
}

/// What holds of every grouping: no two widgets share a name, every widget is one
/// of the discovered names and has a method, and every method is a declaration of
/// the input that attaches to the widget it stands under.
pub open spec fn well_grouped(
    ws: Seq<WidgetView>,
    decls: Seq<DeclView>,
    names: Seq<Seq<char>>,
) -> bool {
    &&& forall|i: int, j: int|
        0 <= i < j < ws.len() ==> (#[trigger] ws[i]).name != (#[trigger] ws[j]).name
    &&& forall|i: int|
        0 <= i < ws.len() ==> (#[trigger] ws[i]).methods.len() > 0 && names.contains(ws[i].name)
    &&& forall|i: int, k: int|
        0 <= i < ws.len() && 0 <= k < ws[i].methods.len() ==> attaches(
            #[trigger] ws[i].methods[k],
            ws[i].name,
        ) && decls.contains(ws[i].methods[k])
}

/// Putting a declaration under a name it attaches to keeps a grouping well grouped.
pub proof fn lemma_attached_keeps(
    ws: Seq<WidgetView>,
    decls: Seq<DeclView>,
    names: Seq<Seq<char>>,
    name: Seq<char>,
    decl: DeclView,
)
    requires
        well_grouped(ws, decls, names),
        attaches(decl, name),
        names.contains(name),
        decls.contains(decl),
    ensures
        well_grouped(attached(ws, name, decl), decls, names),
{
    if has_widget(ws, name) {
        let w = choose|w: int| 0 <= w < ws.len() && ws[w].name == name;
        lemma_first_named_exists(ws, name, w);
    }
}

/// Where some widget has the name, one of them is the first.
pub proof fn lemma_first_named_exists(ws: Seq<WidgetView>, name: Seq<char>, w: int)
    requires
        0 <= w < ws.len(),
        ws[w].name == name,
    ensures
        exists|i: int| first_named(ws, name, i),
    decreases w,
{
    if exists|j: int| 0 <= j < w && ws[j].name == name {
        let j = choose|j: int| 0 <= j < w && ws[j].name == name;
        lemma_first_named_exists(ws, name, j);
    } else {
        assert(first_named(ws, name, w));
    }
}

/// Putting a declaration under the names it attaches to keeps a grouping well grouped.
pub proof fn lemma_attached_upto_keeps(
    ws: Seq<WidgetView>,
    decls: Seq<DeclView>,
    names: Seq<Seq<char>>,
    decl: DeclView,
    hi: int,
)
    requires
        well_grouped(ws, decls, names),
        decls.contains(decl),
        0 <= hi <= names.len(),
    ensures
        well_grouped(attached_upto(ws, names, decl, hi), decls, names),
    decreases hi,
{
    if hi > 0 {
        lemma_attached_upto_keeps(ws, decls, names, decl, hi - 1);
        if attaches(decl, names[hi - 1]) {
            lemma_attached_keeps(
                attached_upto(ws, names, decl, hi - 1),
                decls,
                names,
                names[hi - 1],
                decl,
            );
        }
    }
}

/// Every grouping is well grouped: a declaration stands only under widgets whose
/// namespace its name begins with, no widget comes twice, and none is empty.
pub proof fn lemma_grouped_is_well_grouped(decls: Seq<DeclView>, names: Seq<Seq<char>>, hi: int)
    requires
        0 <= hi <= decls.len(),
    ensures
        well_grouped(grouped(decls, names, hi), decls, names),
    decreases hi,
{
    if hi > 0 {
        lemma_grouped_is_well_grouped(decls, names, hi - 1);
        lemma_attached_upto_keeps(
            grouped(decls, names, hi - 1),
            decls,
            names,
            decls[hi - 1],
            names.len() as int,
        );
    }
}

/// The declarations among the first `hi` that go under the widget named `name`, in order.
pub open spec fn methods_for(decls: Seq<DeclView>, name: Seq<char>, hi: int) -> Seq<DeclView>
    decreases hi,
{
    if hi <= 0 {
        Seq::empty()
    } else if attaches(decls[hi - 1], name) {
        methods_for(decls, name, hi - 1).push(decls[hi - 1])
    } else {
        methods_for(decls, name, hi - 1)
    }
}

/// The methods of the first widget named `name`; none where there is no such widget.
pub open spec fn methods_in(ws: Seq<WidgetView>, name: Seq<char>) -> Seq<DeclView> {
    if has_widget(ws, name) {
        ws[choose|i: int| first_named(ws, name, i)].methods
    } else {
        Seq::empty()
    }
}

/// `name` is one of the first `hi` names.
pub open spec fn named_before(names: Seq<Seq<char>>, name: Seq<char>, hi: int) -> bool {
    exists|j: int| 0 <= j < hi && j < names.len() && names[j] == name
}

/// The methods of the first widget named `name` are those at its position.
pub proof fn lemma_methods_in_at(ws: Seq<WidgetView>, name: Seq<char>, i: int)
    requires
        first_named(ws, name, i),
    ensures
        has_widget(ws, name),
        methods_in(ws, name) == ws[i].methods,
{
    let c = choose|c: int| first_named(ws, name, c);
    lemma_first_named_unique(ws, name, i, c);
}

/// Putting a declaration under a name adds it to the methods under that name and
/// leaves the methods under every other name as they were.
pub proof fn lemma_methods_after_attached(
    ws: Seq<WidgetView>,
    target: Seq<char>,
    decl: DeclView,
    name: Seq<char>,
)
    ensures
        methods_in(attached(ws, target, decl), name) == (if name == target {
            methods_in(ws, name).push(decl)
        } else {
            methods_in(ws, name)
        }),
{
    let after = attached(ws, target, decl);
    if has_widget(ws, target) {
        let w = choose|w: int| 0 <= w < ws.len() && ws[w].name == target;
        lemma_first_named_exists(ws, target, w);
        let i = choose|i: int| first_named(ws, target, i);
        lemma_methods_in_at(ws, target, i);
        if name == target {
            lemma_methods_in_at(after, name, i);
        } else if has_widget(ws, name) {
            let v = choose|v: int| 0 <= v < ws.len() && ws[v].name == name;
            lemma_first_named_exists(ws, name, v);
            let j = choose|j: int| first_named(ws, name, j);
            lemma_methods_in_at(ws, name, j);
            lemma_methods_in_at(after, name, j);
        }
    } else {
        if name == target {
            lemma_methods_in_at(after, name, ws.len() as int);
        } else if has_widget(ws, name) {
            let v = choose|v: int| 0 <= v < ws.len() && ws[v].name == name;
            lemma_first_named_exists(ws, name, v);
            let j = choose|j: int| first_named(ws, name, j);
            lemma_methods_in_at(ws, name, j);
            lemma_methods_in_at(after, name, j);
        }
    }
}

/// After a declaration has gone under the first `hi` of distinct names, it has been
/// added once to the methods under each of those names that it attaches to.
pub proof fn lemma_methods_after_attached_upto(
    ws: Seq<WidgetView>,
    names: Seq<Seq<char>>,
    decl: DeclView,
    hi: int,
    name: Seq<char>,
)
    requires
        names.no_duplicates(),
        0 <= hi <= names.len(),
    ensures
        methods_in(attached_upto(ws, names, decl, hi), name) == (if attaches(decl, name)
            && named_before(names, name, hi) {
            methods_in(ws, name).push(decl)
        } else {
            methods_in(ws, name)
        }),
    decreases hi,
{
    if hi > 0 {
        lemma_methods_after_attached_upto(ws, names, decl, hi - 1, name);
        let prev = attached_upto(ws, names, decl, hi - 1);
        if attaches(decl, names[hi - 1]) {
            lemma_methods_after_attached(prev, names[hi - 1], decl, name);
        }
        if name == names[hi - 1] {
            if named_before(names, name, hi - 1) {
                let j = choose|j: int| 0 <= j < hi - 1 && j < names.len() && names[j] == name;
            }
        } else {
            if named_before(names, name, hi) {
                let j = choose|j: int| 0 <= j < hi && j < names.len() && names[j] == name;
            }
            if named_before(names, name, hi - 1) {
                let j = choose|j: int| 0 <= j < hi - 1 && j < names.len() && names[j] == name;
            }
        }
    }
}

/// Under distinct names, the methods of each widget are exactly the declarations
/// that attach to it, in the order in which they were declared; a name that no
/// declaration attaches to, or that was not discovered, has no methods.
pub proof fn lemma_grouped_methods(
    decls: Seq<DeclView>,
    names: Seq<Seq<char>>,
    hi: int,
    name: Seq<char>,
)
    requires
        names.no_duplicates(),
        0 <= hi <= decls.len(),
    ensures
        methods_in(grouped(decls, names, hi), name) == (if names.contains(name) {
            methods_for(decls, name, hi)
        } else {
            Seq::empty()
        }),
    decreases hi,
{
    if hi > 0 {
        lemma_grouped_methods(decls, names, hi - 1, name);
        lemma_methods_after_attached_upto(
            grouped(decls, names, hi - 1),
            names,
            decls[hi - 1],
            names.len() as int,
            name,
        );
        if names.contains(name) {
            let j = choose|j: int| 0 <= j < names.len() && names[j] == name;
        }
        if named_before(names, name, names.len() as int) {
            let j = choose|j: int| 0 <= j < names.len() && j < names.len() && names[j] == name;
        }
    }
}

/// Puts `f` under the widget named `name`.
pub fn attach(widgets: &mut Vec<LvWidget>, name: &str, f: &LvFunc)
    ensures
        widget_views(final(widgets)@) == attached(widget_views(old(widgets)@), name@, f@),
{
    let ghost before = widget_views(widgets@);
    let n: usize = widgets.len();
    let mut i: usize = 0;
    while i < n && !same_text(widgets[i].name.as_str(), name)
        invariant
            n == widgets.len(),
            before == widget_views(widgets@),
            i <= n,
            forall|j: int| 0 <= j < i ==> before[j].name != name@,
        decreases n - i,
    {
        i = i + 1;
    }
    if i < n {
        proof {
            let c = choose|c: int| first_named(before, name@, c);
            lemma_first_named_unique(before, name@, i as int, c);
        }
        let found = widgets.remove(i);
        let LvWidget { name: found_name, methods: found_methods } = found;
        let mut methods = found_methods;
        let copy = f.clone();
        proof {
            assert(decl_views(methods@.push(copy)) =~= decl_views(methods@).push(f@));
        }
        methods.push(copy);
        widgets.insert(i, LvWidget { name: found_name, methods });
    } else {
        let mut methods: Vec<LvFunc> = Vec::new();
        let copy = f.clone();
        methods.push(copy);
        proof {
            assert(decl_views(methods@) =~= seq![f@]);
        }
        let added = LvWidget { name: String::from_str(name), methods };
        widgets.push(added);
    }
}

/// Groups the declarations under the given widget names.
pub fn group_widgets(functions: &[LvFunc], names: &Vec<String>) -> (widgets: Vec<LvWidget>)
    ensures
        widget_views(widgets@) == grouped(
            decl_views(functions@),
            texts(names@),
            functions@.len() as int,
        ),
{
    let ghost decls = decl_views(functions@);
    let ghost all = texts(names@);
    let mut widgets: Vec<LvWidget> = Vec::new();
    let mut i: usize = 0;
    while i < functions.len()
        invariant
            i <= functions.len(),
            decls == decl_views(functions@),
            all == texts(names@),
            widget_views(widgets@) == grouped(decls, all, i as int),
        decreases functions.len() - i,
    {
        let f = &functions[i];
        let method = f.is_method();
        let mut k: usize = 0;
        while k < names.len()
            invariant
                k <= names.len(),
                i < functions.len(),
                decls == decl_views(functions@),
                all == texts(names@),
                f@ == decls[i as int],
                method == is_method_decl(f@),
                widget_views(widgets@) == attached_upto(
                    grouped(decls, all, i as int),
                    all,
                    f@,
                    k as int,
                ),
            decreases names.len() - k,
        {
            let mut namespace = String::from_str(LIB_PREFIX);
            namespace.append(names[k].as_str());
            namespace.append("_");
            if method && begins_with(f.name.as_str(), namespace.as_str()) {
                attach(&mut widgets, names[k].as_str(), f);
            }
            k = k + 1;
        }
        i = i + 1;
    }
    widgets
}

} // verus!
