//! The generator: from binding text to the module text of each widget, by way of
//! the declarations it holds and the widgets discovered among them.

use crate::decl::{DeclView, LvFunc, LIB_PREFIX};
use crate::group::{group_widgets, grouped, widget_views};
use crate::load::{block_decls, decl_of, file_decls, loaded_decls};
use crate::lower::{texts, Rusty};
use crate::naming::{compile, compiled, first_group, first_group_of};
use crate::syntax::{file_items, foreign_items, parse_file};
use crate::text::begins_with;
use crate::widget::{decl_views, widget_text, LvWidget, WidgetView};
use vstd::prelude::*;
use vstd::string::*;

verus! {

/// Why no generator came out of a text.
#[derive(Debug, Clone, Copy, PartialEq, Eq, Structural)]
pub enum CodeGenError {
    /// The text is no well-formed sequence of items.
    Malformed,
    /// A type literal that had to denote a known type does not read as one.
    UnreadableType,
}

pub type CGResult<T> = Result<T, CodeGenError>;

/// The pattern of a constructor's name: the prefix, a widget name without
/// underscore, and `_create`.
pub open spec fn constructor_pattern() -> Seq<char> {
    "^"@ + LIB_PREFIX@ + "([^_]+)_create$"@
}

/// The widget names discovered among the first `hi` declarations: for each
/// declaration with exactly one parameter whose name `re` matches, what the
/// pattern's group holds.
pub open spec fn names_upto(decls: Seq<DeclView>, re: regex::Regex, hi: int) -> Seq<Seq<char>>
    decreases hi,
{
    if hi <= 0 {
        Seq::empty()
    } else {
        match first_group_of(re, decls[hi - 1].name) {
            Some(name) => if decls[hi - 1].args.len() == 1 {
                names_upto(decls, re, hi - 1).push(name)
            } else {
                names_upto(decls, re, hi - 1)
            },
            None => names_upto(decls, re, hi - 1),
        }
    }
}

/// The widget names discovered among the declarations.
pub open spec fn widget_names(decls: Seq<DeclView>) -> Seq<Seq<char>> {
    match compiled(constructor_pattern()) {
        Some(re) => names_upto(decls, re, decls.len() as int),
        None => Seq::empty(),
    }
}

/// The module texts of the first `hi` widgets, in order; the error of the first
/// widget that has none.
pub open spec fn modules_upto(ws: Seq<WidgetView>, hi: int) -> Result<Seq<Seq<char>>, CodeGenError>
    decreases hi,
{
    if hi <= 0 {
        Ok(Seq::empty())
    } else {
        match modules_upto(ws, hi - 1) {
            Err(e) => Err(e),
            Ok(init) => match widget_text(ws[hi - 1]) {
                Ok(t) => Ok(init.push(t)),
                Err(_) => Err(CodeGenError::UnreadableType),
            },
        }
    }
}

/// What the generator writes for a text: one module for each widget found in it.
pub open spec fn generated(code: Seq<char>) -> Result<Seq<Seq<char>>, CodeGenError> {
    match loaded_decls(code) {
        None => Err(CodeGenError::Malformed),
        Some(decls) => {
            let widgets = grouped(decls, widget_names(decls), decls.len() as int);
            modules_upto(widgets, widgets.len() as int)
        },
    }
}

/// Texts or an error, out of strings or that error.
pub open spec fn result_texts(r: CGResult<Vec<String>>) -> Result<Seq<Seq<char>>, CodeGenError> {
    match r {
        Ok(v) => Ok(texts(v@)),
        Err(e) => Err(e),
    }
}

/// Once a widget has no module, no longer range has modules.
pub proof fn lemma_modules_error_stays(ws: Seq<WidgetView>, mid: int, hi: int, e: CodeGenError)
    requires
        mid <= hi,
        modules_upto(ws, mid) == Err::<Seq<Seq<char>>, CodeGenError>(e),
    ensures
        modules_upto(ws, hi) == Err::<Seq<Seq<char>>, CodeGenError>(e),
    decreases hi - mid,
{
    if mid < hi {
        lemma_modules_error_stays(ws, mid, hi - 1, e);
    }
}

/// The generator's state: the declarations it loaded and the widgets it grouped them under.
#[derive(Debug)]
pub struct CodeGen {
    pub functions: Vec<LvFunc>,
    pub widgets: Vec<LvWidget>,
}

/// The widget names among the declarations whose names `re` matches.
pub fn widget_names_matching(functions: &[LvFunc], re: &regex::Regex) -> (names: Vec<String>)
    ensures
        texts(names@) == names_upto(decl_views(functions@), *re, functions@.len() as int),
{
    let ghost decls = decl_views(functions@);
    let mut names: Vec<String> = Vec::new();
    let mut i: usize = 0;
    while i < functions.len()
        invariant
            i <= functions.len(),
            decls == decl_views(functions@),
            texts(names@) == names_upto(decls, *re, i as int),
        decreases functions.len() - i,
    {
        let f = &functions[i];
        match first_group(re, f.name.as_str()) {
            Some(name) => {
                if f.args.len() == 1 {
                    names.push(name);
                }
            },
            None => {},
        }
        i = i + 1;
    }
    names
}

impl CodeGen {
    /// Loads the declarations of `code` and groups them under the widgets found among them.
    pub fn from(code: &str) -> (made: CGResult<CodeGen>)
        ensures
            match made {
                Ok(generator) => loaded_decls(code@) == Some(decl_views(generator.functions@))
                    && widget_views(generator.widgets@) == grouped(
                    decl_views(generator.functions@),
                    widget_names(decl_views(generator.functions@)),
                    generator.functions@.len() as int,
                ),
                Err(e) => loaded_decls(code@) is None && e == CodeGenError::Malformed,
            },
    {
        match CodeGen::load_func_defs(code) {
            Ok(functions) => {
                let widgets = CodeGen::extract_widgets(functions.as_slice());
                Ok(CodeGen { functions, widgets })
            },
            Err(e) => Err(e),
        }
    }

    /// The module text of each widget, in order.
    pub fn emit(&self) -> (modules: CGResult<Vec<String>>)
        ensures
            result_texts(modules) == modules_upto(
                widget_views(self.widgets@),
                self.widgets@.len() as int,
            ),
    {
        let ghost ws = widget_views(self.widgets@);
        let n: usize = self.widgets.len();
        let mut modules: Vec<String> = Vec::new();
        let mut i: usize = 0;
        proof {
            assert(texts(modules@) =~= Seq::<Seq<char>>::empty());
        }
        while i < n
            invariant
                n == self.widgets.len(),
                ws == widget_views(self.widgets@),
                i <= n,
                modules_upto(ws, i as int) == Ok::<Seq<Seq<char>>, CodeGenError>(texts(modules@)),
            decreases n - i,
        {
            match self.widgets[i].code(&()) {
                Ok(text) => {
                    proof {
                        assert(texts(modules@.push(text)) =~= texts(modules@).push(text@));
                    }
                    modules.push(text);
                },
                Err(_) => {
                    proof {
                        lemma_modules_error_stays(
                            ws,
                            i + 1,
                            n as int,
                            CodeGenError::UnreadableType,
                        );
                    }
                    return Err(CodeGenError::UnreadableType);
                },
            }
            i = i + 1;
        }
        Ok(modules)
    }

    /// Runs the generator on a text: loads, groups, lowers and renders. The outcome
    /// is a function of the text alone.
    pub fn generate(code: &str) -> (modules: CGResult<Vec<String>>)
        ensures
            result_texts(modules) == generated(code@),
    {
        match CodeGen::from(code) {
            Ok(generator) => generator.emit(),
            Err(e) => Err(e),
        }
    }

    pub fn get_widgets(&self) -> (widgets: &Vec<LvWidget>)
        ensures
            widgets == &self.widgets,
    {
        &self.widgets
    }

    /// The widgets found among the declarations, each with its methods.
    pub fn extract_widgets(functions: &[LvFunc]) -> (widgets: Vec<LvWidget>)
        ensures
            widget_views(widgets@) == grouped(
                decl_views(functions@),
                widget_names(decl_views(functions@)),
                functions@.len() as int,
            ),
    {
        let names = CodeGen::get_widget_names(functions);
        group_widgets(functions, &names)
    }

    /// The names of the widgets that have a constructor among the declarations.
    pub fn get_widget_names(functions: &[LvFunc]) -> (names: Vec<String>)
        ensures
            texts(names@) == widget_names(decl_views(functions@)),
    {
        let mut pattern = String::from_str("^");
        pattern.append(LIB_PREFIX);
        pattern.append("([^_]+)_create$");
        match compile(pattern.as_str()) {
            Some(re) => widget_names_matching(functions, &re),
            None => {
                let names: Vec<String> = Vec::new();
                names
            },
        }
    }

    /// The toolkit's declarations in the foreign blocks of `bindgen_code`.
    pub fn load_func_defs(bindgen_code: &str) -> (loaded: CGResult<Vec<LvFunc>>)
        ensures
            match loaded {
                Ok(fns) => loaded_decls(bindgen_code@) == Some(decl_views(fns@)),
                Err(e) => loaded_decls(bindgen_code@) is None && e == CodeGenError::Malformed,
            },
    {
        let file = match parse_file(bindgen_code) {
            Ok(file) => file,
            Err(_) => {
                return Err(CodeGenError::Malformed);
            },
        };
        let items = file_items(&file);
        let mut fns: Vec<LvFunc> = Vec::new();
        let mut i: usize = 0;
        while i < items.len()
            invariant
                i <= items.len(),
                decl_views(fns@) == file_decls(items@, i as int),
            decreases items.len() - i,
        {
            match foreign_items(&items[i]) {
                Some(block) => {
                    let ghost done = decl_views(fns@);
                    let mut j: usize = 0;
                    while j < block.len()
                        invariant
                            j <= block.len(),
                            decl_views(fns@) == done + block_decls(block@, j as int),
                        decreases block.len() - j,
                    {
                        match LvFunc::from_foreign(&block[j]) {
                            Some(f) => {
                                if begins_with(f.name.as_str(), LIB_PREFIX) {
                                    proof {
                                        let sofar = block_decls(block@, j as int);
                                        assert((done + sofar).push(f@) =~= done + sofar.push(f@));
                                    }
                                    fns.push(f);
                                }
                            },
                            None => {},
                        }
                        j = j + 1;
                    }
                },
                None => {},
            }
            i = i + 1;
        }
        Ok(fns)
    }

    /// The names of the loaded declarations, in order.
    pub fn get_function_names(&self) -> (names: CGResult<Vec<String>>)
        ensures
            names is Ok,
            texts(names.unwrap()@) == Seq::new(
                self.functions@.len(),
                |i: int| self.functions@[i].name@,
            ),
    {
        let mut names: Vec<String> = Vec::new();
        let mut i: usize = 0;
        while i < self.functions.len()
            invariant
                i <= self.functions.len(),
                names.len() == i,
                forall|j: int| 0 <= j < i ==> names[j]@ == self.functions[j].name@,
            decreases self.functions.len() - i,
        {
            names.push(self.functions[i].name.clone());
            i = i + 1;
        }
        Ok(names)
    }
}

} // verus!
