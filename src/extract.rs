//! Structural extraction over a small syntax model of one source file.
//!
//! A parsed file is a sequence of [`SourceItem`]s: struct declarations, impl
//! blocks (with every path segment they mention and their methods), and
//! anything else. The target type of a file is its module name in Pascal case.
use crate::errors::FileParseError;
use crate::layout::FileInfos;
use crate::naming::{pascal_of, to_pascal};
use vstd::prelude::*;

verus! {

/// One parameter of a method: its identifier when its pattern is a plain
/// identifier, and its text as written (`x: i32`, `&self`).
#[derive(Debug, Clone, PartialEq, Eq)]
pub struct Param {
    pub ident: Option<String>,
    pub text: String,
}

pub type ParamView = (Option<Seq<char>>, Seq<char>);

pub open spec fn opt_str_view(o: Option<String>) -> Option<Seq<char>> {
    match o {
        Some(s) => Some(s@),
        None => None,
    }
}

impl View for Param {
    type V = ParamView;

    open spec fn view(&self) -> ParamView {
        (opt_str_view(self.ident), self.text@)
    }
}

pub open spec fn params_view(v: Seq<Param>) -> Seq<ParamView> {
    v.map_values(|p: Param| p@)
}

impl Param {
    /// A copy of the parameter.
    pub fn duplicate(&self) -> (r: Param)
        ensures
            r@ == self@,
    {
        let ident = match &self.ident {
            Some(s) => Some(s.clone()),
            None => None,
        };
        Param { ident, text: self.text.clone() }
    }
}

/// A copy of a parameter list.
pub fn copy_params(v: &Vec<Param>) -> (r: Vec<Param>)
    ensures
        params_view(r@) == params_view(v@),
{
    let mut r: Vec<Param> = Vec::new();
    let mut i: usize = 0;
    while i < v.len()
        invariant
            0 <= i <= v@.len(),
            r@.len() == i,
            forall|k: int| 0 <= k < i ==> #[trigger] r@[k]@ == v@[k]@,
        decreases v@.len() - i,
    {
        let p = v[i].duplicate();
        r.push(p);
        i += 1;
    }
    assert(params_view(r@) =~= params_view(v@));
    r
}

/// A method of an impl block, without its body.
#[derive(Debug, Clone, PartialEq, Eq)]
pub struct ImplMethod {
    pub name: String,
    pub is_public: bool,
    pub params: Vec<Param>,
    /// The declared return type as written (empty where there is none).
    pub output: String,
    /// The method's attributes, visibility and whole signature as written
    /// (qualifiers, generics and where clause included), without its body.
    pub header: String,
}

/// A top-level declaration of a source file.
#[derive(Debug, Clone, PartialEq, Eq)]
pub enum SourceItem {
    Struct { name: String },
    /// An impl block: the identifiers of every path segment it mentions, and
    /// its methods in declaration order.
    Impl { mentions: Vec<String>, methods: Vec<ImplMethod> },
    Other,
}

/// The signature of a constructor, without a body: its name, parameters and
/// return type, and the whole header it was declared with.
#[derive(Debug, Clone, PartialEq, Eq)]
pub struct ConstructorStub {
    pub name: String,
    pub params: Vec<Param>,
    pub output: String,
    pub header: String,
}

pub type StubView = (Seq<char>, Seq<ParamView>, Seq<char>, Seq<char>);

impl View for ConstructorStub {
    type V = StubView;

    open spec fn view(&self) -> StubView {
        (self.name@, params_view(self.params@), self.output@, self.header@)
    }
}

pub open spec fn stub_opt_view(o: Option<ConstructorStub>) -> Option<StubView> {
    match o {
        Some(s) => Some(s@),
        None => None,
    }
}

/// Some string of `v` reads `t`.
pub open spec fn mentions(v: Seq<String>, t: Seq<char>) -> bool {
    exists|i: int| 0 <= i < v.len() && #[trigger] v[i]@ == t
}

/// The number of struct declarations named `target`.
pub open spec fn count_structs(items: Seq<SourceItem>, target: Seq<char>) -> nat
    decreases items.len(),
{
    if items.len() == 0 {
        0
    } else {
        let prev = count_structs(items.drop_last(), target);
        match items.last() {
            SourceItem::Struct { name } => if name@ == target {
                prev + 1
            } else {
                prev
            },
            _ => prev,
        }
    }
}

/// A public method named `method` whose return type is the enclosing type
/// itself, written `Self`.
pub open spec fn is_constructor(m: ImplMethod, method: Seq<char>) -> bool {
    m.name@ == method && m.is_public && m.output@ == "Self"@
}

pub open spec fn stub_of(m: ImplMethod) -> StubView {
    (m.name@, params_view(m.params@), m.output@, m.header@)
}

/// The first constructor among the methods, in declaration order.
pub open spec fn first_ctor_in(ms: Seq<ImplMethod>, method: Seq<char>) -> Option<StubView>
    decreases ms.len(),
{
    if ms.len() == 0 {
        None
    } else if is_constructor(ms[0], method) {
        Some(stub_of(ms[0]))
    } else {
        first_ctor_in(ms.drop_first(), method)
    }
}

/// The first constructor, in declaration order, of the impl blocks that
/// mention `target`.
pub open spec fn find_ctor(items: Seq<SourceItem>, target: Seq<char>, method: Seq<char>) -> Option<
    StubView,
>
    decreases items.len(),
{
    if items.len() == 0 {
        None
    } else {
        let here = match items[0] {
            SourceItem::Impl { mentions: ms, methods } => if mentions(ms@, target) {
                first_ctor_in(methods@, method)
            } else {
                None
            },
            _ => None,
        };
        if here is Some {
            here
        } else {
            find_ctor(items.drop_first(), target, method)
        }
    }
}

/// What extraction gives for a file whose items are `items`: its constructor,
/// or the error for a file without exactly one struct of the target name.
pub open spec fn extraction(items: Seq<SourceItem>, module: Seq<char>, method: Seq<char>) -> Result<
    Option<StubView>,
    Seq<char>,
> {
    if count_structs(items, pascal_of(module)) == 1 {
        Ok(find_ctor(items, pascal_of(module), method))
    } else {
        Err(pascal_of(module))
    }
}

/// The outcome of [`visit_file`] for module `module` with items `items`.
pub open spec fn visit_outcome(
    module: Seq<char>,
    items: Seq<SourceItem>,
    method: Seq<char>,
    r: Result<Option<ConstructorStub>, FileParseError>,
) -> bool {
    match r {
        Ok(s) => extraction(items, module, method) == Ok::<Option<StubView>, Seq<char>>(
            stub_opt_view(s),
        ),
        Err(FileParseError::NoOrTooManyStruct(n)) => extraction(items, module, method) == Err::<
            Option<StubView>,
            Seq<char>,
        >(n@),
        Err(_) => false,
    }
}

fn has_mention(v: &Vec<String>, t: &String) -> (r: bool)
    ensures
        r == mentions(v@, t@),
{
    let mut i: usize = 0;
    while i < v.len()
        invariant
            0 <= i <= v@.len(),
            forall|j: int| 0 <= j < i ==> v@[j]@ != t@,
        decreases v@.len() - i,
    {
        if v[i] == *t {
            return true;
        }
        i += 1;
    }
    false
}

fn first_constructor(ms: &Vec<ImplMethod>, method: &String) -> (r: Option<ConstructorStub>)
    ensures
        stub_opt_view(r) == first_ctor_in(ms@, method@),
{
    let self_name = String::from_str("Self");
    let mut i: usize = 0;
    assert(ms@.subrange(0, ms@.len() as int) == ms@);
    while i < ms.len()
        invariant
            0 <= i <= ms@.len(),
            self_name@ == "Self"@,
            first_ctor_in(ms@, method@) == first_ctor_in(ms@.subrange(i as int, ms@.len() as int), method@),
        decreases ms@.len() - i,
    {
        proof {
            assert(ms@.subrange(i as int, ms@.len() as int).drop_first() == ms@.subrange(
                i + 1,
                ms@.len() as int,
            ));
        }
        let m = &ms[i];
        if m.name == *method && m.is_public && m.output == self_name {
            return Some(
                ConstructorStub {
                    name: m.name.clone(),
                    params: copy_params(&m.params),
                    output: m.output.clone(),
                    header: m.header.clone(),
                },
            );
        }
        i += 1;
    }
    None
}

fn count_named_structs(items: &Vec<SourceItem>, target: &String) -> (r: usize)
    ensures
        r == count_structs(items@, target@),
{
    let mut n: usize = 0;
    let mut i: usize = 0;
    while i < items.len()
        invariant
            0 <= i <= items@.len(),
            n == count_structs(items@.subrange(0, i as int), target@),
            n <= i,
        decreases items@.len() - i,
    {
        proof {
            assert(items@.subrange(0, i + 1).drop_last() == items@.subrange(0, i as int));
        }
        match &items[i] {
            SourceItem::Struct { name } => {
                if *name == *target {
                    n += 1;
                }
            },
            _ => {},
        }
        i += 1;
    }
    proof {
        assert(items@.subrange(0, items@.len() as int) == items@);
    }
    n
}

/// Extracts the constructor of one file.
///
/// The file must declare exactly one struct named after its module in Pascal
/// case, else `NoOrTooManyStruct` with that name. The constructor is the first
/// public method named `init_method` whose return type is `Self`, in
/// declaration order over the impl blocks that mention the struct's name;
/// `None` where there is none.
pub fn visit_file(infos: &FileInfos, items: &Vec<SourceItem>, init_method: &str) -> (r: Result<
    Option<ConstructorStub>,
    FileParseError,
>)
    ensures
        visit_outcome(infos.0@, items@, init_method@, r),
{
    let target = to_pascal(infos.0.as_str());
    let method = String::from_str(init_method);
    if count_named_structs(items, &target) != 1 {
        return Err(FileParseError::NoOrTooManyStruct(target));
    }
    let mut i: usize = 0;
    assert(items@.subrange(0, items@.len() as int) == items@);
    while i < items.len()
        invariant
            0 <= i <= items@.len(),
            count_structs(items@, target@) == 1,
            target@ == pascal_of(infos.0@),
            method@ == init_method@,
            find_ctor(items@, target@, method@) == find_ctor(
                items@.subrange(i as int, items@.len() as int),
                target@,
                method@,
            ),
        decreases items@.len() - i,
    {
        proof {
            assert(items@.subrange(i as int, items@.len() as int).drop_first() == items@.subrange(
                i + 1,
                items@.len() as int,
            ));
            assert(items@.subrange(i as int, items@.len() as int)[0] == items@[i as int]);
        }
        match &items[i] {
            SourceItem::Impl { mentions: ms, methods } => {
                if has_mention(ms, &target) {
                    let found = first_constructor(methods, &method);
                    if found.is_some() {
                        return Ok(found);
                    }
                }
            },
            _ => {},
        }
        i += 1;
    }
    Ok(None)
}

} // verus!
