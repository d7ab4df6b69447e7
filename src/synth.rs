//! The consistency check of the constructors and the synthesis of the
//! aggregate type.
use crate::errors::FileParseError;
use crate::extract::{
    count_structs, find_ctor, params_view, stub_opt_view, visit_file, ConstructorStub, Param,
    ParamView, SourceItem, StubView,
};
use crate::layout::FileInfos;
use crate::naming::{ident_ok, is_ident, pascal_of, snake_of, to_pascal, to_snake};
use vstd::prelude::*;

verus! {

/// A field of the aggregate: one per module.
#[derive(Debug, Clone, PartialEq, Eq)]
pub struct AggregateField {
    pub name: String,
    pub ty: String,
}

/// One field of the aggregate constructor's body:
/// `field: TypeName::method(args, ...)`.
#[derive(Debug, Clone, PartialEq, Eq)]
pub struct FieldInit {
    pub field: String,
    pub ty: String,
    pub method: String,
    pub args: Vec<String>,
}

/// The aggregate's constructor: the shared signature and one call per module.
#[derive(Debug, Clone, PartialEq, Eq)]
pub struct AggregateConstructor {
    pub signature: ConstructorStub,
    pub inits: Vec<FieldInit>,
}

/// What synthesis produces: `pub mod m;` and `use m::T;` per module, the
/// aggregate struct with its derives and fields, and its constructor if the
/// modules have one.
#[derive(Debug, Clone, PartialEq, Eq)]
pub struct SynthesizedUnit {
    pub mods: Vec<String>,
    pub uses: Vec<(String, String)>,
    pub struct_name: String,
    pub derives: Vec<String>,
    pub fields: Vec<AggregateField>,
    pub constructor: Option<AggregateConstructor>,
}

pub type InitView = (Seq<char>, Seq<char>, Seq<char>, Seq<Seq<char>>);

/// The value of a synthesized unit.
pub struct UnitView {
    pub mods: Seq<Seq<char>>,
    pub uses: Seq<(Seq<char>, Seq<char>)>,
    pub struct_name: Seq<char>,
    pub derives: Seq<Seq<char>>,
    pub fields: Seq<(Seq<char>, Seq<char>)>,
    pub constructor: Option<(StubView, Seq<InitView>)>,
}

pub open spec fn strs_view(v: Seq<String>) -> Seq<Seq<char>> {
    v.map_values(|s: String| s@)
}

pub open spec fn init_view(f: FieldInit) -> InitView {
    (f.field@, f.ty@, f.method@, strs_view(f.args@))
}

pub open spec fn unit_view(u: SynthesizedUnit) -> UnitView {
    UnitView {
        mods: strs_view(u.mods@),
        uses: u.uses@.map_values(|p: (String, String)| (p.0@, p.1@)),
        struct_name: u.struct_name@,
        derives: strs_view(u.derives@),
        fields: u.fields@.map_values(|f: AggregateField| (f.name@, f.ty@)),
        constructor: match u.constructor {
            None => None,
            Some(c) => Some((c.signature@, c.inits@.map_values(|f: FieldInit| init_view(f)))),
        },
    }
}

/// The identifiers of the parameters that are plain identifiers, in order:
/// what the aggregate constructor forwards to every module.
pub open spec fn forwarded(ps: Seq<ParamView>) -> Seq<Seq<char>>
    decreases ps.len(),
{
    if ps.len() == 0 {
        seq![]
    } else {
        let prev = forwarded(ps.drop_last());
        match ps.last().0 {
            Some(id) => prev.push(id),
            None => prev,
        }
    }
}

/// The unit synthesized for modules `mods` of directory `dir`, with the
/// derives `derives`, the constructor method `method` and the shared
/// constructor `stub`.
pub open spec fn expected_unit(
    mods: Seq<Seq<char>>,
    dir: Seq<char>,
    derives: Seq<Seq<char>>,
    method: Seq<char>,
    stub: Option<StubView>,
) -> UnitView {
    UnitView {
        mods: Seq::new(mods.len(), |i: int| snake_of(mods[i])),
        uses: Seq::new(mods.len(), |i: int| (snake_of(mods[i]), pascal_of(mods[i]))),
        struct_name: pascal_of(dir),
        derives,
        fields: Seq::new(mods.len(), |i: int| (snake_of(mods[i]), pascal_of(mods[i]))),
        constructor: match stub {
            None => None,
            Some(s) => Some(
                (
                    s,
                    Seq::new(
                        mods.len(),
                        |i: int|
                            (snake_of(mods[i]), pascal_of(mods[i]), snake_of(method), forwarded(s.1)),
                    ),
                ),
            ),
        },
    }
}

/// Field and type names, two per module, in module order.
pub open spec fn pair_names(mods: Seq<Seq<char>>) -> Seq<Seq<char>>
    decreases mods.len(),
{
    if mods.len() == 0 {
        seq![]
    } else {
        pair_names(mods.drop_last()) + seq![snake_of(mods.last()), pascal_of(mods.last())]
    }
}

/// Every name that synthesis turns into an identifier, in the order in which
/// it does so.
pub open spec fn checked_names(
    mods: Seq<Seq<char>>,
    dir: Seq<char>,
    method: Seq<char>,
    has_ctor: bool,
) -> Seq<Seq<char>> {
    seq![pascal_of(dir)] + pair_names(mods) + (if has_ctor {
        seq![snake_of(method)]
    } else {
        seq![]
    })
}

pub open spec fn bad_ident_message(s: Seq<char>) -> Seq<char> {
    "not an identifier: "@ + s
}

/// `names[k]` is the first of `names` that is not an identifier.
pub open spec fn first_bad(names: Seq<Seq<char>>, k: int) -> bool {
    0 <= k < names.len() && !ident_ok(names[k]) && forall|j: int|
        0 <= j < k ==> #[trigger] ident_ok(names[j])
}

pub open spec fn all_idents(names: Seq<Seq<char>>) -> bool {
    forall|j: int| 0 <= j < names.len() ==> #[trigger] ident_ok(names[j])
}

/// The constructor method name of every module.
pub open spec fn init_method() -> Seq<char> {
    "new"@
}

pub open spec fn module_names(infos: Seq<FileInfos>) -> Seq<Seq<char>> {
    infos.map_values(|f: FileInfos| f.0@)
}

/// The file was parsed and declares exactly one struct of its target name.
pub open spec fn file_fine(info: FileInfos, p: Result<Vec<SourceItem>, FileParseError>) -> bool {
    p is Ok && count_structs(p->Ok_0@, pascal_of(info.0@)) == 1
}

/// The constructor extracted from a file.
pub open spec fn file_stub(info: FileInfos, p: Result<Vec<SourceItem>, FileParseError>) -> Option<
    StubView,
> {
    find_ctor(p->Ok_0@, pascal_of(info.0@), init_method())
}

pub open spec fn files_fine_before(
    infos: Seq<FileInfos>,
    parsed: Seq<Result<Vec<SourceItem>, FileParseError>>,
    i: int,
) -> bool {
    forall|j: int| 0 <= j < i ==> #[trigger] file_fine(infos[j], parsed[j])
}

/// Every file has the constructor of the first file.
pub open spec fn all_same_stub(
    infos: Seq<FileInfos>,
    parsed: Seq<Result<Vec<SourceItem>, FileParseError>>,
) -> bool {
    forall|j: int|
        0 <= j < infos.len() ==> #[trigger] file_stub(infos[j], parsed[j]) == file_stub(
            infos[0],
            parsed[0],
        )
}

/// The outcome of synthesis on files `infos`, parsed as `parsed`: the first
/// file that failed to parse or to extract fails the whole; then the
/// constructors must all be the same; then every derived name must be an
/// identifier; then the unit is the one [`expected_unit`] gives.
pub open spec fn implem_outcome(
    infos: Seq<FileInfos>,
    parsed: Seq<Result<Vec<SourceItem>, FileParseError>>,
    dir: Seq<char>,
    derives: Seq<Seq<char>>,
    r: Result<SynthesizedUnit, FileParseError>,
) -> bool {
    let n = infos.len() as int;
    let stub = file_stub(infos[0], parsed[0]);
    let names = checked_names(module_names(infos), dir, init_method(), stub is Some);
    match r {
        Ok(u) => files_fine_before(infos, parsed, n) && all_same_stub(infos, parsed) && all_idents(
            names,
        ) && unit_view(u) == expected_unit(module_names(infos), dir, derives, init_method(), stub),
        Err(e) => (exists|i: int| first_failed_file(infos, parsed, i, e)) || (files_fine_before(
            infos,
            parsed,
            n,
        ) && !all_same_stub(infos, parsed) && e is NotAllNewMethodsAreIdentical) || (
        files_fine_before(infos, parsed, n) && all_same_stub(infos, parsed) && exists|k: int|
            first_bad(names, k) && bad_ident_error(e, names[k])),
    }
}

/// File `i` is the first that failed, and `e` is its error.
pub open spec fn first_failed_file(
    infos: Seq<FileInfos>,
    parsed: Seq<Result<Vec<SourceItem>, FileParseError>>,
    i: int,
    e: FileParseError,
) -> bool {
    0 <= i < infos.len() && files_fine_before(infos, parsed, i) && !file_fine(infos[i], parsed[i])
        && match parsed[i] {
        Err(pe) => e == pe,
        Ok(_) => (e matches FileParseError::NoOrTooManyStruct(t) && t@ == pascal_of(infos[i].0@)),
    }
}

/// `e` reports that `name` is not an identifier.
pub open spec fn bad_ident_error(e: FileParseError, name: Seq<char>) -> bool {
    e matches FileParseError::Other(m) && m@ == bad_ident_message(name)
}

impl FileParseError {
    /// A copy of the error.
    pub fn duplicate(&self) -> (r: FileParseError)
        ensures
            r == *self,
    {
        match self {
            FileParseError::CannotReadFile(m) => FileParseError::CannotReadFile(m.clone()),
            FileParseError::CannotParseFile { path, error } => FileParseError::CannotParseFile {
                path: path.clone(),
                error: error.clone(),
            },
            FileParseError::NoOrTooManyStruct(n) => FileParseError::NoOrTooManyStruct(n.clone()),
            FileParseError::NotAllNewMethodsAreIdentical => {
                FileParseError::NotAllNewMethodsAreIdentical
            },
            FileParseError::Other(m) => FileParseError::Other(m.clone()),
        }
    }
}

fn param_eq(a: &Param, b: &Param) -> (r: bool)
    ensures
        r == (a@ == b@),
{
    let same_ident = match (&a.ident, &b.ident) {
        (Some(x), Some(y)) => *x == *y,
        (None, None) => true,
        _ => false,
    };
    same_ident && a.text == b.text
}

fn params_eq(a: &Vec<Param>, b: &Vec<Param>) -> (r: bool)
    ensures
        r == (params_view(a@) == params_view(b@)),
{
    if a.len() != b.len() {
        assert(params_view(a@).len() != params_view(b@).len());
        return false;
    }
    let mut i: usize = 0;
    while i < a.len()
        invariant
            0 <= i <= a@.len(),
            a@.len() == b@.len(),
            forall|k: int| 0 <= k < i ==> #[trigger] a@[k]@ == b@[k]@,
        decreases a@.len() - i,
    {
        if !param_eq(&a[i], &b[i]) {
            assert(params_view(a@)[i as int] != params_view(b@)[i as int]);
            return false;
        }
        i += 1;
    }
    assert(params_view(a@) =~= params_view(b@));
    true
}

fn stub_eq(a: &Option<ConstructorStub>, b: &Option<ConstructorStub>) -> (r: bool)
    ensures
        r == (stub_opt_view(*a) == stub_opt_view(*b)),
{
    match (a, b) {
        (Some(x), Some(y)) => x.name == y.name && params_eq(&x.params, &y.params) && x.output
            == y.output && x.header == y.header,
        (None, None) => true,
        _ => false,
    }
}

/// Checks that every file has the same constructor as the first one (or that
/// none of them has one).
pub fn verify_constructors(stubs: &Vec<Option<ConstructorStub>>) -> (r: Result<(), FileParseError>)
    requires
        stubs@.len() >= 1,
    ensures
        r is Ok <==> forall|j: int|
            0 <= j < stubs@.len() ==> #[trigger] stub_opt_view(stubs@[j]) == stub_opt_view(
                stubs@[0],
            ),
        r is Err ==> r == Err::<(), FileParseError>(FileParseError::NotAllNewMethodsAreIdentical),
{
    let mut i: usize = 0;
    while i < stubs.len()
        invariant
            0 <= i <= stubs@.len(),
            stubs@.len() >= 1,
            forall|j: int|
                0 <= j < i ==> #[trigger] stub_opt_view(stubs@[j]) == stub_opt_view(stubs@[0]),
        decreases stubs@.len() - i,
    {
        if !stub_eq(&stubs[i], &stubs[0]) {
            return Err(FileParseError::NotAllNewMethodsAreIdentical);
        }
        i += 1;
    }
    Ok(())
}

fn copy_strings(v: &Vec<String>) -> (r: Vec<String>)
    ensures
        r@ == v@,
{
    let mut r: Vec<String> = Vec::new();
    let mut i: usize = 0;
    while i < v.len()
        invariant
            0 <= i <= v@.len(),
            r@ == v@.subrange(0, i as int),
        decreases v@.len() - i,
    {
        r.push(v[i].clone());
        assert(r@ =~= v@.subrange(0, i + 1));
        i += 1;
    }
    assert(r@ =~= v@);
    r
}

fn forwarded_args(ps: &Vec<Param>) -> (r: Vec<String>)
    ensures
        strs_view(r@) == forwarded(params_view(ps@)),
{
    let mut r: Vec<String> = Vec::new();
    let mut i: usize = 0;
    while i < ps.len()
        invariant
            0 <= i <= ps@.len(),
            strs_view(r@) == forwarded(params_view(ps@.subrange(0, i as int))),
        decreases ps@.len() - i,
    {
        proof {
            assert(params_view(ps@.subrange(0, i + 1)).drop_last() =~= params_view(
                ps@.subrange(0, i as int),
            ));
            assert(params_view(ps@.subrange(0, i + 1)).last() == ps@[i as int]@);
        }
        match &ps[i].ident {
            Some(id) => {
                let ghost before = r@;
                r.push(id.clone());
                assert(strs_view(r@) =~= strs_view(before).push(id@));
            },
            None => {},
        }
        i += 1;
    }
    assert(ps@.subrange(0, ps@.len() as int) == ps@);
    r
}

fn first_bad_index(names: &Vec<String>) -> (r: Option<usize>)
    ensures
        match r {
            None => all_idents(strs_view(names@)),
            Some(k) => first_bad(strs_view(names@), k as int),
        },
{
    let mut i: usize = 0;
    while i < names.len()
        invariant
            0 <= i <= names@.len(),
            forall|j: int| 0 <= j < i ==> #[trigger] ident_ok(strs_view(names@)[j]),
        decreases names@.len() - i,
    {
        if !is_ident(names[i].as_str()) {
            return Some(i);
        }
        i += 1;
    }
    None
}

fn names_to_check(infos: &Vec<FileInfos>, dir: &String, has_ctor: bool) -> (r: Vec<String>)
    ensures
        strs_view(r@) == checked_names(module_names(infos@), dir@, init_method(), has_ctor),
{
    let ghost mods = module_names(infos@);
    let mut r: Vec<String> = Vec::new();
    r.push(to_pascal(dir.as_str()));
    let mut i: usize = 0;
    assert(strs_view(r@) =~= seq![pascal_of(dir@)] + pair_names(mods.subrange(0, 0)));
    while i < infos.len()
        invariant
            0 <= i <= infos@.len(),
            mods == module_names(infos@),
            strs_view(r@) == seq![pascal_of(dir@)] + pair_names(mods.subrange(0, i as int)),
        decreases infos@.len() - i,
    {
        proof {
            assert(mods.subrange(0, i + 1).drop_last() =~= mods.subrange(0, i as int));
            assert(mods.subrange(0, i + 1).last() == infos@[i as int].0@);
        }
        let ghost before = strs_view(r@);
        let sn = to_snake(infos[i].0.as_str());
        let pn = to_pascal(infos[i].0.as_str());
        r.push(sn);
        r.push(pn);
        assert(strs_view(r@) =~= before + seq![sn@, pn@]);
        i += 1;
    }
    assert(mods.subrange(0, infos@.len() as int) =~= mods);
    if has_ctor {
        let ghost before = strs_view(r@);
        r.push(to_snake("new"));
        assert(strs_view(r@) =~= before + seq![snake_of(init_method())]);
    }
    r
}

fn build_unit(
    infos: &Vec<FileInfos>,
    dir: &String,
    derives: Vec<String>,
    stub: Option<ConstructorStub>,
) -> (u: SynthesizedUnit)
    ensures
        unit_view(u) == expected_unit(
            module_names(infos@),
            dir@,
            strs_view(derives@),
            init_method(),
            stub_opt_view(stub),
        ),
{
    let ghost ms = module_names(infos@);
    let method = to_snake("new");
    let args = match &stub {
        Some(s) => forwarded_args(&s.params),
        None => Vec::new(),
    };
    let ghost fwd = forwarded(stub_opt_view(stub)->Some_0.1);
    let mut mods: Vec<String> = Vec::new();
    let mut uses: Vec<(String, String)> = Vec::new();
    let mut fields: Vec<AggregateField> = Vec::new();
    let mut inits: Vec<FieldInit> = Vec::new();
    let mut i: usize = 0;
    while i < infos.len()
        invariant
            0 <= i <= infos@.len(),
            ms == module_names(infos@),
            method@ == snake_of(init_method()),
            stub is Some ==> strs_view(args@) == fwd,
            mods@.len() == i && uses@.len() == i && fields@.len() == i && inits@.len() == i,
            forall|k: int| 0 <= k < i ==> #[trigger] mods@[k]@ == snake_of(ms[k]),
            forall|k: int|
                0 <= k < i ==> (#[trigger] uses@[k]).0@ == snake_of(ms[k]) && uses@[k].1@
                    == pascal_of(ms[k]),
            forall|k: int|
                0 <= k < i ==> (#[trigger] fields@[k]).name@ == snake_of(ms[k]) && fields@[k].ty@
                    == pascal_of(ms[k]),
            forall|k: int|
                0 <= k < i ==> stub is Some ==> #[trigger] init_view(inits@[k]) == (
                    snake_of(ms[k]),
                    pascal_of(ms[k]),
                    snake_of(init_method()),
                    fwd,
                ),
        decreases infos@.len() - i,
    {
        let m = infos[i].0.as_str();
        let sn = to_snake(m);
        let pn = to_pascal(m);
        mods.push(sn.clone());
        uses.push((sn.clone(), pn.clone()));
        fields.push(AggregateField { name: sn.clone(), ty: pn.clone() });
        inits.push(FieldInit { field: sn, ty: pn, method: method.clone(), args: copy_strings(&args) });
        i += 1;
    }
    let constructor = match stub {
        Some(s) => Some(AggregateConstructor { signature: s, inits }),
        None => None,
    };
    let u = SynthesizedUnit {
        mods,
        uses,
        struct_name: to_pascal(dir.as_str()),
        derives,
        fields,
        constructor,
    };
    let ghost e = expected_unit(ms, dir@, strs_view(derives@), init_method(), stub_opt_view(stub));
    assert(unit_view(u).mods =~= e.mods);
    assert(unit_view(u).uses =~= e.uses);
    assert(unit_view(u).fields =~= e.fields);
    assert(unit_view(u).derives =~= e.derives);
    proof {
        if stub is Some {
            assert(unit_view(u).constructor->Some_0.1 =~= e.constructor->Some_0.1);
        }
    }
    u
}

/// Synthesizes the aggregate of the modules `infos` of directory
/// `directory_name`.
///
/// `parsed[i]` is the outcome of reading and parsing the file of `infos[i]`.
/// Files are taken in order: the first that failed to parse, or that does not
/// declare exactly one struct of its target name, fails the whole. Then every
/// file must have the same `new` constructor as the first, or none may have
/// one. Then every derived name must be an identifier. The aggregate then has
/// one field per module, in module order, and a constructor that forwards its
/// parameters to every module's `new` where the modules have one.
pub fn get_implem(
    infos: &Vec<FileInfos>,
    parsed: &Vec<Result<Vec<SourceItem>, FileParseError>>,
    directory_name: &String,
    derive_idents: Vec<String>,
) -> (r: Result<SynthesizedUnit, FileParseError>)
    requires
        infos@.len() == parsed@.len(),
        infos@.len() >= 1,
    ensures
        implem_outcome(infos@, parsed@, directory_name@, strs_view(derive_idents@), r),
{
    let init_method_name = "new";
    let mut stubs: Vec<Option<ConstructorStub>> = Vec::new();
    let mut i: usize = 0;
    while i < infos.len()
        invariant
            0 <= i <= infos@.len(),
            infos@.len() == parsed@.len(),
            init_method_name@ == init_method(),
            stubs@.len() == i,
            files_fine_before(infos@, parsed@, i as int),
            forall|k: int|
                0 <= k < i ==> #[trigger] stub_opt_view(stubs@[k]) == file_stub(
                    infos@[k],
                    parsed@[k],
                ),
        decreases infos@.len() - i,
    {
        match &parsed[i] {
            Err(e) => {
                let r = Err(e.duplicate());
                assert(first_failed_file(infos@, parsed@, i as int, r->Err_0));
                return r;
            },
            Ok(items) => {
                match visit_file(&infos[i], items, init_method_name) {
                    Err(e) => {
                        assert(first_failed_file(infos@, parsed@, i as int, e));
                        return Err(e);
                    },
                    Ok(s) => {
                        stubs.push(s);
                    },
                }
            },
        }
        i += 1;
    }
    if verify_constructors(&stubs).is_err() {
        proof {
            let j = choose|j: int|
                0 <= j < stubs@.len() && !(#[trigger] stub_opt_view(stubs@[j]) == stub_opt_view(stubs@[0]));
            assert(file_stub(infos@[j], parsed@[j]) != file_stub(infos@[0], parsed@[0]));
        }
        return Err(FileParseError::NotAllNewMethodsAreIdentical);
    }
    assert(all_same_stub(infos@, parsed@)) by {
        assert forall|j: int| 0 <= j < infos@.len() implies #[trigger] file_stub(
            infos@[j],
            parsed@[j],
        ) == file_stub(infos@[0], parsed@[0]) by {
            assert(stub_opt_view(stubs@[j]) == stub_opt_view(stubs@[0]));
        }
    }
    let ghost names_view = checked_names(
        module_names(infos@),
        directory_name@,
        init_method(),
        file_stub(infos@[0], parsed@[0]) is Some,
    );
    let stub = stubs.remove(0);
    let names = names_to_check(infos, directory_name, stub.is_some());
    match first_bad_index(&names) {
        Some(k) => {
            let m = String::from_str("not an identifier: ").concat(names[k].as_str());
            assert(strs_view(names@)[k as int] == names@[k as int]@);
            assert(first_bad(names_view, k as int));
            return Err(FileParseError::Other(m));
        },
        None => {},
    }
    Ok(build_unit(infos, directory_name, derive_idents, stub))
}

} // verus!
