use fold_modules::{
    get_implem, parse_input, verify_constructors, visit_file, AggregateField, ConstructorStub,
    FileParseError, ImplMethod, MacroError, Param, SourceItem,
};

fn param(name: &str, ty: &str) -> Param {
    Param { ident: Some(name.to_string()), text: format!("{}: {}", name, ty) }
}

fn method(name: &str, public: bool, output: &str, params: Vec<Param>) -> ImplMethod {
    ImplMethod {
        name: name.to_string(),
        is_public: public,
        header: format!("pub fn {}(..) -> {}", name, output),
        params,
        output: output.to_string(),
    }
}

fn strukt(name: &str) -> SourceItem {
    SourceItem::Struct { name: name.to_string() }
}

fn imp(target: &str, methods: Vec<ImplMethod>) -> SourceItem {
    SourceItem::Impl { mentions: vec![target.to_string()], methods }
}

fn file_with_new(ty: &str, params: &[&str]) -> Vec<SourceItem> {
    let ps = params.iter().map(|p| param(p, "i32")).collect();
    vec![strukt(ty), imp(ty, vec![method("new", true, "Self", ps)])]
}

fn infos(names: &[&str]) -> Vec<(String, String)> {
    names.iter().map(|n| (n.to_string(), format!("folder/{}.rs", n))).collect()
}

#[test]
fn extraction_needs_exactly_one_struct() {
    let info = ("file_a".to_string(), "folder/file_a.rs".to_string());
    let none = vec![strukt("FileB"), SourceItem::Other];
    assert_eq!(
        visit_file(&info, &none, "new"),
        Err(FileParseError::NoOrTooManyStruct("FileA".to_string()))
    );
    let two = vec![strukt("FileA"), strukt("FileA")];
    assert_eq!(
        visit_file(&info, &two, "new"),
        Err(FileParseError::NoOrTooManyStruct("FileA".to_string()))
    );
}

#[test]
fn extraction_finds_the_public_self_returning_constructor() {
    let info = ("file_a".to_string(), "folder/file_a.rs".to_string());
    let items = vec![
        imp("Other", vec![method("new", true, "Self", vec![param("z", "u8")])]),
        strukt("FileA"),
        imp(
            "FileA",
            vec![
                method("new", false, "Self", vec![param("p", "u8")]),
                method("new", true, "i32", vec![param("q", "u8")]),
                method("make", true, "Self", vec![]),
                method("new", true, "Self", vec![param("x", "i32"), param("y", "i32")]),
                method("new", true, "Self", vec![param("w", "i32")]),
            ],
        ),
    ];
    let stub = visit_file(&info, &items, "new").unwrap().unwrap();
    assert_eq!(stub.name, "new");
    assert_eq!(stub.params, vec![param("x", "i32"), param("y", "i32")]);
    assert_eq!(stub.output, "Self");
    assert_eq!(stub.header, "pub fn new(..) -> Self");
}

#[test]
fn extraction_rejects_return_types_that_only_mention_self() {
    let info = ("file_a".to_string(), "folder/file_a.rs".to_string());
    let items = vec![
        strukt("FileA"),
        imp(
            "FileA",
            vec![
                method("new", true, "Option<Self>", vec![]),
                method("new", true, "Result<Self, String>", vec![]),
                method("new", true, "FileA", vec![]),
            ],
        ),
    ];
    assert_eq!(visit_file(&info, &items, "new"), Ok(None));
}

#[test]
fn constructors_with_different_headers_differ() {
    let plain = Some(ConstructorStub {
        name: "new".to_string(),
        params: vec![],
        output: "Self".to_string(),
        header: "pub fn new() -> Self".to_string(),
    });
    let constant = Some(ConstructorStub {
        name: "new".to_string(),
        params: vec![],
        output: "Self".to_string(),
        header: "pub const fn new() -> Self".to_string(),
    });
    assert_eq!(
        verify_constructors(&vec![plain, constant]),
        Err(FileParseError::NotAllNewMethodsAreIdentical)
    );
}

#[test]
fn extraction_without_constructor_is_none() {
    let info = ("file_a".to_string(), "folder/file_a.rs".to_string());
    let items = vec![strukt("FileA"), imp("FileA", vec![method("new", false, "Self", vec![])])];
    assert_eq!(visit_file(&info, &items, "new"), Ok(None));
}

#[test]
fn constructors_must_be_identical() {
    let a = Some(ConstructorStub {
        name: "new".to_string(),
        params: vec![param("x", "i32"), param("y", "i32")],
        output: "Self".to_string(),
        header: "pub fn new(..) -> Self".to_string(),
    });
    let b = Some(ConstructorStub {
        name: "new".to_string(),
        params: vec![param("x", "i32")],
        output: "Self".to_string(),
        header: "pub fn new(..) -> Self".to_string(),
    });
    let c = Some(ConstructorStub {
        name: "new".to_string(),
        params: vec![param("x", "i32"), param("z", "i32")],
        output: "Self".to_string(),
        header: "pub fn new(..) -> Self".to_string(),
    });
    assert_eq!(verify_constructors(&vec![a.clone(), a.clone()]), Ok(()));
    assert_eq!(verify_constructors(&vec![None, None]), Ok(()));
    assert_eq!(
        verify_constructors(&vec![a.clone(), b]),
        Err(FileParseError::NotAllNewMethodsAreIdentical)
    );
    assert_eq!(
        verify_constructors(&vec![a.clone(), c]),
        Err(FileParseError::NotAllNewMethodsAreIdentical)
    );
    assert_eq!(
        verify_constructors(&vec![a, None]),
        Err(FileParseError::NotAllNewMethodsAreIdentical)
    );
}

#[test]
fn folder_of_two_files_synthesizes_the_aggregate() {
    let parsed = vec![Ok(file_with_new("FileA", &["x", "y"])), Ok(file_with_new("FileB", &["x", "y"]))];
    let unit = get_implem(
        &infos(&["file_a", "file_b"]),
        &parsed,
        &"folder".to_string(),
        vec!["Debug".to_string()],
    )
    .unwrap();
    assert_eq!(unit.struct_name, "Folder");
    assert_eq!(unit.derives, vec!["Debug".to_string()]);
    assert_eq!(unit.mods, vec!["file_a".to_string(), "file_b".to_string()]);
    assert_eq!(
        unit.uses,
        vec![
            ("file_a".to_string(), "FileA".to_string()),
            ("file_b".to_string(), "FileB".to_string())
        ]
    );
    assert_eq!(
        unit.fields,
        vec![
            AggregateField { name: "file_a".to_string(), ty: "FileA".to_string() },
            AggregateField { name: "file_b".to_string(), ty: "FileB".to_string() },
        ]
    );
    let ctor = unit.constructor.unwrap();
    assert_eq!(ctor.signature.params, vec![param("x", "i32"), param("y", "i32")]);
    assert_eq!(ctor.inits.len(), 2);
    assert_eq!(ctor.inits[0].field, "file_a");
    assert_eq!(ctor.inits[0].ty, "FileA");
    assert_eq!(ctor.inits[0].method, "new");
    assert_eq!(ctor.inits[0].args, vec!["x".to_string(), "y".to_string()]);
    assert_eq!(ctor.inits[1].field, "file_b");
    assert_eq!(ctor.inits[1].ty, "FileB");
    assert_eq!(ctor.inits[1].args, vec!["x".to_string(), "y".to_string()]);
}

#[test]
fn divergent_constructor_fails_the_whole_folder() {
    let parsed = vec![Ok(file_with_new("FileA", &["x", "y"])), Ok(file_with_new("FileB", &["x"]))];
    let r = get_implem(&infos(&["file_a", "file_b"]), &parsed, &"folder".to_string(), vec![]);
    assert_eq!(r, Err(FileParseError::NotAllNewMethodsAreIdentical));
}

#[test]
fn field_count_equals_file_count() {
    let names = ["alpha", "beta_two", "gamma", "delta_x"];
    let parsed = vec![
        Ok(vec![strukt("Alpha")]),
        Ok(vec![strukt("BetaTwo")]),
        Ok(vec![strukt("Gamma")]),
        Ok(vec![strukt("DeltaX")]),
    ];
    let unit = get_implem(&infos(&names), &parsed, &"my_dir".to_string(), vec![]).unwrap();
    assert_eq!(unit.fields.len(), 4);
    assert_eq!(unit.mods.len(), 4);
    assert_eq!(unit.struct_name, "MyDir");
    assert_eq!(unit.fields[1].ty, "BetaTwo");
    assert!(unit.constructor.is_none());
}

#[test]
fn synthesis_twice_gives_the_same_unit() {
    let parsed = vec![Ok(file_with_new("FileA", &["a"])), Ok(file_with_new("FileB", &["a"]))];
    let i = infos(&["file_a", "file_b"]);
    let d = "folder".to_string();
    let first = get_implem(&i, &parsed, &d, vec!["Clone".to_string()]);
    let second = get_implem(&i, &parsed, &d, vec!["Clone".to_string()]);
    assert!(first.is_ok());
    assert_eq!(first, second);
}

#[test]
fn first_failing_file_decides_the_error() {
    let parsed = vec![
        Ok(vec![strukt("FileA")]),
        Err(FileParseError::CannotParseFile {
            path: "folder/file_b.rs".to_string(),
            error: "expected item".to_string(),
        }),
        Ok(vec![]),
    ];
    let r = get_implem(&infos(&["file_a", "file_b", "file_c"]), &parsed, &"folder".to_string(), vec![]);
    assert_eq!(
        r,
        Err(FileParseError::CannotParseFile {
            path: "folder/file_b.rs".to_string(),
            error: "expected item".to_string(),
        })
    );
    let parsed = vec![Ok(vec![strukt("FileA")]), Ok(vec![]), Err(FileParseError::CannotReadFile("gone".to_string()))];
    let r = get_implem(&infos(&["file_a", "file_b", "file_c"]), &parsed, &"folder".to_string(), vec![]);
    assert_eq!(r, Err(FileParseError::NoOrTooManyStruct("FileB".to_string())));
}

#[test]
fn keyword_module_name_is_not_an_identifier() {
    let parsed = vec![Ok(vec![strukt("Fn")])];
    let r = get_implem(&infos(&["fn"]), &parsed, &"folder".to_string(), vec![]);
    assert_eq!(r, Err(FileParseError::Other("not an identifier: fn".to_string())));
}

#[test]
fn input_takes_idents_and_first_literal() {
    let r = parse_input(
        vec![Ok("Debug".to_string()), Ok("Clone".to_string())],
        vec![Ok("src/folder/mod.rs".to_string()), Ok("other".to_string())],
    );
    assert_eq!(
        r,
        Ok((vec!["Debug".to_string(), "Clone".to_string()], "src/folder/mod.rs".to_string()))
    );
}

#[test]
fn input_errors() {
    assert_eq!(
        parse_input(vec![Ok("Debug".to_string())], vec![]),
        Err(MacroError::InputError("No path were specified".to_string()))
    );
    assert_eq!(
        parse_input(vec![Err("bad".to_string())], vec![Err("worse".to_string())]),
        Err(MacroError::InputError("Cannot parse ident: bad".to_string()))
    );
    assert_eq!(
        parse_input(vec![], vec![Err("worse".to_string())]),
        Err(MacroError::InputError("Cannot parse path: worse".to_string()))
    );
}

#[test]
fn module_names_are_recased_for_fields_and_types() {
    let parsed = vec![Ok(file_with_new("MixedCase", &["v"]))];
    let unit = get_implem(&infos(&["MixedCase"]), &parsed, &"some-dir".to_string(), vec![]).unwrap();
    assert_eq!(unit.struct_name, "SomeDir");
    assert_eq!(unit.mods, vec!["mixed_case".to_string()]);
    assert_eq!(unit.uses, vec![("mixed_case".to_string(), "MixedCase".to_string())]);
    assert_eq!(
        unit.fields,
        vec![AggregateField { name: "mixed_case".to_string(), ty: "MixedCase".to_string() }]
    );
    let ctor = unit.constructor.unwrap();
    assert_eq!(ctor.inits[0].field, "mixed_case");
    assert_eq!(ctor.inits[0].args, vec!["v".to_string()]);
}
