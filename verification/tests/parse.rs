use err_handler::error::TransformError;
use err_handler::function::{has_receiver_first, Attribute, Parameter};
use err_handler::parse::{assemble, parse_function, parse_handler};
use err_handler::syntax::{ItemParts, SignatureParts};
use err_handler::{ast_gen, err_handler};

fn typed(tokens: &str, binding: Option<&str>) -> Parameter {
    Parameter::Typed { tokens: tokens.to_string(), binding: binding.map(|b| b.to_string()) }
}

#[test]
fn function_is_read_part_by_part() {
    let function = parse_function(
        "#[inline] pub(crate) fn task<'a, T: Clone>(v: &'a T) -> Result<T, Err> where T: Copy \
         { #![allow(unused)] let w = v.clone(); Ok(w) }",
    ).unwrap();
    assert_eq!(
        function.attributes,
        vec![
            Attribute::Outer("# [inline]".to_string()),
            Attribute::Inner("# ! [allow (unused)]".to_string()),
        ]
    );
    assert_eq!(function.visibility, "pub (crate)");
    let signature = &function.signature;
    assert!(!signature.is_const && !signature.is_async && !signature.is_unsafe);
    assert_eq!(signature.abi, "");
    assert_eq!(signature.name, "task");
    assert_eq!(signature.generics, "< 'a , T : Clone >");
    assert_eq!(signature.parameters, vec![typed("v : & 'a T", Some("v"))]);
    assert!(!signature.trailing_comma);
    assert_eq!(signature.variadic, "");
    assert_eq!(signature.output, "-> Result < T , Err >");
    assert_eq!(signature.where_clause, "where T : Copy");
    assert_eq!(function.statements, "let w = v . clone () ; Ok (w)");
}

#[test]
fn qualifiers_are_read() {
    let function = parse_function("const async unsafe extern \"C\" fn f() {}").unwrap();
    let signature = &function.signature;
    assert!(signature.is_const && signature.is_async && signature.is_unsafe);
    assert_eq!(signature.abi, "extern \"C\"");
    assert_eq!(signature.output, "");
    assert_eq!(function.visibility, "");
    assert_eq!(function.statements, "");
    assert!(function.attributes.is_empty());
}

#[test]
fn doc_comment_is_an_outer_attribute() {
    let function = parse_function("/// Runs.\nfn f() {}").unwrap();
    assert_eq!(function.attributes, vec![Attribute::Outer("# [doc = \" Runs.\"]".to_string())]);
}

#[test]
fn parameters_are_told_apart() {
    let function = parse_function(
        "fn f(&mut self, a: u8, mut b: u8, ref c: u8, d @ 1..=9: u8, (e, g): (u8, u8), _: u8, \
         S { h }: S, r#i: u8,) {}",
    ).unwrap();
    assert_eq!(
        function.signature.parameters,
        vec![
            Parameter::Receiver { tokens: "& mut self".to_string() },
            typed("a : u8", Some("a")),
            typed("mut b : u8", Some("b")),
            typed("ref c : u8", Some("c")),
            typed("d @ 1 ..= 9 : u8", Some("d")),
            typed("(e , g) : (u8 , u8)", None),
            typed("_ : u8", None),
            typed("S { h } : S", None),
            typed("r#i : u8", Some("r#i")),
        ]
    );
    assert!(function.signature.trailing_comma);
    assert!(has_receiver_first(&function.signature.parameters));
    assert!(function.signature.is_well_formed());
}

#[test]
fn receiver_forms_are_receivers() {
    for (source, tokens) in [
        ("fn f(self) {}", "self"),
        ("fn f(mut self) {}", "mut self"),
        ("fn f(&self) {}", "& self"),
        ("fn f(&'a mut self) {}", "& 'a mut self"),
        ("fn f(self: Box<Self>) {}", "self : Box < Self >"),
    ] {
        let function = parse_function(source).unwrap();
        assert_eq!(
            function.signature.parameters,
            vec![Parameter::Receiver { tokens: tokens.to_string() }]
        );
    }
}

#[test]
fn variadic_argument_is_read() {
    let function = parse_function("unsafe extern \"C\" fn f(a: u8, ...) {}").unwrap();
    assert_eq!(function.signature.parameters, vec![typed("a : u8", Some("a"))]);
    assert!(function.signature.trailing_comma);
    assert_eq!(function.signature.variadic, "...");
}

#[test]
fn what_is_no_function_is_refused() {
    for source in ["struct A;", "", "fn f()", "fn f() {} fn g() {}", "impl A { fn f() {} }", "fn f() {"] {
        assert!(matches!(parse_function(source), Err(TransformError::NotAFunction { .. })));
    }
    assert_eq!(
        parse_function("struct A;"),
        Err(TransformError::NotAFunction { message: "expected `fn`".to_string() })
    );
}

#[test]
fn receiver_behind_another_parameter_is_refused() {
    assert_eq!(
        parse_function("fn f(a: u8, self) {}"),
        Err(TransformError::NotAFunction { message: "unexpected method receiver".to_string() })
    );
    assert!(!has_receiver_first(&vec![
        typed("a: u8", Some("a")),
        Parameter::Receiver { tokens: "self".to_string() },
    ]));
    assert!(!has_receiver_first(&vec![
        Parameter::Receiver { tokens: "self".to_string() },
        Parameter::Receiver { tokens: "self".to_string() },
    ]));
    assert!(has_receiver_first(&Vec::new()));
}

fn item_parts() -> ItemParts {
    ItemParts {
        attributes: vec![Attribute::Outer("#[inline]".to_string())],
        visibility: "pub".to_string(),
        signature: "fn get(&self, key: u8) -> Result<u8, E>".to_string(),
        statements: "Ok(key)".to_string(),
    }
}

fn signature_parts() -> SignatureParts {
    SignatureParts {
        is_const: false,
        is_async: true,
        is_unsafe: false,
        abi: String::new(),
        name: "get".to_string(),
        generics: String::new(),
        inputs: vec!["&self".to_string(), "key: u8".to_string()],
        trailing_comma: true,
        variadic: String::new(),
        output: "-> Result<u8, E>".to_string(),
        where_clause: String::new(),
    }
}

#[test]
fn parts_are_assembled_in_their_places() {
    let parameters = vec![
        Parameter::Receiver { tokens: "&self".to_string() },
        typed("key: u8", Some("key")),
    ];
    let function = assemble(item_parts(), signature_parts(), parameters.clone()).unwrap();
    assert_eq!(function.attributes, vec![Attribute::Outer("#[inline]".to_string())]);
    assert_eq!(function.visibility, "pub");
    assert_eq!(function.statements, "Ok(key)");
    let signature = &function.signature;
    assert!(signature.is_async && !signature.is_const && !signature.is_unsafe);
    assert_eq!(signature.name, "get");
    assert_eq!(signature.parameters, parameters);
    assert!(signature.trailing_comma);
    assert_eq!(signature.output, "-> Result<u8, E>");
    assert_eq!(signature.abi, "");
    assert_eq!(signature.generics, "");
    assert_eq!(signature.variadic, "");
    assert_eq!(signature.where_clause, "");
}

#[test]
fn parts_with_a_late_receiver_are_refused() {
    let parameters = vec![
        typed("key: u8", Some("key")),
        Parameter::Receiver { tokens: "&self".to_string() },
    ];
    assert_eq!(
        assemble(item_parts(), signature_parts(), parameters),
        Err(TransformError::NotAFunction { message: "unexpected method receiver".to_string() })
    );
}

#[test]
fn parts_are_the_same_after_the_switch_was_undone() {
    let source = "pub(crate) fn f<'a>(&'a self, a: &'a u8) -> Result<u8, E> { Ok(*a) }";
    let before = parse_function(source);
    let path = parse_handler("crate::errors::recover");
    proc_macro2::fallback::unforce();
    assert_eq!(parse_function(source), before);
    assert_eq!(parse_handler("crate::errors::recover"), path);
    assert_eq!(before.unwrap().signature.generics, "< 'a >");
}

#[test]
fn handler_is_a_path() {
    assert_eq!(parse_handler("recover").unwrap().path, "recover");
    assert_eq!(parse_handler("crate::errors::recover").unwrap().path, "crate :: errors :: recover");
    assert_eq!(parse_handler(" ::errors::recover ").unwrap().path, ":: errors :: recover");
    assert_eq!(parse_handler("Self::recover").unwrap().path, "Self :: recover");
    assert_eq!(
        parse_handler("<T as Recover>::recover::<u8>").unwrap().path,
        "< T as Recover > :: recover :: < u8 >"
    );
}

#[test]
fn what_is_no_path_is_refused() {
    for text in ["", "a b", "recover(e)", "|e| Err(e)", "1", "a::", "a."] {
        assert!(matches!(parse_handler(text), Err(TransformError::InvalidHandler { .. })));
    }
    assert_eq!(
        parse_handler(""),
        Err(
            TransformError::InvalidHandler {
                message: "unexpected end of input, expected identifier".to_string(),
            },
        )
    );
}

#[test]
fn error_gives_its_message() {
    let error = parse_function("struct A;").unwrap_err();
    assert_eq!(error.message(), "expected `fn`");
    let error = parse_handler("a b").unwrap_err();
    assert_eq!(error.message(), "unexpected token");
}

#[test]
fn item_is_judged_before_the_handler() {
    assert!(matches!(err_handler("a b", "struct A;"), Err(TransformError::NotAFunction { .. })));
    assert!(matches!(err_handler("a b", "fn f() {}"), Err(TransformError::InvalidHandler { .. })));
    assert!(matches!(ast_gen("h", "struct A;"), Err(TransformError::NotAFunction { .. })));
}

#[test]
fn whole_rewrite_from_source_is_exact() {
    assert_eq!(
        err_handler("task_handler", "fn task(_v: i32) -> Result<i32, Err> { Err(Err::Err1) }"),
        Ok(
            "fn task ( _v : i32 ) -> Result < i32 , Err > { \
             fn _task ( _v : i32 ) -> Result < i32 , Err > { Err (Err :: Err1) } \
             match _task ( _v ) { Ok(v) => Ok(v), Err( e ) => task_handler ( e ) } }"
                .to_string(),
        )
    );
    assert_eq!(
        ast_gen("task_handler", "fn task() -> Result<i32, Err> { Ok(1) }"),
        err_handler("task_handler", "fn task() -> Result<i32, Err> { Ok(1) }")
    );
}

#[test]
fn raw_name_gives_a_plain_internal_name() {
    let rewritten = err_handler("h", "fn r#match(r#type: u8) -> Result<u8, E> { Ok(r#type) }").unwrap();
    assert_eq!(
        rewritten,
        "fn r#match ( r#type : u8 ) -> Result < u8 , E > { \
         fn _match ( r#type : u8 ) -> Result < u8 , E > { Ok (r#type) } \
         match _match ( r#type ) { Ok(v) => Ok(v), Err( e ) => h ( e ) } }"
    );
}

#[test]
fn comments_do_not_reach_the_rewritten_text() {
    let rewritten = err_handler("h // handler", "fn f() { /* nothing */ } // done").unwrap();
    assert_eq!(rewritten, "fn f ( ) { fn _f ( ) { } match _f ( ) { Ok(v) => Ok(v), Err( e ) => h ( e ) } }");
}
