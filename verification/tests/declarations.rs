use grants::condition::{CheckKind, Condition};
use grants::declaration::DeclarationError;
use grants::arguments::{meta_items, read_arguments};
use grants::endpoint::{read_handler, Args, HandlerFn, ProtectEndpoint, Signature};
use grants::syntax::Token;
use grants::macros::{check_permissions, expand, kind_of_name};
use grants::syntax::MetaItem;
use grants::{has_any_permission, has_any_role, has_permissions, has_roles};

const CHAIN_HEAD: &str = "; let err_handler = ";
const CHAIN_TYPED: &str = ">>().and_then(|c| c.err_handler.clone()); if let Some(err_handler) = err_handler { (err_handler)(condition, &*";
const CHAIN_GENERAL: &str = ".app_data::<actix_web_grants::GrantsConfig>().and_then(|c| c.grants_err_handler.clone()); if let Some(err_handler) = err_handler { let authorities = ";
const CHAIN_TAIL: &str = ".authorities.iter().map(|a| a as &dyn std::any::Any).collect::<Vec<_>>(); (err_handler)(condition, authorities.as_slice()) } else { actix_web::HttpResponse::Forbidden().finish() } } }";

fn configured_response(reason_literal: &str, count: usize, ty: &str) -> String {
    format!(
        "{{ let condition = {reason}{head}_req_{n}.app_data::<actix_web_grants::GrantErrorConfig<{ty}{typed}_auth_details_{n}.authorities) }} else {{ let err_handler = _req_{n}{general}_auth_details_{n}{tail}",
        reason = reason_literal,
        head = CHAIN_HEAD,
        n = count,
        ty = ty,
        typed = CHAIN_TYPED,
        general = CHAIN_GENERAL,
        tail = CHAIN_TAIL,
    )
}

fn plain_handler(inputs: &[&str], output: Option<&str>) -> HandlerFn {
    HandlerFn {
        attrs: Vec::new(),
        vis: String::new(),
        sig: Signature {
            is_const: false,
            is_async: true,
            is_unsafe: false,
            abi: String::new(),
            name: "index".to_string(),
            generics: String::new(),
            inputs: inputs.iter().map(|input| input.to_string()).collect(),
            output: output.map(|ty| ty.to_string()),
            where_clause: String::new(),
        },
        block: "{ run() }".to_string(),
    }
}

fn literal(value: &str) -> MetaItem {
    MetaItem::Literal(value.to_string())
}

fn named(name: &str, value: &str) -> MetaItem {
    MetaItem::NameValue { name: name.to_string(), value: value.to_string() }
}

#[test]
fn a_handler_is_guarded_by_all_of_its_permissions() {
    let text = has_permissions(
        "\"ROLE_ADMIN\", \"OP_GET_SECRET\"",
        "async fn macro_secured() -> Response { ok() }",
    );
    let wanted = format!(
        "async fn macro_secured(_auth_details_0: actix_web_grants::authorities::AuthDetails<String>, _req_0: actix_web::HttpRequest, ) -> actix_web::Either<Response, actix_web::HttpResponse> {{ use actix_web_grants::authorities::AuthoritiesCheck; if _auth_details_0.has_permissions(&[\"ROLE_ADMIN\", \"OP_GET_SECRET\"]) {{ let f = || async move {{ ok () }}; actix_web::Either::Left(f().await) }} else {{ actix_web::Either::Right({}) }} }}",
        configured_response("\"\\\"ROLE_ADMIN\\\" && \\\"OP_GET_SECRET\\\"\"", 0, "String"),
    );
    assert_eq!(text, wanted);
}

#[test]
fn the_guard_stands_in_parentheses_behind_the_check() {
    let text = has_permissions(
        "\"ROLE_ADMIN\", \"OP_GET_SECRET\", secure = \"*user_id == user.id\"",
        "#[get(\"/\")] #[doc = \"x\"] pub(crate) async fn index<T: Clone>(user_id: web::Path<i32>, user: web::Data<User>) -> Result<HttpResponse, Error> { HttpResponse::Ok().finish() }",
    );
    let wanted = format!(
        "# [get (\"/\")] # [doc = \"x\"] pub (crate) async fn index< T : Clone >(_auth_details_2: actix_web_grants::authorities::AuthDetails<String>, _req_2: actix_web::HttpRequest, user_id : web :: Path < i32 >, user : web :: Data < User >) -> actix_web::Either<Result < HttpResponse , Error >, actix_web::HttpResponse> {{ use actix_web_grants::authorities::AuthoritiesCheck; if _auth_details_2.has_permissions(&[\"ROLE_ADMIN\", \"OP_GET_SECRET\"]) && (* user_id == user . id) {{ let f = || async move {{ HttpResponse :: Ok () . finish () }}; actix_web::Either::Left(f().await) }} else {{ actix_web::Either::Right({}) }} }}",
        configured_response("\"\\\"ROLE_ADMIN\\\" && \\\"OP_GET_SECRET\\\"\"", 2, "String"),
    );
    assert_eq!(text, wanted);
}

#[test]
fn a_guard_with_an_alternative_cannot_pass_the_check_by() {
    let text = has_any_permission("\"A\", secure = \"a || b\"", "async fn f() {}");
    assert!(text.contains("if _auth_details_0.has_any_permission(&[\"A\"]) && (a || b) {"));
}

#[test]
fn any_permission_reports_an_alternative() {
    let text = has_any_permission("\"ROLE_ADMIN\", \"ROLE_MANAGER\"", "async fn f(a: u8) {}");
    let wanted = format!(
        "async fn f(_auth_details_1: actix_web_grants::authorities::AuthDetails<String>, _req_1: actix_web::HttpRequest, a : u8) -> actix_web::Either<(), actix_web::HttpResponse> {{ use actix_web_grants::authorities::AuthoritiesCheck; if _auth_details_1.has_any_permission(&[\"ROLE_ADMIN\", \"ROLE_MANAGER\"]) {{ let f = || async move {{ }}; actix_web::Either::Left(f().await) }} else {{ actix_web::Either::Right({}) }} }}",
        configured_response("\"\\\"ROLE_ADMIN\\\" || \\\"ROLE_MANAGER\\\"\"", 1, "String"),
    );
    assert_eq!(text, wanted);
}

#[test]
fn roles_are_reported_with_their_prefix() {
    let text = has_roles("\"ADMIN\", \"MANAGER\"", "async fn f() {}");
    assert!(text.contains("if _auth_details_0.has_roles(&[\"ADMIN\", \"MANAGER\"]) {"));
    assert!(text.contains("let condition = \"\\\"ROLE_ADMIN\\\" && \\\"ROLE_MANAGER\\\"\";"));
    let text = has_any_role("\"ADMIN\", \"MANAGER\"", "async fn f() {}");
    assert!(text.contains("if _auth_details_0.has_any_role(&[\"ADMIN\", \"MANAGER\"]) {"));
    assert!(text.contains("let condition = \"\\\"ROLE_ADMIN\\\" || \\\"ROLE_MANAGER\\\"\";"));
}

#[test]
fn a_type_override_takes_expressions_and_an_error_function_the_denial() {
    let text = has_any_role(
        "\"Role::ADMIN\", \"Role::MANAGER\", type = \"Role\", error = \"deny\"",
        "async fn f() {}",
    );
    assert_eq!(
        text,
        "async fn f(_auth_details_0: actix_web_grants::authorities::AuthDetails<Role>, ) -> actix_web::Either<(), actix_web::HttpResponse> { use actix_web_grants::authorities::AuthoritiesCheck; if _auth_details_0.has_any_role(&[&Role :: ADMIN, &Role :: MANAGER]) { let f = || async move { }; actix_web::Either::Left(f().await) } else { actix_web::Either::Right(deny()) } }"
    );
}

#[test]
fn a_type_override_reports_the_expressions() {
    let text = has_permissions("\"Perm::Read\", \"Perm::Write\", type = \"Perm\"", "async fn f() {}");
    assert!(text.contains("AuthDetails<Perm>"));
    assert!(text.contains("GrantErrorConfig<Perm>>()"));
    assert!(text.contains("has_permissions(&[&Perm :: Read, &Perm :: Write])"));
    assert!(text.contains("let condition = \"Perm :: Read && Perm :: Write\";"));
}

#[test]
fn a_literal_is_written_back_with_its_escapes() {
    let text = has_permissions("\"say \\\"hi\\\"\"", "async fn f() {}");
    assert!(text.contains("has_permissions(&[\"say \\\"hi\\\"\"])"));
    assert!(text.contains("let condition = \"\\\"say \\\\\\\"hi\\\\\\\"\\\"\";"));
}

#[test]
fn the_guarded_handler_is_a_function_of_two_more_parameters() {
    let text = has_permissions(
        "\"ROLE_ADMIN\", secure = \"*user_id == user.id\"",
        "#[get(\"/{user_id}\")] pub async fn index(user_id: web::Path<i32>, user: web::Data<User>) -> HttpResponse { HttpResponse::Ok().finish() }",
    );
    let item = syn::parse_str::<syn::ItemFn>(&text).unwrap();
    assert!(item.sig.asyncness.is_some());
    assert_eq!(item.sig.ident.to_string(), "index");
    assert_eq!(item.attrs.len(), 1);
    assert!(matches!(item.vis, syn::Visibility::Public(_)));
    assert_eq!(item.sig.inputs.len(), 4);
    assert!(matches!(item.sig.output, syn::ReturnType::Type(_, _)));
    let literal = has_permissions("\"a\\\\b\\\"c\"", "async fn f() {}");
    assert!(syn::parse_str::<syn::ItemFn>(&literal).is_ok());
}

#[test]
fn an_error_function_leaves_one_more_parameter() {
    let text = has_any_permission("\"A\", error = \"crate::deny\"", "async fn f(a: u8, b: u8) {}");
    let item = syn::parse_str::<syn::ItemFn>(&text).unwrap();
    assert_eq!(item.sig.inputs.len(), 3);
    assert!(text.contains("actix_web::Either::Right(crate :: deny())"));
    assert!(!text.contains("_req_2"));
}

#[test]
fn a_later_argument_takes_the_place_of_an_earlier_one() {
    let text = has_permissions("secure = \"a\", \"A\", secure = \"b\"", "async fn f() {}");
    assert!(text.contains("has_permissions(&[\"A\"]) && (b) {"));
}

#[test]
fn an_argument_that_is_no_literal_is_unknown() {
    assert_eq!(
        has_roles("\"ADMIN\", 1", "async fn f() {}"),
        ":: core :: compile_error ! { \"Unknown attribute.\" }"
    );
    assert_eq!(
        has_roles("\"ADMIN\", secure", "async fn f() {}"),
        ":: core :: compile_error ! { \"Unknown attribute.\" }"
    );
    assert_eq!(
        has_roles("secure = 1", "async fn f() {}"),
        ":: core :: compile_error ! { \"Unknown attribute.\" }"
    );
}

#[test]
fn a_name_that_is_not_known_is_refused() {
    assert_eq!(
        has_roles("\"ADMIN\", insecure = \"x\"", "async fn f() {}"),
        ":: core :: compile_error ! { \"Unknown identifier. Available: 'secure', 'type' and 'error'\" }"
    );
}

#[test]
fn a_handler_that_is_not_async_is_refused() {
    assert_eq!(
        has_any_permission("\"ADMIN\"", "fn f() {}"),
        ":: core :: compile_error ! { \"only async functions are supported\" }"
    );
}

#[test]
fn a_form_that_does_not_exist_is_refused() {
    assert_eq!(
        check_permissions("has_everything", "\"ADMIN\"", "async fn f() {}"),
        ":: core :: compile_error ! { \"Unknown check.\" }"
    );
}

#[test]
fn arguments_that_cannot_be_read_are_reported_first() {
    assert_eq!(
        has_permissions("\"A\", (", "struct S;"),
        ":: core :: compile_error ! { \"cannot parse string into token stream\" }"
    );
}

#[test]
fn arguments_without_a_comma_between_them_are_one_unknown_argument() {
    assert_eq!(
        has_permissions("\"A\" \"B\"", "async fn f() {}"),
        ":: core :: compile_error ! { \"Unknown attribute.\" }"
    );
    assert_eq!(
        read_arguments("\"A\" \"B\""),
        Ok(vec![MetaItem::Other("\"A\" \"B\"".to_string())])
    );
}

#[test]
fn a_handler_that_cannot_be_read_is_reported_before_its_declaration() {
    assert_eq!(has_permissions("\"A\", 1", "struct S;"), ":: core :: compile_error ! { \"expected `fn`\" }");
    assert_eq!(has_permissions("\"A\"", "fn f() {"), ":: core :: compile_error ! { \"cannot parse string into token stream\" }");
}

#[test]
fn a_guard_that_is_no_expression_is_refused() {
    assert_eq!(
        has_any_permission("\"ADMIN\", secure = \"a +\"", "async fn f() {}"),
        ":: core :: compile_error ! { \"unexpected end of input, expected an expression\" }"
    );
    assert_eq!(
        has_any_permission("\"ADMIN\", type = \"\"", "async fn f() {}"),
        ":: core :: compile_error ! { \"unexpected end of input, expected an expression\" }"
    );
    assert_eq!(
        has_any_permission("\"ADMIN\", error = \")\"", "async fn f() {}"),
        ":: core :: compile_error ! { \"cannot parse string into token stream\" }"
    );
    assert_eq!(
        has_any_permission("\"a +\", type = \"T\"", "async fn f() {}"),
        ":: core :: compile_error ! { \"unexpected end of input, expected an expression\" }"
    );
}

#[test]
fn the_forms_go_by_their_names() {
    let args = "\"A\"";
    let input = "async fn f() {}";
    assert_eq!(check_permissions("has_permissions", args, input), has_permissions(args, input));
    assert_eq!(check_permissions("has_any_permission", args, input), has_any_permission(args, input));
    assert_eq!(check_permissions("has_roles", args, input), has_roles(args, input));
    assert_eq!(check_permissions("has_any_role", args, input), has_any_role(args, input));
    assert_eq!(kind_of_name("has_permissions"), Some(CheckKind::AllOf));
    assert_eq!(kind_of_name("has_any_permission"), Some(CheckKind::AnyOf));
    assert_eq!(kind_of_name("has_roles"), Some(CheckKind::RoleAllOf));
    assert_eq!(kind_of_name("has_any_role"), Some(CheckKind::RoleAnyOf));
    assert_eq!(kind_of_name("has_role"), None);
    assert_eq!(kind_of_name(""), None);
}

#[test]
fn a_declaration_is_assembled_from_its_arguments() {
    let items = vec![
        literal("A"),
        named("type", "T"),
        literal("B"),
        named("secure", "x"),
        named("error", "deny"),
    ];
    let args = Args::from_meta(CheckKind::AnyOf, &items).unwrap();
    assert_eq!(args.cond.kind, CheckKind::AnyOf);
    assert_eq!(args.cond.literals, vec!["A", "B"]);
    assert_eq!(args.secure.as_deref(), Some("x"));
    assert_eq!(args.ty.as_deref(), Some("T"));
    assert_eq!(args.error_fn.as_deref(), Some("deny"));
    let bare = Args::from_meta(CheckKind::RoleAllOf, &Vec::new()).unwrap();
    assert_eq!(bare.cond.kind, CheckKind::RoleAllOf);
    assert!(bare.cond.literals.is_empty());
    assert!(bare.secure.is_none() && bare.ty.is_none() && bare.error_fn.is_none());
}

#[test]
fn the_first_wrong_argument_stops_a_declaration() {
    let items = vec![literal("A"), named("role", "x"), MetaItem::Other("1".to_string())];
    assert_eq!(
        Args::from_meta(CheckKind::AllOf, &items).unwrap_err(),
        DeclarationError::UnknownIdentifier("role".to_string())
    );
    let items = vec![MetaItem::Other("1".to_string()), named("role", "x")];
    assert_eq!(
        Args::from_meta(CheckKind::AllOf, &items).unwrap_err(),
        DeclarationError::UnknownAttribute("1".to_string())
    );
}

#[test]
fn a_checked_declaration_holds_its_expressions_as_printed() {
    let items = vec![literal("a::B"), named("secure", "x==y")];
    let args = Args::from_meta(CheckKind::AllOf, &items).unwrap().checked().unwrap();
    assert_eq!(args.cond.literals, vec!["a::B"]);
    assert_eq!(args.secure.as_deref(), Some("x == y"));
    let items = vec![literal("a::B"), named("type", "a::T")];
    let args = Args::from_meta(CheckKind::AllOf, &items).unwrap().checked().unwrap();
    assert_eq!(args.cond.literals, vec!["a :: B"]);
    assert_eq!(args.ty.as_deref(), Some("a :: T"));
    let items = vec![named("error", "(")];
    let refused = Args::from_meta(CheckKind::AllOf, &items).unwrap().checked().unwrap_err();
    assert_eq!(refused, DeclarationError::Syntax(":: core :: compile_error ! { \"cannot parse string into token stream\" }".to_string()));
}

#[test]
fn each_error_is_reported_as_a_compile_error() {
    assert_eq!(DeclarationError::Syntax("as written".to_string()).to_compile_error(), "as written");
    assert_eq!(
        DeclarationError::UnknownIdentifier("x".to_string()).to_compile_error(),
        ":: core :: compile_error ! { \"Unknown identifier. Available: 'secure', 'type' and 'error'\" }"
    );
    assert_eq!(
        DeclarationError::UnknownAttribute("1".to_string()).to_compile_error(),
        ":: core :: compile_error ! { \"Unknown attribute.\" }"
    );
    assert_eq!(
        DeclarationError::NotAsync.to_compile_error(),
        ":: core :: compile_error ! { \"only async functions are supported\" }"
    );
    assert_eq!(
        DeclarationError::UnknownCheck("x".to_string()).to_compile_error(),
        ":: core :: compile_error ! { \"Unknown check.\" }"
    );
}

#[test]
fn a_guarded_handler_is_written_behind_what_is_there() {
    let endpoint = ProtectEndpoint::new(
        CheckKind::AllOf,
        &vec![literal("A"), named("error", "deny")],
        plain_handler(&["a: u8", "b: u8"], Some("u8")),
    )
    .unwrap();
    let mut output = "/* before */ ".to_string();
    endpoint.to_tokens_actix_web(&mut output);
    assert_eq!(
        output,
        "/* before */ async fn index(_auth_details_2: actix_web_grants::authorities::AuthDetails<String>, a: u8, b: u8) -> actix_web::Either<u8, actix_web::HttpResponse> { use actix_web_grants::authorities::AuthoritiesCheck; if _auth_details_2.has_permissions(&[\"A\"]) { let f = || async move { run() }; actix_web::Either::Left(f().await) } else { actix_web::Either::Right(deny()) } }"
    );
}

#[test]
fn the_injected_names_end_in_the_number_of_parameters() {
    let inputs: Vec<String> = (0..12).map(|i| format!("p{}: u8", i)).collect();
    let inputs: Vec<&str> = inputs.iter().map(|input| input.as_str()).collect();
    let endpoint = ProtectEndpoint {
        func: plain_handler(&inputs, None),
        args: Args {
            cond: Condition::new(CheckKind::AnyOf, vec!["A".to_string()]),
            secure: None,
            ty: None,
            error_fn: None,
        },
    };
    let mut output = String::new();
    endpoint.to_tokens_actix_web(&mut output);
    assert!(output.starts_with("async fn index(_auth_details_12: actix_web_grants::authorities::AuthDetails<String>, _req_12: actix_web::HttpRequest, p0: u8, p1: u8, "));
    assert!(output.contains(") -> actix_web::Either<(), actix_web::HttpResponse> {"));
    assert!(output.contains(&configured_response("\"\\\"A\\\"\"", 12, "String")));
}

#[test]
fn a_declaration_needs_an_async_handler() {
    let mut handler = plain_handler(&[], None);
    handler.sig.is_async = false;
    let refused = ProtectEndpoint::new(CheckKind::AllOf, &vec![literal("A")], handler);
    assert_eq!(refused.unwrap_err(), DeclarationError::NotAsync);
}

#[test]
fn an_expansion_is_made_from_what_the_parser_gave() {
    let items: Result<Vec<MetaItem>, String> = Ok(vec![literal("A"), named("error", "deny")]);
    let text = expand(CheckKind::RoleAnyOf, items, Ok(plain_handler(&[], None)));
    assert_eq!(
        text,
        "async fn index(_auth_details_0: actix_web_grants::authorities::AuthDetails<String>, ) -> actix_web::Either<(), actix_web::HttpResponse> { use actix_web_grants::authorities::AuthoritiesCheck; if _auth_details_0.has_any_role(&[\"A\"]) { let f = || async move { run() }; actix_web::Either::Left(f().await) } else { actix_web::Either::Right(deny()) } }"
    );
    let text = expand(CheckKind::AllOf, Err("first".to_string()), Err("second".to_string()));
    assert_eq!(text, "first");
    let text = expand(CheckKind::AllOf, Ok(vec![MetaItem::Other("1".to_string())]), Err("second".to_string()));
    assert_eq!(text, "second");
}

#[test]
fn arguments_are_read_between_commas() {
    assert_eq!(read_arguments(""), Ok(Vec::new()));
    assert_eq!(read_arguments("\"A\""), Ok(vec![literal("A")]));
    assert_eq!(read_arguments("\"A\","), Ok(vec![literal("A")]));
    assert_eq!(
        read_arguments("\"A\", secure = \"a == b\", type = \"T\", error = \"deny\", \"say \\\"hi\\\"\""),
        Ok(vec![
            literal("A"),
            named("secure", "a == b"),
            named("type", "T"),
            named("error", "deny"),
            literal("say \"hi\""),
        ])
    );
    assert_eq!(
        read_arguments("\"A\",,\"B\""),
        Ok(vec![literal("A"), MetaItem::Other(String::new()), literal("B")])
    );
    assert_eq!(read_arguments(","), Ok(vec![MetaItem::Other(String::new())]));
    assert_eq!(
        read_arguments("a::b = \"x\", 1, secure, secure == \"x\", (\"A\")"),
        Ok(vec![
            MetaItem::Other("a : : b = \"x\"".to_string()),
            MetaItem::Other("1".to_string()),
            MetaItem::Other("secure".to_string()),
            MetaItem::Other("secure = = \"x\"".to_string()),
            MetaItem::Other("(\"A\")".to_string()),
        ])
    );
    assert_eq!(
        read_arguments("\"A\" ]"),
        Err(":: core :: compile_error ! { \"cannot parse string into token stream\" }".to_string())
    );
}

#[test]
fn arguments_are_made_of_tokens() {
    let comma = || Token::Punct(",".to_string());
    let tokens = vec![
        Token::Str("A".to_string()),
        comma(),
        Token::Ident("secure".to_string()),
        Token::Punct("=".to_string()),
        Token::Str("x".to_string()),
        comma(),
        Token::Ident("secure".to_string()),
        Token::Punct("+".to_string()),
        Token::Str("x".to_string()),
        comma(),
        Token::Other("1".to_string()),
        Token::Str("B".to_string()),
        comma(),
    ];
    assert_eq!(
        meta_items(&tokens),
        vec![
            literal("A"),
            named("secure", "x"),
            MetaItem::Other("secure + \"x\"".to_string()),
            MetaItem::Other("1 \"B\"".to_string()),
        ]
    );
    assert_eq!(meta_items(&Vec::new()), Vec::new());
    assert_eq!(meta_items(&vec![comma(), comma()]), vec![
        MetaItem::Other(String::new()),
        MetaItem::Other(String::new()),
    ]);
}

#[test]
fn a_literal_of_another_kind_is_read_without_failing() {
    assert_eq!(
        has_permissions("c\"x\"", "async fn f() {}"),
        ":: core :: compile_error ! { \"Unknown attribute.\" }"
    );
    assert_eq!(read_arguments("c\"x\""), Ok(vec![MetaItem::Other("c\"x\"".to_string())]));
    let text = has_permissions("\"A\", secure = \"c\\\"x\\\".is_empty()\"", "async fn f() {}");
    assert!(text.contains("has_permissions(&[\"A\"]) && (c\"x\" . is_empty ()) {"));
    let text = has_permissions("\"A\"", "async fn f() { let _ = c\"x\"; }");
    assert!(text.contains("let f = || async move { let _ = c\"x\" ; };"));
    let text = has_permissions("(/*ERROR*/)", "async fn f() {}");
    assert_eq!(text, ":: core :: compile_error ! { \"Unknown attribute.\" }");
    let text = has_permissions("\"A\", secure = \"(/*ERROR*/)\"", "async fn f() {}");
    assert!(text.starts_with("async fn f(") || text.starts_with(":: core :: compile_error"));
    let text = has_permissions("\"A\"", "async fn f() { (/*ERROR*/) }");
    assert!(text.starts_with("async fn f(") || text.starts_with(":: core :: compile_error"));
}

#[test]
fn a_handler_is_read_in_its_parts() {
    let handler = read_handler(
        "#[get(\"/\")] pub async unsafe extern \"C\" fn index<T>(a: T, b: u8) -> T where T: Copy { a }",
    )
    .unwrap();
    assert_eq!(handler.attrs, vec!["# [get (\"/\")]"]);
    assert_eq!(handler.vis, "pub");
    assert_eq!(
        handler.sig,
        Signature {
            is_const: false,
            is_async: true,
            is_unsafe: true,
            abi: "extern \"C\"".to_string(),
            name: "index".to_string(),
            generics: "< T >".to_string(),
            inputs: vec!["a : T".to_string(), "b : u8".to_string()],
            output: Some("T".to_string()),
            where_clause: "where T : Copy".to_string(),
        }
    );
    assert_eq!(handler.block, "{ a }");
    let plain = read_handler("const fn f() {}").unwrap();
    assert!(plain.sig.is_const && !plain.sig.is_async && !plain.sig.is_unsafe);
    assert_eq!(plain.sig.abi, "");
    assert_eq!(plain.sig.where_clause, "");
    assert_eq!(plain.sig.output, None);
    assert!(plain.attrs.is_empty() && plain.sig.inputs.is_empty());
    assert_eq!(
        read_handler("struct S;"),
        Err(":: core :: compile_error ! { \"expected `fn`\" }".to_string())
    );
}

#[test]
fn the_qualifiers_and_the_where_clause_reach_the_guarded_handler() {
    let text = has_any_permission(
        "\"A\", error = \"deny\"",
        "pub async unsafe extern \"C\" fn index<T>(a: T) -> T where T: Copy { a }",
    );
    assert_eq!(
        text,
        "pub async unsafe extern \"C\" fn index< T >(_auth_details_1: actix_web_grants::authorities::AuthDetails<String>, a : T) -> actix_web::Either<T, actix_web::HttpResponse> where T : Copy { use actix_web_grants::authorities::AuthoritiesCheck; if _auth_details_1.has_any_permission(&[\"A\"]) { let f = || async move { a }; actix_web::Either::Left(f().await) } else { actix_web::Either::Right(deny()) } }"
    );
    let item = syn::parse_str::<syn::ItemFn>(&text).unwrap();
    assert!(item.sig.unsafety.is_some() && item.sig.abi.is_some());
    assert!(item.sig.generics.where_clause.is_some());
    let mut handler = plain_handler(&[], None);
    handler.sig.is_const = true;
    let endpoint = ProtectEndpoint::new(CheckKind::AllOf, &vec![named("error", "deny")], handler).unwrap();
    let mut output = String::new();
    endpoint.to_tokens_actix_web(&mut output);
    assert!(output.starts_with("const async fn index(_auth_details_0: "));
}
