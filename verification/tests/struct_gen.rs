use proc_macro2::{Span, TokenStream};
use revm_contract::{
    contract, generate_struct, parse_contract_input, ContractInput, ErrorKind, GenericParam,
    ParamList, TypeParam, Visibility,
};

fn tokens(text: &str) -> TokenStream {
    text.parse().unwrap()
}

fn normal(text: &str) -> String {
    tokens(text).to_string()
}

fn placeholder(name: &str) -> TypeParam {
    TypeParam { ident: name.to_string(), tokens: name.to_string() }
}

fn declaration(count: usize) -> ContractInput {
    let names = ["A", "B", "C", "D"];
    ContractInput {
        attrs: Vec::new(),
        vis: Visibility::Private,
        name: "Wrapper".to_string(),
        type_params: names[..count].iter().map(|name| placeholder(name)).collect(),
        span: Span::call_site(),
    }
}

#[test]
fn reads_a_declaration() {
    let decl =
        parse_contract_input(tokens("#[derive(Debug)] #[calls(fooCall)] pub Token<Ctx, Db>"))
            .unwrap();
    assert_eq!(decl.attrs.len(), 2);
    assert_eq!(normal(&decl.attrs[0]), normal("#[derive(Debug)]"));
    assert_eq!(normal(&decl.attrs[1]), normal("#[calls(fooCall)]"));
    assert_eq!(decl.vis, Visibility::Public);
    assert_eq!(decl.name, "Token");
    assert_eq!(decl.type_params, vec![placeholder("Ctx"), placeholder("Db")]);
}

#[test]
fn reads_a_private_and_a_scoped_declaration() {
    let private = parse_contract_input(tokens("Token<Ctx, Db>")).unwrap();
    assert_eq!(private.vis, Visibility::Private);
    let scoped = parse_contract_input(tokens("pub(crate) Token<Ctx, Db>")).unwrap();
    match scoped.vis {
        Visibility::Scoped(text) => assert_eq!(normal(&text), normal("pub(crate)")),
        other => panic!("{:?}", other),
    }
}

#[test]
fn keeps_only_type_placeholders() {
    let decl = parse_contract_input(tokens("Token<'x, Ctx, const N: usize, Db: Clone>")).unwrap();
    assert_eq!(decl.type_params.len(), 2);
    assert_eq!(decl.type_params[0], placeholder("Ctx"));
    assert_eq!(decl.type_params[1].ident, "Db");
    assert_eq!(normal(&decl.type_params[1].tokens), normal("Db: Clone"));
}

#[test]
fn refuses_what_is_no_declaration() {
    for text in ["pub", "pub struct Token<A, B>", "Token<A, B> extra", "Token<A, B", "1 + 1"] {
        let d = parse_contract_input(tokens(text)).unwrap_err();
        assert_eq!(d.kind, ErrorKind::Syntax, "{}", text);
        assert!(!d.message.is_empty());
        let d = contract(tokens(text)).unwrap_err();
        assert_eq!(d.kind, ErrorKind::Syntax, "{}", text);
    }
}

#[test]
fn generates_one_struct_and_one_constructor() {
    let code = contract(tokens("pub Erc20Contract<ExternalContexts, AlloyCacheDB>")).unwrap();
    assert_eq!(
        code.definition,
        "pub struct Erc20Contract<'b, 'a, ExternalContexts, AlloyCacheDB>\n\
         where\n    AlloyCacheDB: revm::Database,\n    'a: 'b\n\
         {\n    pub evm: &'b mut Evm<'a, ExternalContexts, AlloyCacheDB>,\n    \
         pub address: alloy::primitives::Address,\n}\n"
    );
    assert_eq!(
        code.constructor,
        "impl<'b, 'a, ExternalContexts, AlloyCacheDB> \
         Erc20Contract<'b, 'a, ExternalContexts, AlloyCacheDB>\n\
         where\n    AlloyCacheDB: revm::Database,\n    'a: 'b\n\
         {\n    pub fn new(address: alloy::primitives::Address, \
         evm: &'b mut Evm<'a, ExternalContexts, AlloyCacheDB>) -> Self {\n        \
         Self { address, evm }\n    }\n}\n"
    );
    assert_eq!(code.code(), format!("{}\n{}", code.definition, code.constructor));
}

#[test]
fn generated_code_is_one_struct_and_one_impl() {
    let code = contract(tokens("#[calls(fooCall)] pub(crate) Token<Ctx, Db>")).unwrap();
    let file = syn::parse_str::<syn::File>(&code.code()).unwrap();
    assert_eq!(file.items.len(), 2);
    match &file.items[0] {
        syn::Item::Struct(item) => {
            assert_eq!(item.ident.to_string(), "Token");
            assert_eq!(item.attrs.len(), 1);
            assert_eq!(item.generics.params.len(), 4);
            assert_eq!(item.fields.len(), 2);
            assert!(matches!(item.vis, syn::Visibility::Restricted(_)));
        }
        _ => panic!("no struct"),
    }
    match &file.items[1] {
        syn::Item::Impl(block) => {
            assert_eq!(block.items.len(), 1);
            match &block.items[0] {
                syn::ImplItem::Fn(function) => assert_eq!(function.sig.ident.to_string(), "new"),
                _ => panic!("no constructor"),
            }
        }
        _ => panic!("no impl"),
    }
}

#[test]
fn passes_attributes_and_visibility_on() {
    let mut decl = declaration(2);
    decl.attrs = vec!["#[derive(Debug)]".to_string(), "#[calls(fooCall)]".to_string()];
    decl.vis = Visibility::Scoped("pub(super)".to_string());
    let code = generate_struct(&decl).unwrap();
    assert!(code
        .definition
        .starts_with("#[derive(Debug)]\n#[calls(fooCall)]\npub(super) struct Wrapper<'b, 'a, A, B>\n"));
    assert!(code.definition.contains("    B: revm::Database,\n"));
    assert!(code.constructor.starts_with("impl<'b, 'a, A, B> Wrapper<'b, 'a, A, B>\n"));
}

#[test]
fn declares_a_bound_once_and_names_the_placeholder_elsewhere() {
    let mut decl = declaration(2);
    decl.type_params[1] = TypeParam { ident: "B".to_string(), tokens: "B : Clone".to_string() };
    let code = generate_struct(&decl).unwrap();
    assert_eq!(
        code.definition,
        "struct Wrapper<'b, 'a, A, B : Clone>\nwhere\n    B: revm::Database,\n    'a: 'b\n\
         {\n    pub evm: &'b mut Evm<'a, A, B>,\n    pub address: alloy::primitives::Address,\n}\n"
    );
    assert_eq!(
        code.constructor,
        "impl<'b, 'a, A, B : Clone> Wrapper<'b, 'a, A, B>\nwhere\n    B: revm::Database,\n    'a: 'b\n\
         {\n    pub fn new(address: alloy::primitives::Address, evm: &'b mut Evm<'a, A, B>) -> Self \
         {\n        Self { address, evm }\n    }\n}\n"
    );
}

#[test]
fn generates_rust_for_bounded_placeholders() {
    let code = contract(tokens("pub Token<Ctx: Send + Sync, Db: Clone>")).unwrap();
    let file = syn::parse_str::<syn::File>(&code.code()).unwrap();
    assert_eq!(file.items.len(), 2);
    match &file.items[0] {
        syn::Item::Struct(item) => {
            let clause = item.generics.where_clause.as_ref().unwrap();
            assert_eq!(clause.predicates.len(), 2);
            assert_eq!(
                quote::ToTokens::to_token_stream(&clause.predicates[0]).to_string(),
                normal("Db: revm::Database")
            );
        }
        _ => panic!("no struct"),
    }
}

#[test]
fn puts_a_declaration_together_from_its_parts() {
    let list = ParamList {
        params: vec![
            GenericParam::Lifetime("'x".to_string()),
            GenericParam::Type(placeholder("Ctx")),
            GenericParam::Const,
            GenericParam::Type(TypeParam { ident: "Db".to_string(), tokens: "Db : Clone".to_string() }),
        ],
        span: Span::call_site(),
    };
    let decl = ContractInput::from_parts(
        vec!["#[derive(Debug)]".to_string(), "#[calls(fooCall)]".to_string()],
        Visibility::Scoped("pub(crate)".to_string()),
        "Token".to_string(),
        &list,
        Span::call_site(),
    );
    assert_eq!(decl.attrs, vec!["#[derive(Debug)]", "#[calls(fooCall)]"]);
    assert_eq!(decl.vis, Visibility::Scoped("pub(crate)".to_string()));
    assert_eq!(decl.name, "Token");
    assert_eq!(
        decl.type_params,
        vec![
            placeholder("Ctx"),
            TypeParam { ident: "Db".to_string(), tokens: "Db : Clone".to_string() }
        ]
    );
}

#[test]
fn reads_the_declaration_of_the_token_wrapper() {
    let decl = parse_contract_input(tokens(
        "#[calls(allowanceCall, transferCall, balanceOfCall)] \
         pub Erc20Contract<ExternalContexts, AlloyCacheDB>",
    ))
    .unwrap();
    assert_eq!(decl.attrs.len(), 1);
    assert_eq!(
        normal(&decl.attrs[0]),
        normal("#[calls(allowanceCall, transferCall, balanceOfCall)]")
    );
    assert_eq!(decl.vis, Visibility::Public);
    assert_eq!(decl.name, "Erc20Contract");
    assert_eq!(
        decl.type_params,
        vec![placeholder("ExternalContexts"), placeholder("AlloyCacheDB")]
    );
}

#[test]
fn reads_a_declaration_scoped_to_the_crate() {
    let decl = parse_contract_input(tokens("pub(crate) Foo<A, B>")).unwrap();
    assert!(decl.attrs.is_empty());
    assert_ne!(decl.vis, Visibility::Private);
    assert_ne!(decl.vis, Visibility::Public);
    match &decl.vis {
        Visibility::Scoped(text) => assert_eq!(normal(text), normal("pub(crate)")),
        other => panic!("{:?}", other),
    }
    assert_eq!(decl.name, "Foo");
    assert_eq!(decl.type_params, vec![placeholder("A"), placeholder("B")]);
}

#[test]
fn refuses_any_other_number_of_placeholders() {
    for count in [0, 1, 3, 4] {
        let d = generate_struct(&declaration(count)).unwrap_err();
        assert_eq!(d.kind, ErrorKind::Shape);
        assert!(d.further.is_empty());
        assert_eq!(d.message, "Expected exactly two type parameters, e.g., <T1, T2>");
    }
    for text in ["Token", "Token<>", "Token<A>", "Token<A, B, C>", "Token<'a, 'b>"] {
        let d = contract(tokens(text)).unwrap_err();
        assert_eq!(d.kind, ErrorKind::Shape, "{}", text);
        assert_eq!(d.message, "Expected exactly two type parameters, e.g., <T1, T2>");
    }
}

#[test]
fn counts_placeholders_and_nothing_else() {
    assert!(contract(tokens("Token<'x, A, const N: usize, B>")).is_ok());
    assert!(contract(tokens("Token<A, A>")).is_ok());
}
