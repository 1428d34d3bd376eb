use proc_macro2::{Span, TokenStream};
use revm_contract::{
    calls, contract, expand_calls, extract_lifetimes_and_type_params, extract_type_params,
    generate_impl, generate_methods, parse_call_list, parse_struct_item, CallList, CallType,
    ErrorKind, GeneratedImpl, GeneratedMethod, GenericParam, ParamList, StructItem, TypeParam,
};

fn tokens(text: &str) -> TokenStream {
    text.parse().unwrap()
}

fn normal(text: &str) -> String {
    tokens(text).to_string()
}

fn lifetime(name: &str) -> GenericParam {
    GenericParam::Lifetime(name.to_string())
}

fn placeholder(name: &str) -> GenericParam {
    GenericParam::Type(TypeParam { ident: name.to_string(), tokens: name.to_string() })
}

fn params(list: Vec<GenericParam>) -> ParamList {
    ParamList { params: list, span: Span::call_site() }
}

fn item(list: Vec<GenericParam>) -> StructItem {
    StructItem { ident: "Token".to_string(), generics: params(list) }
}

fn call_list(names: &[&str]) -> CallList {
    CallList {
        types: names
            .iter()
            .map(|name| CallType { tokens: name.to_string(), span: Span::call_site() })
            .collect(),
    }
}

fn method(name: &str, call_type: &str) -> GeneratedMethod {
    GeneratedMethod { method_name: name.to_string(), call_type: call_type.to_string() }
}

const WRAPPER: &str = "pub struct Token<'b, 'a, Ctx, Db> where Db: revm::Database, 'a: 'b \
                       { pub evm: &'b mut Evm<'a, Ctx, Db>, pub address: Address }";

#[test]
fn sorts_parameters_by_kind_in_order() {
    let list = params(vec![
        placeholder("T"),
        lifetime("'x"),
        GenericParam::Const,
        lifetime("'y"),
        GenericParam::Type(TypeParam { ident: "U".to_string(), tokens: "U : Clone".to_string() }),
    ]);
    let (lifetimes, idents) = extract_lifetimes_and_type_params(&list);
    assert_eq!(lifetimes, vec!["'x", "'y"]);
    assert_eq!(idents, vec!["T", "U"]);
    let type_params = extract_type_params(&list);
    assert_eq!(type_params.len(), 2);
    assert_eq!(type_params[0].tokens, "T");
    assert_eq!(type_params[1].ident, "U");
    assert_eq!(type_params[1].tokens, "U : Clone");
}

#[test]
fn finds_nothing_in_an_empty_list() {
    let (lifetimes, idents) = extract_lifetimes_and_type_params(&params(Vec::new()));
    assert!(lifetimes.is_empty());
    assert!(idents.is_empty());
    assert!(extract_type_params(&params(vec![lifetime("'a"), GenericParam::Const])).is_empty());
}

#[test]
fn reads_a_struct() {
    let item = parse_struct_item(&tokens(
        "struct S<'x, T: Clone, const N: usize, 'y, U = u8> { field: &'x [T; N] }",
    ))
    .unwrap();
    assert_eq!(item.ident, "S");
    assert_eq!(item.generics.params.len(), 5);
    assert_eq!(item.generics.params[0], lifetime("'x"));
    assert_eq!(item.generics.params[2], GenericParam::Const);
    assert_eq!(item.generics.params[3], lifetime("'y"));
    match &item.generics.params[1] {
        GenericParam::Type(param) => {
            assert_eq!(param.ident, "T");
            assert_eq!(normal(&param.tokens), normal("T: Clone"));
        }
        other => panic!("{:?}", other),
    }
    let (lifetimes, idents) = extract_lifetimes_and_type_params(&item.generics);
    assert_eq!(lifetimes, vec!["'x", "'y"]);
    assert_eq!(idents, vec!["T", "U"]);
    assert_eq!(item.generics.span.byte_range(), 8..50);
}

#[test]
fn reads_a_call_list() {
    let list = parse_call_list(tokens("transferCall, IERC20::balanceOfCall,")).unwrap();
    assert_eq!(list.types.len(), 2);
    assert_eq!(list.types[0].tokens, "transferCall");
    assert_eq!(normal(&list.types[1].tokens), normal("IERC20::balanceOfCall"));
    assert_eq!(list.types[0].span.byte_range(), 0..12);
    assert_eq!(list.types[1].span.byte_range(), 14..35);
    assert!(parse_call_list(tokens("")).unwrap().types.is_empty());
}

#[test]
fn refuses_what_is_no_struct_or_no_list() {
    let d = calls(tokens("transferCall"), tokens("enum E { A }")).unwrap_err();
    assert_eq!(d.kind, ErrorKind::Syntax);
    let d = calls(tokens("transferCall balanceOfCall"), tokens(WRAPPER)).unwrap_err();
    assert_eq!(d.kind, ErrorKind::Syntax);
    let d = calls(tokens("struct"), tokens("fn f() {}")).unwrap_err();
    assert_eq!(d.kind, ErrorKind::Syntax);
    assert_eq!(parse_call_list(tokens("a b")).unwrap_err().kind, ErrorKind::Syntax);
    assert_eq!(parse_struct_item(&tokens("struct")).unwrap_err().kind, ErrorKind::Syntax);
}

#[test]
fn reports_a_syntax_error_in_the_parsers_words() {
    let d = parse_call_list(tokens("a b")).unwrap_err();
    assert_eq!(d.message, "expected `,`");
    assert_eq!(d.span.byte_range(), 2..3);
    assert!(d.further.is_empty());
    let d = parse_struct_item(&tokens("enum E { A }")).unwrap_err();
    assert_eq!(d.message, "expected `struct`");
    assert_eq!(d.span.byte_range(), 0..4);
    let expected = match syn::parse_str::<syn::ItemStruct>("struct S<T") {
        Ok(_) => panic!("read a struct"),
        Err(error) => error.to_string(),
    };
    assert_eq!(parse_struct_item(&tokens("struct S<T")).unwrap_err().message, expected);
}

#[test]
fn generates_a_method_for_each_call_type() {
    let block = generate_impl(
        &item(vec![lifetime("'b"), lifetime("'a"), placeholder("Ctx"), placeholder("Db")]),
        &call_list(&["allowanceCall", "transferCall", "balanceOfCall"]),
    )
    .unwrap();
    assert_eq!(
        block,
        GeneratedImpl {
            struct_name: "Token".to_string(),
            outer: "'b".to_string(),
            inner: "'a".to_string(),
            ctx: "Ctx".to_string(),
            db: "Db".to_string(),
            methods: vec![
                method("allowance", "allowanceCall"),
                method("transfer", "transferCall"),
                method("balance_of", "balanceOfCall"),
            ],
        }
    );
}

#[test]
fn takes_lifetimes_and_placeholders_in_their_own_order() {
    let block = generate_impl(
        &item(vec![placeholder("X"), lifetime("'p"), GenericParam::Const, placeholder("Y"), lifetime("'q")]),
        &call_list(&[]),
    )
    .unwrap();
    assert_eq!((block.outer.as_str(), block.inner.as_str()), ("'p", "'q"));
    assert_eq!((block.ctx.as_str(), block.db.as_str()), ("X", "Y"));
    assert!(block.methods.is_empty());
    assert_eq!(block.code(), "impl<'p, 'q, X, Y> Token<'p, 'q, X, Y>\nwhere\n    Y: revm::Database,\n{\n}\n");
}

#[test]
fn writes_a_method_out() {
    let block = GeneratedImpl {
        struct_name: "Token".to_string(),
        outer: "'b".to_string(),
        inner: "'a".to_string(),
        ctx: "Ctx".to_string(),
        db: "Db".to_string(),
        methods: vec![method("balance_of", "balanceOfCall")],
    };
    assert_eq!(
        block.code(),
        "impl<'b, 'a, Ctx, Db> Token<'b, 'a, Ctx, Db>\nwhere\n    Db: revm::Database,\n{\n    \
         /// Note that the `tx_env` `data` & `transact_to` are provided by the implementation.\n    \
         pub fn balance_of(&mut self, call: balanceOfCall, tx_env: revm::primitives::TxEnv) -> \
         revm::primitives::EVMResultGeneric<crate::types::CallOutput<balanceOfCall>, Db::Error> {\n        \
         let mut tx_env = tx_env;\n        \
         tx_env.data = call.abi_encode().into();\n        \
         tx_env.transact_to = revm::primitives::TxKind::Call(self.address);\n        \
         let tx = self.evm.tx_mut();\n        \
         *tx = tx_env;\n        \
         let result_and_state = self.evm.transact()?;\n        \
         Ok(types::process_transact_result(result_and_state))\n    }\n}\n"
    );
}

#[test]
fn refuses_a_struct_of_another_shape() {
    let shapes = vec![
        (vec![], "Expected exactly two lifetimes in the struct definition"),
        (vec![lifetime("'a"), placeholder("A"), placeholder("B")], "Expected exactly two lifetimes in the struct definition"),
        (vec![lifetime("'a"), lifetime("'b"), lifetime("'c"), placeholder("A"), placeholder("B")], "Expected exactly two lifetimes in the struct definition"),
        (vec![lifetime("'a"), lifetime("'b")], "Expected exactly two type parameters in the struct definition"),
        (vec![lifetime("'a"), lifetime("'b"), placeholder("A")], "Expected exactly two type parameters in the struct definition"),
        (vec![lifetime("'a"), lifetime("'b"), placeholder("A"), placeholder("B"), placeholder("C")], "Expected exactly two type parameters in the struct definition"),
        (vec![lifetime("'a"), placeholder("A")], "Expected exactly two lifetimes in the struct definition"),
    ];
    for (shape, message) in shapes {
        let d = generate_impl(&item(shape), &call_list(&["transferCall", "Call"])).unwrap_err();
        assert_eq!(d.kind, ErrorKind::Shape);
        assert_eq!(d.message, message);
    }
}

#[test]
fn keeps_the_struct_of_another_shape() {
    let text = "pub struct Plain<T> { value: T }";
    let expansion = calls(tokens("transferCall, balanceOfCall"), tokens(text)).unwrap();
    assert_eq!(expansion.item.to_string(), normal(text));
    let d = expansion.implementation.unwrap_err();
    assert_eq!(d.kind, ErrorKind::Shape);
    assert_eq!(d.message, "Expected exactly two lifetimes in the struct definition");
    assert_eq!(d.span.byte_range(), 16..19);

    let text = "struct Half<'b, 'a, T> { value: &'b &'a T }";
    let expansion = calls(tokens(""), tokens(text)).unwrap();
    assert_eq!(expansion.item.to_string(), normal(text));
    let d = expansion.implementation.unwrap_err();
    assert_eq!(d.kind, ErrorKind::Shape);
    assert_eq!(d.message, "Expected exactly two type parameters in the struct definition");
    assert_eq!(d.span.byte_range(), 11..22);
}

#[test]
fn refuses_a_call_type_without_a_name() {
    let d = GeneratedMethod::for_call_type(&CallType {
        tokens: "Call".to_string(),
        span: Span::call_site(),
    })
    .unwrap_err();
    assert_eq!(d.kind, ErrorKind::DegenerateName);
    assert_eq!(d.message, "Expected a call type that names a method once `Call` is removed");

    let d = generate_methods(&call_list(&["transferCall", "Call", "balanceOfCall"])).unwrap_err();
    assert_eq!(d.kind, ErrorKind::DegenerateName);

    let expansion = calls(tokens("transferCall, _, Call"), tokens(WRAPPER)).unwrap();
    assert_eq!(expansion.item.to_string(), normal(WRAPPER));
    let d = expansion.implementation.unwrap_err();
    assert_eq!(d.kind, ErrorKind::DegenerateName);
    assert_eq!(d.span.byte_range(), 14..15);
}

#[test]
fn refuses_the_bare_suffix_on_a_wrapper() {
    let expansion = calls(tokens("Call"), tokens(WRAPPER)).unwrap();
    assert_eq!(expansion.item.to_string(), normal(WRAPPER));
    let d = expansion.implementation.unwrap_err();
    assert_eq!(d.kind, ErrorKind::DegenerateName);
    assert_eq!(d.message, "Expected a call type that names a method once `Call` is removed");
    assert_eq!(d.span.byte_range(), 0..4);
    assert!(d.further.is_empty());
}

#[test]
fn names_a_method_by_the_converted_name() {
    let call = CallType { tokens: "balanceOfCall".to_string(), span: Span::call_site() };
    assert_eq!(
        GeneratedMethod::named(&call, "balance_of".to_string()).unwrap(),
        method("balance_of", "balanceOfCall")
    );
    assert_eq!(
        GeneratedMethod::named(&call, "anything".to_string()).unwrap(),
        method("anything", "balanceOfCall")
    );
    let d = GeneratedMethod::named(&call, String::new()).unwrap_err();
    assert_eq!(d.kind, ErrorKind::DegenerateName);
    assert!(d.further.is_empty());
}

#[test]
fn reports_the_shape_before_a_name() {
    let d = generate_impl(&item(vec![placeholder("A")]), &call_list(&["Call"])).unwrap_err();
    assert_eq!(d.kind, ErrorKind::Shape);
}

#[test]
fn allows_a_call_type_twice() {
    let methods = generate_methods(&call_list(&["transferCall", "transferCall"])).unwrap();
    assert_eq!(methods, vec![method("transfer", "transferCall"), method("transfer", "transferCall")]);
}

#[test]
fn expands_the_struct_it_generated() {
    let generated = contract(tokens("pub Erc20Contract<ExternalContexts, AlloyCacheDB>")).unwrap();
    let expansion = calls(tokens("transferCall, balanceOfCall"), tokens(&generated.definition)).unwrap();
    assert_eq!(expansion.item.to_string(), normal(&generated.definition));
    let block = expansion.implementation.unwrap();
    assert_eq!(block.struct_name, "Erc20Contract");
    assert_eq!(block.methods, vec![method("transfer", "transferCall"), method("balance_of", "balanceOfCall")]);

    let parsed = syn::parse_str::<syn::ItemImpl>(&block.code()).unwrap();
    assert_eq!(parsed.generics.params.len(), 4);
    assert_eq!(parsed.items.len(), 2);
    let expected = [("transfer", "transferCall"), ("balance_of", "balanceOfCall")];
    for (member, (name, call_type)) in parsed.items.iter().zip(expected) {
        let function = match member {
            syn::ImplItem::Fn(function) => function,
            _ => panic!("no method"),
        };
        assert_eq!(function.sig.ident.to_string(), name);
        assert_eq!(function.sig.inputs.len(), 3);
        let arguments: Vec<String> = function
            .sig
            .inputs
            .iter()
            .map(|input| quote::ToTokens::to_token_stream(input).to_string())
            .collect();
        assert_eq!(arguments[0], normal("&mut self"));
        assert_eq!(arguments[1], normal(&format!("call: {}", call_type)));
        assert_eq!(arguments[2], normal("tx_env: revm::primitives::TxEnv"));
        let body = quote::ToTokens::to_token_stream(&function.block).to_string();
        let overrides = normal("tx_env.transact_to = revm::primitives::TxKind::Call(self.address);");
        let dispatch = normal("self.evm.transact()?");
        assert!(body.find(&overrides).unwrap() < body.find(&dispatch).unwrap());
    }
}

#[test]
fn expansion_puts_tokens_and_block_side_by_side() {
    let read = item(vec![lifetime("'b"), lifetime("'a"), placeholder("Ctx"), placeholder("Db")]);
    let expansion = expand_calls(tokens(WRAPPER), &read, &call_list(&["nameCall"]));
    assert_eq!(expansion.item.to_string(), normal(WRAPPER));
    assert_eq!(expansion.implementation.unwrap().methods, vec![method("name", "nameCall")]);
}
