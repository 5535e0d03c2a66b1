use qcontext::derive_context;
use qcontext::ContextDeriveInput;
use qcontext::DeriveError;

#[test]
fn derives_impl_for_plain_state() {
    let expanded = derive_context("Counter", Some("usize"));
    assert_eq!(
        expanded,
        Ok(String::from("impl qcontext::Context for Counter {\n    type State = usize\n    ;\n    fn context() -> &'static qcontext::OnceCell<Self::State> {\n        static CONTEXT: std::sync::LazyLock<qcontext::OnceCell<usize\n        >> = std::sync::LazyLock::new(qcontext::OnceCell::new);\n        &CONTEXT\n    }\n}\n"))
    );
}

#[test]
fn derives_impl_for_unit_state() {
    let expanded = derive_context("Global", Some("()"));
    assert_eq!(
        expanded,
        Ok(String::from("impl qcontext::Context for Global {\n    type State = ()\n    ;\n    fn context() -> &'static qcontext::OnceCell<Self::State> {\n        static CONTEXT: std::sync::LazyLock<qcontext::OnceCell<()\n        >> = std::sync::LazyLock::new(qcontext::OnceCell::new);\n        &CONTEXT\n    }\n}\n"))
    );
}

#[test]
fn derives_impl_for_cell_state() {
    let expanded = derive_context("Counter", Some("TCell<Counter, usize>"));
    assert_eq!(
        expanded,
        Ok(String::from(
            "impl qcontext::Context for Counter {\n    type State = TCell<Counter, usize>\n    ;\n    fn context() -> &'static qcontext::OnceCell<Self::State> {\n        static CONTEXT: std::sync::LazyLock<qcontext::OnceCell<TCell<Counter, usize>\n        >> = std::sync::LazyLock::new(qcontext::OnceCell::new);\n        &CONTEXT\n    }\n}\n"
        ))
    );
}

#[test]
fn state_is_written_as_annotated() {
    let expanded = derive_context("M", Some("  Vec < u8 >  // bytes")).unwrap();
    assert_eq!(
        expanded,
        "impl qcontext::Context for M {\n    type State =   Vec < u8 >  // bytes\n    ;\n    fn context() -> &'static qcontext::OnceCell<Self::State> {\n        static CONTEXT: std::sync::LazyLock<qcontext::OnceCell<  Vec < u8 >  // bytes\n        >> = std::sync::LazyLock::new(qcontext::OnceCell::new);\n        &CONTEXT\n    }\n}\n"
    );
    let parsed: syn::ItemImpl = syn::parse_str(&expanded).unwrap();
    assert_eq!(parsed.items.len(), 2);
}

#[test]
fn derived_impl_parses_as_one_impl() {
    let expanded = derive_context("Counter", Some("&'static [Option<u8>; 4]")).unwrap();
    let parsed: syn::ItemImpl = syn::parse_str(&expanded).unwrap();
    assert!(parsed.trait_.is_some());
    assert_eq!(parsed.items.len(), 2);
    assert!(matches!(parsed.items[0], syn::ImplItem::Type(_)));
    assert!(matches!(parsed.items[1], syn::ImplItem::Fn(_)));
    assert_eq!(expanded.matches("&'static [Option<u8>; 4]").count(), 2);
}

#[test]
fn missing_annotation_is_an_error() {
    assert_eq!(derive_context("Counter", None), Err(DeriveError::MissingState));
}

#[test]
fn annotation_that_is_no_type_is_an_error() {
    assert_eq!(derive_context("Counter", Some("")), Err(DeriveError::InvalidState));
    assert_eq!(derive_context("Counter", Some("usize usize")), Err(DeriveError::InvalidState));
    assert_eq!(derive_context("Counter", Some("Vec<")), Err(DeriveError::InvalidState));
    assert_eq!(derive_context("Counter", Some("= 3")), Err(DeriveError::InvalidState));
    assert_eq!(derive_context("Counter", Some("usize; }")), Err(DeriveError::InvalidState));
    assert_eq!(derive_context("Counter", Some("u8 /* open")), Err(DeriveError::InvalidState));
}

#[test]
fn read_tells_the_three_outcomes_apart() {
    assert!(matches!(ContextDeriveInput::read("A", None), Err(DeriveError::MissingState)));
    assert!(matches!(
        ContextDeriveInput::read("A", Some(("u8", false))),
        Err(DeriveError::InvalidState)
    ));
    let input = ContextDeriveInput::read("A", Some(("u8", true))).unwrap();
    assert_eq!(input.ident, "A");
    assert_eq!(input.state, "u8");
}

#[test]
fn expand_writes_the_impl() {
    let input = ContextDeriveInput { ident: String::from("Level"), state: String::from("i64") };
    assert_eq!(
        input.expand(),
        "impl qcontext::Context for Level {\n    type State = i64\n    ;\n    fn context() -> &'static qcontext::OnceCell<Self::State> {\n        static CONTEXT: std::sync::LazyLock<qcontext::OnceCell<i64\n        >> = std::sync::LazyLock::new(qcontext::OnceCell::new);\n        &CONTEXT\n    }\n}\n"
    );
}

#[test]
fn errors_describe_themselves() {
    assert_eq!(DeriveError::MissingState.describe(), "missing `state` annotation");
    assert_eq!(DeriveError::InvalidState.describe(), "`state` annotation is not a type");
}

#[test]
fn derived_impl_has_the_tokens_of_the_wiring() {
    let expanded = derive_context("Counter", Some("TCell<Counter, usize>")).unwrap();
    let derived: syn::ItemImpl = syn::parse_str(&expanded).unwrap();
    let wiring: syn::ItemImpl = syn::parse_str(
        "impl qcontext::Context for Counter {
            type State = TCell<Counter, usize>;
            fn context() -> &'static qcontext::OnceCell<Self::State> {
                static CONTEXT: std::sync::LazyLock<qcontext::OnceCell<TCell<Counter, usize>>> =
                    std::sync::LazyLock::new(qcontext::OnceCell::new);
                &CONTEXT
            }
        }",
    )
    .unwrap();
    assert_eq!(
        quote::ToTokens::to_token_stream(&derived).to_string(),
        quote::ToTokens::to_token_stream(&wiring).to_string()
    );
}
