//! The wiring that a derive writes for a marker type: from the marker's name
//! and its `state` annotation to the text of the `Context` impl.
use vstd::prelude::*;
use vstd::string::StringExecFns;

verus! {

/// Why a marker type cannot be wired to a state.
#[derive(Debug, Clone, Copy, PartialEq, Eq, Structural)]
pub enum DeriveError {
    /// The declaration carries no `state` annotation.
    MissingState,
    /// The `state` annotation is not a type expression.
    InvalidState,
}

/// `syn::parse_str` at `syn::Type`: whether the whole text parses as one
/// type. The parse tree is dropped; only the verdict is kept. The verdict
/// lies with the lexer of the process that asks, so nothing is claimed of it.
#[verifier::external_body]
pub(crate) fn parses_as_type(annotation: &str) -> (verdict: bool) {
    syn::parse_str::<syn::Type>(annotation).is_ok()
}

/// The impl that wires the marker `ident` to the state type spelled by
/// `state`: the state type, and the function that hands out the marker's
/// slot, a static of its own. The line ends after each copy of the type, so
/// that a trailing comment in `state` cannot swallow what follows it.
pub open spec fn impl_text(ident: Seq<char>, state: Seq<char>) -> Seq<char> {
    "impl qcontext::Context for "@ + ident + " {\n    type State = "@ + state
        + "\n    ;\n    fn context() -> &'static qcontext::OnceCell<Self::State> {\n        static CONTEXT: std::sync::LazyLock<qcontext::OnceCell<"@
        + state
        + "\n        >> = std::sync::LazyLock::new(qcontext::OnceCell::new);\n        &CONTEXT\n    }\n}\n"@
}

/// What the derive reads off a declaration, given its annotation together
/// with the verdict on it: the marker's name and the text of its state type.
/// An absent annotation and one that is no type are each an error of their
/// own.
pub open spec fn read_spec(ident: Seq<char>, annotation: Option<(Seq<char>, bool)>) -> Result<
    (Seq<char>, Seq<char>),
    DeriveError,
> {
    match annotation {
        None => Err(DeriveError::MissingState),
        Some((_, false)) => Err(DeriveError::InvalidState),
        Some((state, true)) => Ok((ident, state)),
    }
}

/// The derive as a whole, given the annotation together with the verdict
/// on it: the impl for a well-annotated marker, else the error that says
/// what is wrong with the annotation.
pub open spec fn derived(ident: Seq<char>, annotation: Option<(Seq<char>, bool)>) -> Result<
    Seq<char>,
    DeriveError,
> {
    match read_spec(ident, annotation) {
        Ok((marker, state)) => Ok(impl_text(marker, state)),
        Err(error) => Err(error),
    }
}

/// An annotation that may be absent, paired with a verdict.
pub open spec fn judged(annotation: Option<&str>, verdict: bool) -> Option<(Seq<char>, bool)> {
    match annotation {
        Some(text) => Some((text@, verdict)),
        None => None,
    }
}

/// An annotation with its verdict, the text as a sequence of characters.
pub open spec fn judged_view(annotation: Option<(&str, bool)>) -> Option<(Seq<char>, bool)> {
    match annotation {
        Some((text, verdict)) => Some((text@, verdict)),
        None => None,
    }
}

/// A derive's outcome, the text as a sequence of characters.
pub open spec fn outcome_view(outcome: Result<String, DeriveError>) -> Result<
    Seq<char>,
    DeriveError,
> {
    match outcome {
        Ok(text) => Ok(text@),
        Err(error) => Err(error),
    }
}

/// What the derive has read off a marker type's declaration.
pub struct ContextDeriveInput {
    pub ident: String,
    pub state: String,
}

impl ContextDeriveInput {
    /// The marker's name and the text of its state type.
    pub open spec fn view(&self) -> (Seq<char>, Seq<char>) {
        (self.ident@, self.state@)
    }

    /// The input as a result over sequences of characters.
    pub open spec fn read_view(input: Result<Self, DeriveError>) -> Result<
        (Seq<char>, Seq<char>),
        DeriveError,
    > {
        match input {
            Ok(read) => Ok(read@),
            Err(error) => Err(error),
        }
    }

    /// Reads the input from the marker's name and its annotation, which comes
    /// with the verdict whether it spells a type, or is `None` where the
    /// declaration has none.
    pub fn read(ident: &str, annotation: Option<(&str, bool)>) -> (input: Result<Self, DeriveError>)
        ensures
            Self::read_view(input) == read_spec(ident@, judged_view(annotation)),
    {
        match annotation {
            None => Err(DeriveError::MissingState),
            Some((state, verdict)) => {
                if verdict {
                    Ok(
                        ContextDeriveInput {
                            ident: String::from_str(ident),
                            state: String::from_str(state),
                        },
                    )
                } else {
                    Err(DeriveError::InvalidState)
                }
            },
        }
    }

    /// The text of the impl that wires the marker to its state.
    pub fn expand(&self) -> (text: String)
        ensures
            text@ == impl_text(self.ident@, self.state@),
    {
        let mut text = String::from_str("impl qcontext::Context for ");
        text.append(self.ident.as_str());
        text.append(" {\n    type State = ");
        text.append(self.state.as_str());
        text.append(
            "\n    ;\n    fn context() -> &'static qcontext::OnceCell<Self::State> {\n        static CONTEXT: std::sync::LazyLock<qcontext::OnceCell<",
        );
        text.append(self.state.as_str());
        text.append(
            "\n        >> = std::sync::LazyLock::new(qcontext::OnceCell::new);\n        &CONTEXT\n    }\n}\n",
        );
        text
    }
}

impl DeriveError {
    /// The diagnostic that a failed derive shows.
    pub fn describe(&self) -> (message: String)
        ensures
            message@ == match *self {
                DeriveError::MissingState => "missing `state` annotation"@,
                DeriveError::InvalidState => "`state` annotation is not a type"@,
            },
    {
        match self {
            DeriveError::MissingState => String::from_str("missing `state` annotation"),
            DeriveError::InvalidState => String::from_str("`state` annotation is not a type"),
        }
    }
}

/// Derives the `Context` impl of the marker `ident` from its `state`
/// annotation, which is `None` where the declaration has none. The marker's
/// name is taken as it stands. Whether an annotation spells a type is asked
/// of the parser; the outcome is the one that `derived` gives for the
/// parser's verdict, whichever it was.
pub fn derive_context(ident: &str, annotation: Option<&str>) -> (expanded: Result<
    String,
    DeriveError,
>)
    ensures
        outcome_view(expanded) == derived(ident@, judged(annotation, true)) || outcome_view(
            expanded,
        ) == derived(ident@, judged(annotation, false)),
        annotation is None ==> outcome_view(expanded) == Err::<Seq<char>, _>(
            DeriveError::MissingState,
        ),
{
    let judged = match annotation {
        None => None,
        Some(text) => Some((text, parses_as_type(text))),
    };
    match ContextDeriveInput::read(ident, judged) {
        Ok(input) => Ok(input.expand()),
        Err(error) => Err(error),
    }
}

/// The derive never defaults: it yields an impl only for an annotation that
/// is present and was judged to spell a type, and that impl names the marker
/// and the annotated type as they were given.
pub proof fn lemma_derive_never_defaults(ident: Seq<char>, annotation: Option<(Seq<char>, bool)>)
    ensures
        derived(ident, annotation) is Ok <==> (annotation is Some && annotation->Some_0.1),
        derived(ident, annotation) is Ok ==> derived(ident, annotation)->Ok_0 == impl_text(
            ident,
            annotation->Some_0.0,
        ),
        annotation is None ==> derived(ident, annotation) == Err::<Seq<char>, _>(
            DeriveError::MissingState,
        ),
        annotation is Some && !annotation->Some_0.1 ==> derived(ident, annotation) == Err::<
            Seq<char>,
            _,
        >(DeriveError::InvalidState),
{
}

} // verus!
