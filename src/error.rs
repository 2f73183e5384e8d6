use vstd::prelude::*;

verus! {

/// The two kinds of failure the library reports.
///
/// `InvalidArgument` is for caller input that is structurally wrong and is
/// detected locally, before any remote call.  `GreenlightApi` is any failure
/// of the scheduler or of the node, with its cause chain rendered into the
/// message.
#[derive(Clone, Debug)]
pub enum SdkError {
    InvalidArgument(String),
    GreenlightApi(String),
}

/// `context: cause`, the rendering of an error chain of two links.
pub open spec fn chain_text(context: Seq<char>, cause: Seq<char>) -> Seq<char> {
    context + seq![':', ' '] + cause
}

/// Whether `message` renders an error chain whose outermost link is `context`.
pub open spec fn has_context(message: Seq<char>, context: Seq<char>) -> bool {
    exists|cause: Seq<char>| message == chain_text(context, cause)
}

impl SdkError {
    pub open spec fn is_invalid_argument(&self) -> bool {
        self is InvalidArgument
    }

    pub open spec fn is_greenlight_api(&self) -> bool {
        self is GreenlightApi
    }

    /// The message carried by either kind.
    pub open spec fn message(&self) -> Seq<char> {
        match self {
            SdkError::InvalidArgument(m) => m@,
            SdkError::GreenlightApi(m) => m@,
        }
    }

    /// An `InvalidArgument` error whose message is `context: cause`.
    pub fn invalid_arg(context: &str, cause: &str) -> (r: SdkError)
        ensures
            r.is_invalid_argument(),
            r.message() == chain_text(context@, cause@),
    {
        SdkError::InvalidArgument(Self::format_anyhow_error(context, cause))
    }

    /// A `GreenlightApi` error whose message is `context: cause`.
    pub fn greenlight_api(context: &str, cause: &str) -> (r: SdkError)
        ensures
            r.is_greenlight_api(),
            r.message() == chain_text(context@, cause@),
    {
        SdkError::GreenlightApi(Self::format_anyhow_error(context, cause))
    }

    /// Relies on anyhow's alternate display (`{:#}`) of an error made by
    /// `Error::msg(cause).context(context)`: the context, then `": "` and the
    /// cause.
    #[verifier::external_body]
    pub fn format_anyhow_error(context: &str, cause: &str) -> (r: String)
        ensures
            r@ == chain_text(context@, cause@),
    {
        let e = anyhow::Error::msg(cause.to_string()).context(context.to_string());
        format!("{:#}", e)
    }

    /// The message carried by either kind.
    pub fn text(&self) -> (r: String)
        ensures
            r@ == self.message(),
    {
        match self {
            SdkError::InvalidArgument(m) => m.clone(),
            SdkError::GreenlightApi(m) => m.clone(),
        }
    }
}

} // verus!
