use vstd::prelude::*;

verus! {

/// The body sent to a style-transform endpoint.
#[derive(Debug)]
pub struct TranslationRequest {
    pub text: String,
}

/// The body that a style-transform endpoint answers with.
#[derive(Debug)]
pub struct TranslationResponse {
    pub success: Option<Success>,
    pub contents: Contents,
}

#[derive(Debug)]
pub struct Success {
    pub total: i32,
}

#[derive(Debug)]
pub struct Contents {
    pub translated: String,
    pub text: String,
    pub translation: String,
}

/// The two styles that a description can be rewritten in.
#[derive(Debug, Clone, Copy, PartialEq, Eq, Structural)]
pub enum TranslationStyle {
    /// The formal, Shakespearean register.
    Shakespeare,
    /// The archaic, Yoda-like register.
    Yoda,
}

} // verus!
