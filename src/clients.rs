use vstd::prelude::*;
use vstd::string::StringExecFns;

use crate::error::AppError;
use crate::translations::TranslationStyle;

verus! {

/// The text of an HTTP status as `reqwest::StatusCode` displays it.
pub uninterp spec fn status_text(code: u16) -> Seq<char>;

/// Whether `t` begins with the three decimal digits of `code` and a space.
pub open spec fn starts_with_code(t: Seq<char>, code: u16) -> bool {
    &&& t.len() >= 4
    &&& t[0] as u32 == 48 + code / 100
    &&& t[1] as u32 == 48 + (code / 10) % 10
    &&& t[2] as u32 == 48 + code % 10
    &&& t[3] == ' '
}

/// Whether `code` is a valid HTTP status: three decimal digits.
pub open spec fn is_status_code(code: u16) -> bool {
    100 <= code && code <= 999
}

/// Relies on `reqwest::StatusCode` (`http::StatusCode`): `from_u16` accepts
/// 100 to 999, and its `Display` writes the code, a space and the reason.
#[verifier::external_body]
fn status_display(code: u16) -> (r: String)
    requires
        is_status_code(code),
    ensures
        r@ == status_text(code),
        starts_with_code(r@, code),
{
    reqwest::StatusCode::from_u16(code).unwrap().to_string()
}

/// Whether an HTTP status reports success (2xx).
pub open spec fn is_success(status: u16) -> bool {
    200 <= status && status <= 299
}

/// Where the catalog service describes a species.
pub open spec fn species_url_of(name: Seq<char>) -> Seq<char> {
    "https://pokeapi.co/api/v2/pokemon-species/"@ + name + "/"@
}

/// The detail of the error for a species that the catalog does not know.
pub open spec fn species_not_found(name: Seq<char>) -> Seq<char> {
    "Pokemon species '"@ + name + "' not found"@
}

/// Where the style-transform service takes texts for a style.
pub open spec fn endpoint_of(style: TranslationStyle) -> Seq<char> {
    match style {
        TranslationStyle::Shakespeare => "https://api.funtranslations.com/translate/shakespeare.json"@,
        TranslationStyle::Yoda => "https://api.funtranslations.com/translate/yoda.json"@,
    }
}

/// The client of the catalog service.
pub struct PokeApiClient;

impl PokeApiClient {
    pub fn new() -> (r: PokeApiClient) {
        PokeApiClient {  }
    }

    /// The address to fetch the species `name` from.
    pub fn species_url(&self, name: &str) -> (r: String)
        ensures
            r@ == species_url_of(name@),
    {
        String::from_str("https://pokeapi.co/api/v2/pokemon-species/").concat(name).concat("/")
    }

    /// Judges the status of the catalog's answer for `name`: any 2xx lets the
    /// body be read; anything else means the species is not found.
    pub fn check_species_status(&self, name: &str, status: u16) -> (r: Result<(), AppError>)
        ensures
            r is Ok <==> is_success(status),
            r matches Err(e) ==> e is NotFound && e.detail() == species_not_found(name@),
    {
        if 200 <= status && status <= 299 {
            Ok(())
        } else {
            Err(
                AppError::NotFound(
                    String::from_str("Pokemon species '").concat(name).concat("' not found"),
                ),
            )
        }
    }
}

/// The client of the style-transform service.
pub struct FunsTranslationsApiClient;

impl FunsTranslationsApiClient {
    pub fn new() -> (r: FunsTranslationsApiClient) {
        FunsTranslationsApiClient {  }
    }

    /// The address that takes texts to rewrite in `style`.
    pub fn endpoint(&self, style: TranslationStyle) -> (r: String)
        ensures
            r@ == endpoint_of(style),
    {
        match style {
            TranslationStyle::Shakespeare => String::from_str(
                "https://api.funtranslations.com/translate/shakespeare.json",
            ),
            TranslationStyle::Yoda => String::from_str(
                "https://api.funtranslations.com/translate/yoda.json",
            ),
        }
    }

    /// Judges the status of a style-transform answer: 200 lets the body be read,
    /// 429 is a rate limit, 400 a rejected request, anything else a failure that
    /// carries the status. A status has three digits.
    pub fn check_status(&self, status: u16) -> (r: Result<(), AppError>)
        requires
            is_status_code(status),
        ensures
            r is Ok <==> status == 200,
            status == 429 ==> (r matches Err(AppError::GenericError(d))
                && d@ == "Rate limit exceeded for FunTranslations API"@),
            status == 400 ==> (r matches Err(AppError::BadRequest(d))
                && d@ == "Invalid request to FunTranslations API"@),
            status != 200 && status != 429 && status != 400 ==> (r matches Err(
                AppError::GenericError(d),
            ) && d@ == "FunTranslations API error: "@ + status_text(status)
                && starts_with_code(d@.skip(27), status)),
    {
        if status == 200 {
            Ok(())
        } else if status == 429 {
            Err(AppError::GenericError(String::from_str("Rate limit exceeded for FunTranslations API")))
        } else if status == 400 {
            Err(AppError::BadRequest(String::from_str("Invalid request to FunTranslations API")))
        } else {
            let text = status_display(status);
            let detail = String::from_str("FunTranslations API error: ").concat(text.as_str());
            proof {
                reveal_strlit("FunTranslations API error: ");
                assert(detail@.skip(27) == text@);
            }
            Err(AppError::GenericError(detail))
        }
    }
}

} // verus!
