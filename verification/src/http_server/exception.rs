//! Errors the HTTP server answers with, and their HTTP status codes.

use vstd::prelude::*;
use vstd::string::*;

use crate::shared::result::{app_err_text, AppErr, AppErrView};

verus! {

/// An error answered to an HTTP-server client.
#[derive(Debug)]
pub enum HttpException {
    /// The request body failed validation; `src` is the text of the validation errors.
    Validation { src: String },
    BadRequest { msg: String },
    Unauthorized { msg: String },
    Internal { msg: String },
    /// A number did not parse; `src` is the text of the parse error.
    ParseInt { src: String },
    App(AppErr),
}

/// The mathematical view of an [`HttpException`].
pub enum HttpExceptionView {
    Validation(Seq<char>),
    BadRequest(Seq<char>),
    Unauthorized(Seq<char>),
    Internal(Seq<char>),
    ParseInt(Seq<char>),
    App(AppErrView),
}

impl View for HttpException {
    type V = HttpExceptionView;

    open spec fn view(&self) -> HttpExceptionView {
        match self {
            HttpException::Validation { src } => HttpExceptionView::Validation(src@),
            HttpException::BadRequest { msg } => HttpExceptionView::BadRequest(msg@),
            HttpException::Unauthorized { msg } => HttpExceptionView::Unauthorized(msg@),
            HttpException::Internal { msg } => HttpExceptionView::Internal(msg@),
            HttpException::ParseInt { src } => HttpExceptionView::ParseInt(src@),
            HttpException::App(e) => HttpExceptionView::App(e@),
        }
    }
}

/// The HTTP status each error is answered with.
pub open spec fn status_of(e: HttpExceptionView) -> u16 {
    match e {
        HttpExceptionView::Validation(_) => 400,
        HttpExceptionView::BadRequest(_) => 400,
        HttpExceptionView::Unauthorized(_) => 401,
        HttpExceptionView::Internal(_) => 500,
        HttpExceptionView::ParseInt(_) => 500,
        HttpExceptionView::App(_) => 500,
    }
}

/// The text each error displays.
pub open spec fn exception_text(e: HttpExceptionView) -> Seq<char> {
    match e {
        HttpExceptionView::Validation(m) => "Validation: "@ + m,
        HttpExceptionView::BadRequest(m) => "BadRequest: "@ + m,
        HttpExceptionView::Unauthorized(m) => "Unauthorized: "@ + m,
        HttpExceptionView::Internal(m) => "msg: "@ + m,
        HttpExceptionView::ParseInt(m) => "ParseInt: "@ + m,
        HttpExceptionView::App(a) => app_err_text(a),
    }
}

impl HttpException {
    /// An internal error carrying the given text.
    pub fn internal(msg: &str) -> (r: HttpException)
        ensures
            r@ == HttpExceptionView::Internal(msg@),
    {
        HttpException::Internal { msg: String::from_str(msg) }
    }

    /// A bad-request error.
    pub fn bad_request(msg: &str) -> (r: HttpException)
        ensures
            r@ == HttpExceptionView::BadRequest(msg@),
    {
        HttpException::BadRequest { msg: String::from_str(msg) }
    }

    /// A validation failure described by a message; answered as a bad request.
    pub fn validate(msg: &str) -> (r: HttpException)
        ensures
            r@ == HttpExceptionView::BadRequest(msg@),
    {
        HttpException::BadRequest { msg: String::from_str(msg) }
    }

    /// An unauthorized error.
    pub fn unauthorized(msg: &str) -> (r: HttpException)
        ensures
            r@ == HttpExceptionView::Unauthorized(msg@),
    {
        HttpException::Unauthorized { msg: String::from_str(msg) }
    }

    /// The HTTP status the error is answered with.
    pub fn status_code(&self) -> (r: u16)
        ensures
            r == status_of(self@),
    {
        match self {
            HttpException::Validation { .. } => 400,
            HttpException::BadRequest { .. } => 400,
            HttpException::Unauthorized { .. } => 401,
            HttpException::Internal { .. } => 500,
            HttpException::ParseInt { .. } => 500,
            HttpException::App(_) => 500,
        }
    }

    /// Whether the error is logged when answered (the server-side failures).
    pub fn is_traced(&self) -> (r: bool)
        ensures
            r == (status_of(self@) == 500),
    {
        match self {
            HttpException::Validation { .. } | HttpException::BadRequest { .. } | HttpException::Unauthorized {
                ..
            } => false,
            _ => true,
        }
    }

    /// The text the error displays.
    pub fn to_text(&self) -> (r: String)
        ensures
            r@ == exception_text(self@),
    {
        match self {
            HttpException::Validation { src } => String::from_str("Validation: ").concat(src.as_str()),
            HttpException::BadRequest { msg } => String::from_str("BadRequest: ").concat(msg.as_str()),
            HttpException::Unauthorized { msg } => String::from_str("Unauthorized: ").concat(msg.as_str()),
            HttpException::Internal { msg } => String::from_str("msg: ").concat(msg.as_str()),
            HttpException::ParseInt { src } => String::from_str("ParseInt: ").concat(src.as_str()),
            HttpException::App(e) => e.to_text(),
        }
    }
}

/// Validation failures and bad requests are answered with 400, a refused
/// token with 401, and the server's own failures (internal, integer parsing
/// and application errors) with 500.
pub proof fn law_status_codes(e: HttpExceptionView)
    ensures
        e is Validation || e is BadRequest <==> status_of(e) == 400,
        e is Unauthorized <==> status_of(e) == 401,
        e is Internal || e is ParseInt || e is App <==> status_of(e) == 500,
{
}

/// An error displays a prefix naming its kind, then its message unchanged
/// (an internal error's prefix is `msg: `); an application error displays as
/// the application error does.
pub proof fn law_exception_text(m: Seq<char>, a: AppErrView)
    ensures
        exception_text(HttpExceptionView::Validation(m)) == "Validation: "@ + m,
        exception_text(HttpExceptionView::BadRequest(m)) == "BadRequest: "@ + m,
        exception_text(HttpExceptionView::Unauthorized(m)) == "Unauthorized: "@ + m,
        exception_text(HttpExceptionView::Internal(m)) == "msg: "@ + m,
        exception_text(HttpExceptionView::ParseInt(m)) == "ParseInt: "@ + m,
        exception_text(HttpExceptionView::App(a)) == app_err_text(a),
{
}

} // verus!
