//! Errors the portfolio service answers with, and their HTTP status codes.

use vstd::prelude::*;
use vstd::string::*;

use crate::shared::result::{app_err_text, AppErr, AppErrView};

verus! {

/// An error answered to a portfolio-service client.
#[derive(Debug)]
pub enum HttpException {
    BadRequest { msg: String },
    Unauthorized { msg: String },
    Forbidden { msg: String },
    NotFound { msg: String },
    Internal { msg: String },
    App(AppErr),
}

/// The mathematical view of an [`HttpException`].
pub enum HttpExceptionView {
    BadRequest(Seq<char>),
    Unauthorized(Seq<char>),
    Forbidden(Seq<char>),
    NotFound(Seq<char>),
    Internal(Seq<char>),
    App(AppErrView),
}

impl View for HttpException {
    type V = HttpExceptionView;

    open spec fn view(&self) -> HttpExceptionView {
        match self {
            HttpException::BadRequest { msg } => HttpExceptionView::BadRequest(msg@),
            HttpException::Unauthorized { msg } => HttpExceptionView::Unauthorized(msg@),
            HttpException::Forbidden { msg } => HttpExceptionView::Forbidden(msg@),
            HttpException::NotFound { msg } => HttpExceptionView::NotFound(msg@),
            HttpException::Internal { msg } => HttpExceptionView::Internal(msg@),
            HttpException::App(e) => HttpExceptionView::App(e@),
        }
    }
}

/// The HTTP status each error is answered with.
pub open spec fn status_of(e: HttpExceptionView) -> u16 {
    match e {
        HttpExceptionView::BadRequest(_) => 400,
        HttpExceptionView::Unauthorized(_) => 401,
        HttpExceptionView::Forbidden(_) => 403,
        HttpExceptionView::NotFound(_) => 404,
        HttpExceptionView::Internal(_) => 500,
        HttpExceptionView::App(_) => 500,
    }
}

/// The text each error displays (the `msg` of the response body).
pub open spec fn exception_text(e: HttpExceptionView) -> Seq<char> {
    match e {
        HttpExceptionView::BadRequest(m) => "BadRequest: "@ + m,
        HttpExceptionView::Unauthorized(m) => "Unauthorized: "@ + m,
        HttpExceptionView::Forbidden(m) => "Forbidden: "@ + m,
        HttpExceptionView::NotFound(m) => "NotFound: "@ + m,
        HttpExceptionView::Internal(m) => "msg: "@ + m,
        HttpExceptionView::App(a) => app_err_text(a),
    }
}

impl HttpException {
    /// An internal error carrying the given text.
    pub fn internal(msg: &str) -> (r: HttpException)
        ensures
            r@ == HttpExceptionView::Internal(msg@),
    {
        HttpException::Internal { msg: String::from_str(msg) }
    }

    /// A bad-request error.
    pub fn bad_request(msg: &str) -> (r: HttpException)
        ensures
            r@ == HttpExceptionView::BadRequest(msg@),
    {
        HttpException::BadRequest { msg: String::from_str(msg) }
    }

    /// An unauthorized error.
    pub fn unauthorized(msg: &str) -> (r: HttpException)
        ensures
            r@ == HttpExceptionView::Unauthorized(msg@),
    {
        HttpException::Unauthorized { msg: String::from_str(msg) }
    }

    /// A forbidden error.
    pub fn forbidden(msg: &str) -> (r: HttpException)
        ensures
            r@ == HttpExceptionView::Forbidden(msg@),
    {
        HttpException::Forbidden { msg: String::from_str(msg) }
    }

    /// A not-found error.
    pub fn not_found(msg: &str) -> (r: HttpException)
        ensures
            r@ == HttpExceptionView::NotFound(msg@),
    {
        HttpException::NotFound { msg: String::from_str(msg) }
    }

    /// The HTTP status the error is answered with.
    pub fn status_code(&self) -> (r: u16)
        ensures
            r == status_of(self@),
    {
        match self {
            HttpException::BadRequest { .. } => 400,
            HttpException::Unauthorized { .. } => 401,
            HttpException::Forbidden { .. } => 403,
            HttpException::NotFound { .. } => 404,
            HttpException::Internal { .. } => 500,
            HttpException::App(_) => 500,
        }
    }

    /// Whether the error is logged when answered (the server-side failures).
    pub fn is_traced(&self) -> (r: bool)
        ensures
            r == (status_of(self@) == 500),
    {
        match self {
            HttpException::Internal { .. } | HttpException::App(_) => true,
            _ => false,
        }
    }

    /// The text the error displays.
    pub fn to_text(&self) -> (r: String)
        ensures
            r@ == exception_text(self@),
    {
        match self {
            HttpException::BadRequest { msg } => String::from_str("BadRequest: ").concat(msg.as_str()),
            HttpException::Unauthorized { msg } => String::from_str("Unauthorized: ").concat(msg.as_str()),
            HttpException::Forbidden { msg } => String::from_str("Forbidden: ").concat(msg.as_str()),
            HttpException::NotFound { msg } => String::from_str("NotFound: ").concat(msg.as_str()),
            HttpException::Internal { msg } => String::from_str("msg: ").concat(msg.as_str()),
            HttpException::App(e) => e.to_text(),
        }
    }
}

/// Client mistakes are answered with their 4xx status (bad request 400,
/// unauthorized 401, forbidden 403, not found 404) and server failures with
/// 500; the 500s are exactly the internal and application errors.
pub proof fn law_status_codes(e: HttpExceptionView)
    ensures
        e is BadRequest ==> status_of(e) == 400,
        e is Unauthorized ==> status_of(e) == 401,
        e is Forbidden ==> status_of(e) == 403,
        e is NotFound ==> status_of(e) == 404,
        status_of(e) == 500 <==> (e is Internal || e is App),
{
}

/// An error displays a prefix naming its kind, then its message unchanged
/// (an internal error's prefix is `msg: `); an application error displays as
/// the application error does.
pub proof fn law_exception_text(m: Seq<char>, a: AppErrView)
    ensures
        exception_text(HttpExceptionView::BadRequest(m)) == "BadRequest: "@ + m,
        exception_text(HttpExceptionView::Unauthorized(m)) == "Unauthorized: "@ + m,
        exception_text(HttpExceptionView::Forbidden(m)) == "Forbidden: "@ + m,
        exception_text(HttpExceptionView::NotFound(m)) == "NotFound: "@ + m,
        exception_text(HttpExceptionView::Internal(m)) == "msg: "@ + m,
        exception_text(HttpExceptionView::App(a)) == app_err_text(a),
{
}

} // verus!
