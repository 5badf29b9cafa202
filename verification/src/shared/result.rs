//! The application error shared by the services.

use vstd::prelude::*;
use vstd::string::*;

verus! {

/// An application error. Each variant carries the text of its cause.
#[derive(Debug)]
pub enum AppErr {
    Io { src: String },
    Custom { message: String },
    ParseInt { src: String },
    Database { src: String },
    ReadEnv { src: String },
    ParseUrl { src: String },
    ParseUri { src: String },
    HttpClient { src: String },
}

/// The mathematical view of an [`AppErr`].
pub enum AppErrView {
    Io(Seq<char>),
    Custom(Seq<char>),
    ParseInt(Seq<char>),
    Database(Seq<char>),
    ReadEnv(Seq<char>),
    ParseUrl(Seq<char>),
    ParseUri(Seq<char>),
    HttpClient(Seq<char>),
}

impl View for AppErr {
    type V = AppErrView;

    open spec fn view(&self) -> AppErrView {
        match self {
            AppErr::Io { src } => AppErrView::Io(src@),
            AppErr::Custom { message } => AppErrView::Custom(message@),
            AppErr::ParseInt { src } => AppErrView::ParseInt(src@),
            AppErr::Database { src } => AppErrView::Database(src@),
            AppErr::ReadEnv { src } => AppErrView::ReadEnv(src@),
            AppErr::ParseUrl { src } => AppErrView::ParseUrl(src@),
            AppErr::ParseUri { src } => AppErrView::ParseUri(src@),
            AppErr::HttpClient { src } => AppErrView::HttpClient(src@),
        }
    }
}

/// The text an [`AppErr`] displays: a prefix naming its kind, then its cause.
pub open spec fn app_err_text(e: AppErrView) -> Seq<char> {
    match e {
        AppErrView::Io(s) => "I/O: "@ + s,
        AppErrView::Custom(s) => "Custom: "@ + s,
        AppErrView::ParseInt(s) => "ParseInt: "@ + s,
        AppErrView::Database(s) => "Database: "@ + s,
        AppErrView::ReadEnv(s) => "ReadEnv: "@ + s,
        AppErrView::ParseUrl(s) => "ParseUrl: "@ + s,
        AppErrView::ParseUri(s) => "ParseUrl: "@ + s,
        AppErrView::HttpClient(s) => "HttpClient: "@ + s,
    }
}

impl AppErr {
    /// A custom error with the given message.
    pub fn custom(message: &str) -> (r: AppErr)
        ensures
            r@ == AppErrView::Custom(message@),
    {
        AppErr::Custom { message: String::from_str(message) }
    }

    /// A copy of the error.
    pub fn duplicate(&self) -> (r: AppErr)
        ensures
            r@ == self@,
    {
        match self {
            AppErr::Io { src } => AppErr::Io { src: src.clone() },
            AppErr::Custom { message } => AppErr::Custom { message: message.clone() },
            AppErr::ParseInt { src } => AppErr::ParseInt { src: src.clone() },
            AppErr::Database { src } => AppErr::Database { src: src.clone() },
            AppErr::ReadEnv { src } => AppErr::ReadEnv { src: src.clone() },
            AppErr::ParseUrl { src } => AppErr::ParseUrl { src: src.clone() },
            AppErr::ParseUri { src } => AppErr::ParseUri { src: src.clone() },
            AppErr::HttpClient { src } => AppErr::HttpClient { src: src.clone() },
        }
    }

    /// The text the error displays.
    pub fn to_text(&self) -> (r: String)
        ensures
            r@ == app_err_text(self@),
    {
        let (prefix, cause) = match self {
            AppErr::Io { src } => ("I/O: ", src),
            AppErr::Custom { message } => ("Custom: ", message),
            AppErr::ParseInt { src } => ("ParseInt: ", src),
            AppErr::Database { src } => ("Database: ", src),
            AppErr::ReadEnv { src } => ("ReadEnv: ", src),
            AppErr::ParseUrl { src } => ("ParseUrl: ", src),
            AppErr::ParseUri { src } => ("ParseUrl: ", src),
            AppErr::HttpClient { src } => ("HttpClient: ", src),
        };
        String::from_str(prefix).concat(cause.as_str())
    }
}

/// An application error displays a prefix naming its kind, then its cause
/// unchanged (a URI error displays as a URL error).
pub proof fn law_app_err_text(s: Seq<char>)
    ensures
        app_err_text(AppErrView::Io(s)) == "I/O: "@ + s,
        app_err_text(AppErrView::Custom(s)) == "Custom: "@ + s,
        app_err_text(AppErrView::ParseInt(s)) == "ParseInt: "@ + s,
        app_err_text(AppErrView::Database(s)) == "Database: "@ + s,
        app_err_text(AppErrView::ReadEnv(s)) == "ReadEnv: "@ + s,
        app_err_text(AppErrView::ParseUrl(s)) == "ParseUrl: "@ + s,
        app_err_text(AppErrView::ParseUri(s)) == "ParseUrl: "@ + s,
        app_err_text(AppErrView::HttpClient(s)) == "HttpClient: "@ + s,
{
}

} // verus!
