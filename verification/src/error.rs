//! The errors a request to the registry is answered with.
use vstd::prelude::*;

verus! {

/// Why a request is refused or fails.
#[derive(Debug, PartialEq, Eq)]
pub enum AppError {
    /// The credentials are missing or were not accepted. `auth_url` is where the
    /// client is told to get a token, if it is told.
    Unauthorized { msg: String, auth_url: Option<String> },
    /// The request asks for something that is not offered.
    BadRequest(String),
    /// The registry could not do its own part.
    Internal(String),
}

/// The model of an [`AppError`].
pub enum AppErrorView {
    Unauthorized { msg: Seq<char>, auth_url: Option<Seq<char>> },
    BadRequest(Seq<char>),
    Internal(Seq<char>),
}

impl View for AppError {
    type V = AppErrorView;

    open spec fn view(&self) -> AppErrorView {
        match self {
            AppError::Unauthorized { msg, auth_url } => AppErrorView::Unauthorized {
                msg: msg@,
                auth_url: auth_url.deep_view(),
            },
            AppError::BadRequest(msg) => AppErrorView::BadRequest(msg@),
            AppError::Internal(msg) => AppErrorView::Internal(msg@),
        }
    }
}

/// The model of a result, from the models of its two sides.
pub open spec fn result_view<T: View, E: View>(r: Result<T, E>) -> Result<T::V, E::V> {
    match r {
        Ok(value) => Ok(value@),
        Err(error) => Err(error@),
    }
}

/// An [`AppError::Unauthorized`] that does not say where to get a token.
pub open spec fn unauthorized(msg: Seq<char>) -> AppErrorView {
    AppErrorView::Unauthorized { msg, auth_url: None }
}

/// The model of a result shows the value or the error as it is.
pub proof fn law_result_view_is_faithful<T: View, E: View>(r: Result<T, E>)
    ensures
        r matches Ok(value) ==> result_view(r) == Ok::<T::V, E::V>(value@),
        r matches Err(error) ==> result_view(r) == Err::<T::V, E::V>(error@),
{
}

/// The model of an error shows each part of it as it is.
pub proof fn law_error_view_is_faithful(error: AppError)
    ensures
        error matches AppError::Unauthorized { msg, auth_url } ==> (error@ matches
            AppErrorView::Unauthorized { msg: shown, auth_url: shown_url } && shown == msg@ && (
        match auth_url {
            Some(url) => shown_url == Some(url@),
            None => shown_url is None,
        })),
        error matches AppError::BadRequest(msg) ==> error@ == AppErrorView::BadRequest(msg@),
        error matches AppError::Internal(msg) ==> error@ == AppErrorView::Internal(msg@),
{
}

/// A refusal of this kind carries its message unchanged and does not say where to get a
/// token.
pub proof fn law_unauthorized_keeps_its_message(msg: Seq<char>)
    ensures
        unauthorized(msg) == (AppErrorView::Unauthorized { msg, auth_url: None }),
{
}

} // verus!
