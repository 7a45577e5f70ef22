//! The lazy-load and fallback controller of one image: it decides, for each
//! event the browser reports, what the component does next.

use vstd::prelude::*;

use crate::json::{is_json_document, json_document};
use crate::text::{decimal, decimal_string};

verus! {

/// Something the component does in answer to an event.
#[derive(Debug, PartialEq, Eq)]
pub enum LoaderAction {
    /// Set the image element's source to `url`.
    AssignSource { url: String },
    /// Call the load callback.
    NotifyLoad,
    /// Call the error callback with `message`.
    NotifyError { message: String },
    /// Request `url` to check that the fallback source can be had.
    FetchFallback { url: String },
}

/// The mathematical value of a [`LoaderAction`].
pub ghost enum ActionView {
    AssignSource(Seq<char>),
    NotifyLoad,
    NotifyError(Seq<char>),
    FetchFallback(Seq<char>),
}

impl View for LoaderAction {
    type V = ActionView;

    open spec fn view(&self) -> ActionView {
        match self {
            LoaderAction::AssignSource { url } => ActionView::AssignSource(url@),
            LoaderAction::NotifyLoad => ActionView::NotifyLoad,
            LoaderAction::NotifyError { message } => ActionView::NotifyError(message@),
            LoaderAction::FetchFallback { url } => ActionView::FetchFallback(url@),
        }
    }
}

/// The values of a list of actions.
pub open spec fn actions_view(actions: Seq<LoaderAction>) -> Seq<ActionView> {
    actions.map_values(|a: LoaderAction| a@)
}

/// How the request for the fallback source ended.
#[derive(Debug, PartialEq, Eq)]
pub enum FallbackResponse {
    /// The request did not complete; `message` describes why.
    NetworkError { message: String },
    /// The server answered with `status`; `body` is the response text, or
    /// `None` where it could not be read.
    Received { status: u16, body: Option<String> },
}

/// The message reported when the image fails and there is no fallback.
pub open spec fn no_fallback_message() -> Seq<char> {
    "Image failed to load and no fallback provided."@
}

/// What the component does when the image fails to load: request the
/// fallback source, or report the failure where there is none.
pub open spec fn error_step(fallback: Seq<char>) -> Seq<ActionView> {
    if fallback.len() == 0 {
        seq![ActionView::NotifyError(no_fallback_message())]
    } else {
        seq![ActionView::FetchFallback(fallback)]
    }
}

/// Whether the response's body is a JSON document, where there is a body.
pub open spec fn body_is_json(response: FallbackResponse) -> bool {
    match response {
        FallbackResponse::Received { body: Some(b), .. } => json_document(b@),
        _ => false,
    }
}

/// A response validates the fallback source when its status is 200 and its
/// body is a JSON document (`body_is_json` says whether it is).
pub open spec fn fallback_accepted(response: FallbackResponse, body_is_json: bool) -> bool {
    match response {
        FallbackResponse::Received { status, body } => status == 200 && body is Some
            && body_is_json,
        FallbackResponse::NetworkError { .. } => false,
    }
}

/// The message reported for a response that does not validate the fallback.
pub open spec fn fallback_error(response: FallbackResponse) -> Seq<char> {
    match response {
        FallbackResponse::NetworkError { message } => "Network error: "@ + message@,
        FallbackResponse::Received { status, body } => if status == 200 {
            "Image Not Found!"@
        } else {
            "Failed to load image. Status: "@ + decimal(status as nat) + ", Body: "@ + match body {
                Some(b) => b@,
                None => "Failed to retrieve response body"@,
            }
        },
    }
}

/// The displayed source and the actions after a fallback response.
pub open spec fn response_step(
    src: Seq<char>,
    fallback: Seq<char>,
    response: FallbackResponse,
    body_is_json: bool,
) -> (Seq<char>, Seq<ActionView>) {
    if fallback_accepted(response, body_is_json) {
        (fallback, seq![ActionView::AssignSource(fallback), ActionView::NotifyLoad])
    } else {
        (src, seq![ActionView::NotifyError(fallback_error(response))])
    }
}

/// What the component does when the image's visibility changes: once it
/// intersects the viewport, assign the source and report the load.
pub open spec fn visibility_step(src: Seq<char>, intersecting: bool) -> Seq<ActionView> {
    if intersecting {
        seq![ActionView::AssignSource(src), ActionView::NotifyLoad]
    } else {
        seq![]
    }
}

/// When the image fails to load and there is no fallback source, the error
/// callback gets the fixed message, once, and nothing else happens: no
/// request is made, the displayed source is not changed, and no load is
/// reported.
pub proof fn lemma_error_without_fallback(fallback: Seq<char>)
    requires
        fallback.len() == 0,
    ensures
        error_step(fallback) == seq![ActionView::NotifyError(no_fallback_message())],
        error_step(fallback).len() == 1,
        forall|i: int|
            0 <= i < error_step(fallback).len() ==> {
                &&& !(#[trigger] error_step(fallback)[i] is FetchFallback)
                &&& !(error_step(fallback)[i] is AssignSource)
                &&& !(error_step(fallback)[i] is NotifyLoad)
            },
{
}

/// When the image fails to load and its fallback source answers with status
/// 200 and a JSON body, the fallback is requested, the displayed source
/// becomes the fallback, and the load callback fires.
pub proof fn lemma_fallback_success(src: Seq<char>, fallback: Seq<char>, response: FallbackResponse)
    requires
        fallback.len() > 0,
        response is Received,
        response->status == 200,
        response->body matches Some(b) && json_document(b@),
    ensures
        error_step(fallback) == seq![ActionView::FetchFallback(fallback)],
        response_step(src, fallback, response, body_is_json(response)) == (
            fallback,
            seq![ActionView::AssignSource(fallback), ActionView::NotifyLoad],
        ),
{
}

/// The load state of one image: the source it displays and the fallback
/// source tried when that fails.
pub struct ImageLoader {
    /// The source the image displays.
    pub src: String,
    /// The fallback source; empty where there is none.
    pub fallback_src: String,
}

impl ImageLoader {
    /// A loader that displays `src`, with `fallback_src` as its fallback.
    pub fn new(src: &str, fallback_src: &str) -> (r: ImageLoader)
        ensures
            r.src@ == src@,
            r.fallback_src@ == fallback_src@,
    {
        ImageLoader { src: src.to_owned(), fallback_src: fallback_src.to_owned() }
    }

    /// The image intersected the viewport (`intersecting`) or left it.
    pub fn on_visibility(&self, intersecting: bool) -> (r: Vec<LoaderAction>)
        ensures
            actions_view(r@) == visibility_step(self.src@, intersecting),
    {
        let mut r: Vec<LoaderAction> = Vec::new();
        if intersecting {
            r.push(LoaderAction::AssignSource { url: self.src.clone() });
            r.push(LoaderAction::NotifyLoad);
        }
        assert(actions_view(r@) =~= visibility_step(self.src@, intersecting));
        r
    }

    /// The image finished loading.
    pub fn on_load(&self) -> (r: Vec<LoaderAction>)
        ensures
            actions_view(r@) == seq![ActionView::NotifyLoad],
    {
        let mut r: Vec<LoaderAction> = Vec::new();
        r.push(LoaderAction::NotifyLoad);
        assert(actions_view(r@) =~= seq![ActionView::NotifyLoad]);
        r
    }

    /// The image failed to load.
    pub fn on_error(&self) -> (r: Vec<LoaderAction>)
        ensures
            actions_view(r@) == error_step(self.fallback_src@),
    {
        let mut r: Vec<LoaderAction> = Vec::new();
        if self.fallback_src.as_str().is_empty() {
            r.push(
                LoaderAction::NotifyError {
                    message: String::from_str("Image failed to load and no fallback provided."),
                },
            );
        } else {
            r.push(LoaderAction::FetchFallback { url: self.fallback_src.clone() });
        }
        assert(actions_view(r@) =~= error_step(self.fallback_src@));
        r
    }

    /// The request for the fallback source ended with `response`;
    /// `body_is_json` says whether its body is a JSON document.
    pub fn settle_fallback(&mut self, response: FallbackResponse, body_is_json: bool) -> (r: Vec<
        LoaderAction,
    >)
        ensures
            (final(self).src@, actions_view(r@)) == response_step(
                old(self).src@,
                old(self).fallback_src@,
                response,
                body_is_json,
            ),
            final(self).fallback_src@ == old(self).fallback_src@,
    {
        let mut r: Vec<LoaderAction> = Vec::new();
        let accepted = match &response {
            FallbackResponse::Received { status, body } => *status == 200 && body.is_some()
                && body_is_json,
            FallbackResponse::NetworkError { .. } => false,
        };
        if accepted {
            self.src = self.fallback_src.clone();
            r.push(LoaderAction::AssignSource { url: self.fallback_src.clone() });
            r.push(LoaderAction::NotifyLoad);
        } else {
            let message = match response {
                FallbackResponse::NetworkError { message } => {
                    let mut m = String::from_str("Network error: ");
                    m.append(message.as_str());
                    m
                },
                FallbackResponse::Received { status, body } => {
                    if status == 200 {
                        String::from_str("Image Not Found!")
                    } else {
                        let mut m = String::from_str("Failed to load image. Status: ");
                        m.append(decimal_string(status as u64).as_str());
                        m.append(", Body: ");
                        match body {
                            Some(b) => m.append(b.as_str()),
                            None => m.append("Failed to retrieve response body"),
                        }
                        m
                    }
                },
            };
            r.push(LoaderAction::NotifyError { message });
        }
        assert(actions_view(r@) =~= response_step(
            old(self).src@,
            old(self).fallback_src@,
            response,
            body_is_json,
        ).1);
        r
    }

    /// The request for the fallback source ended with `response`. A body is
    /// checked to be a JSON document only where the status is 200.
    pub fn on_fallback_response(&mut self, response: FallbackResponse) -> (r: Vec<LoaderAction>)
        ensures
            (final(self).src@, actions_view(r@)) == response_step(
                old(self).src@,
                old(self).fallback_src@,
                response,
                body_is_json(response),
            ),
            final(self).fallback_src@ == old(self).fallback_src@,
    {
        let json = match &response {
            FallbackResponse::Received { status, body: Some(b) } => *status == 200
                && is_json_document(b.as_str()),
            _ => false,
        };
        self.settle_fallback(response, json)
    }
}

} // verus!
