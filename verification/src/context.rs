//! The chat context: the page text, and the record derived from it.

use crate::sanitize::{cleanable, cleaned_html};
use crate::screenshot::{screenshot_payload, strip_data_uri};
use crate::summary::{
    is_summarizable, summarizable, summarize, summary_excerpt, summary_label, summary_text,
};
use vstd::prelude::*;
use vstd::string::*;

verus! {

/// What a chat context hands to the host about a page.
pub struct ProcessedContext {
    /// The labelled excerpt of the page text.
    pub summary: String,
    /// Two fixed remarks on where the record comes from.
    pub key_points: Vec<String>,
    /// The page text, whole.
    pub relevant_text: String,
    /// The payload of the screenshot, where one was given.
    pub screenshot: Option<String>,
}

/// A [`ProcessedContext`] as text.
pub struct ProcessedView {
    pub summary: Seq<char>,
    pub key_points: Seq<Seq<char>>,
    pub relevant_text: Seq<char>,
    pub screenshot: Option<Seq<char>>,
}

impl View for ProcessedContext {
    type V = ProcessedView;

    open spec fn view(&self) -> ProcessedView {
        ProcessedView {
            summary: self.summary@,
            key_points: self.key_points.deep_view(),
            relevant_text: self.relevant_text@,
            screenshot: self.screenshot.deep_view(),
        }
    }
}

/// The key points of every record.
pub open spec fn fixed_key_points() -> Seq<Seq<char>> {
    seq!["Extracted from page content"@, "Processed by WASM"@]
}

/// The payload kept of an optional screenshot.
pub open spec fn kept_screenshot(screenshot: Option<Seq<char>>) -> Option<Seq<char>> {
    match screenshot {
        Some(s) => Some(screenshot_payload(s)),
        None => None,
    }
}

/// The record that belongs to a page text and a screenshot payload.
pub open spec fn processed(text: Seq<char>, payload: Option<Seq<char>>) -> ProcessedView {
    ProcessedView {
        summary: summary_text(text),
        key_points: fixed_key_points(),
        relevant_text: text,
        screenshot: payload,
    }
}

/// A page text with the record derived from it.
pub struct ChatContext {
    original_text: String,
    processed_data: ProcessedContext,
}

/// A [`ChatContext`] as text.
pub struct ChatContextView {
    pub text: Seq<char>,
    pub processed: ProcessedView,
}

impl View for ChatContext {
    type V = ChatContextView;

    closed spec fn view(&self) -> ChatContextView {
        ChatContextView { text: self.original_text@, processed: self.processed_data@ }
    }
}

/// Builds the two fixed key points.
fn key_points() -> (points: Vec<String>)
    ensures
        points.deep_view() == fixed_key_points(),
{
    let mut points: Vec<String> = Vec::new();
    points.push("Extracted from page content".to_owned());
    points.push("Processed by WASM".to_owned());
    assert(points.deep_view() =~= fixed_key_points());
    points
}

impl ChatContext {
    /// The record always is the one that belongs to the text.
    #[verifier::type_invariant]
    spec fn consistent(&self) -> bool {
        self.processed_data@ == processed(self.original_text@, self.processed_data@.screenshot)
    }

    /// Processes a page text and an optional screenshot. The text must be
    /// one that can be cut for a summary.
    pub fn new(text: &str, screenshot: Option<String>) -> (ctx: ChatContext)
        requires
            summarizable(text@),
        ensures
            ctx@.text == text@,
            ctx@.processed == processed(text@, kept_screenshot(screenshot.deep_view())),
    {
        let cleaned_screenshot = match screenshot {
            Some(s) => Some(strip_data_uri(s)),
            None => None,
        };
        let summary = summarize(text);
        let relevant_text = text.to_owned();
        let key_points = key_points();
        ChatContext {
            original_text: text.to_owned(),
            processed_data: ProcessedContext {
                summary,
                key_points,
                relevant_text,
                screenshot: cleaned_screenshot,
            },
        }
    }

    /// Processes a page text and an optional screenshot as [`ChatContext::new`]
    /// does, and returns nothing for a text that cannot be cut for a summary.
    pub fn try_new(text: &str, screenshot: Option<String>) -> (made: Option<ChatContext>)
        ensures
            made is Some <==> summarizable(text@),
            made matches Some(ctx) ==> {
                &&& ctx@.text == text@
                &&& ctx@.processed == processed(text@, kept_screenshot(screenshot.deep_view()))
            },
    {
        if is_summarizable(text) {
            Some(ChatContext::new(text, screenshot))
        } else {
            None
        }
    }

    /// The record derived from the text. Whatever screenshot it keeps, it is
    /// the record that belongs to the text.
    pub fn get_processed_context(&self) -> (data: &ProcessedContext)
        ensures
            data@ == self@.processed,
            data@ == processed(self@.text, data@.screenshot),
    {
        proof {
            use_type_invariant(self);
        }
        &self.processed_data
    }

    /// A copy of the page text, as the record holds it.
    pub fn get_relevant_text(&self) -> (out: String)
        ensures
            out@ == self@.processed.relevant_text,
            out@ == self@.text,
    {
        proof {
            use_type_invariant(self);
        }
        self.processed_data.relevant_text.clone()
    }

    /// Sanitizes an HTML fragment with the default policy, as
    /// [`sanitize_html`](crate::sanitize::sanitize_html) does.
    pub fn sanitize_message(&self, html: &str) -> (out: String)
        requires
            cleanable(html@),
        ensures
            out@ == cleaned_html(html@),
    {
        ammonia::clean(html)
    }
}

/// The record of a text holds the text itself, unchanged.
pub proof fn lemma_relevant_text_verbatim(text: Seq<char>, payload: Option<Seq<char>>)
    ensures
        processed(text, payload).relevant_text == text,
{
}

/// Every record holds the same two key points.
pub proof fn lemma_two_key_points(text: Seq<char>, payload: Option<Seq<char>>)
    ensures
        processed(text, payload).key_points.len() == 2,
        processed(text, payload).key_points[0] == "Extracted from page content"@,
        processed(text, payload).key_points[1] == "Processed by WASM"@,
{
}

/// The summary of a record is the label followed by the excerpt of its text.
pub proof fn lemma_summary_of_record(text: Seq<char>, payload: Option<Seq<char>>)
    ensures
        processed(text, payload).summary == summary_label() + summary_excerpt(text),
{
}

} // verus!
