//! Selection orchestration: the single entry point the transport layer
//! calls once it has resolved a resource for a request.
use vstd::prelude::*;

use crate::app_conf::ResResource;
use crate::content_builder::{build_content_with_replacing_macro, spec_find_imp};
use crate::rtb_model::{parse_request, spec_parse_request, MalformedPayload};
use crate::template::{spec_macro_token, spec_replace_all};

verus! {

/// What one request evaluates to.
#[derive(Debug)]
pub enum SelectionOutcome {
    /// No impression-aware rendering was asked for: the resource's
    /// static content is the answer.
    StaticContent(String),
    /// The body parsed, an impression matched, and the template was
    /// rendered for it.
    RenderedContent(String),
    /// The body parsed but no impression satisfied the policy.
    NoMatch,
    /// The body failed to parse; the diagnostic is for the caller to
    /// log.
    Malformed(MalformedPayload),
}

/// Evaluates one request against a resolved resource, exactly once and
/// deterministically: no body means the static content; a body is
/// parsed, matched under the resource's policy, and rendered.
pub fn select(resource: &ResResource, body: Option<&str>) -> (r: SelectionOutcome)
    ensures
        match body {
            None => r == SelectionOutcome::StaticContent(resource.content),
            Some(b) => match spec_parse_request(b@) {
                None => r matches SelectionOutcome::Malformed(m) && m.diagnostic@.len() > 0,
                Some(req) => match spec_find_imp(resource.imp_condition, req.imp) {
                    None => r == SelectionOutcome::NoMatch,
                    Some(id) => r matches SelectionOutcome::RenderedContent(c) && c@
                        == spec_replace_all(resource.content@, spec_macro_token(), id),
                },
            },
        },
{
    match body {
        None => SelectionOutcome::StaticContent(resource.content.clone()),
        Some(b) => match parse_request(b) {
            Err(e) => SelectionOutcome::Malformed(e),
            Ok(req) => match build_content_with_replacing_macro(resource, &req) {
                Some(content) => SelectionOutcome::RenderedContent(content),
                None => SelectionOutcome::NoMatch,
            },
        },
    }
}

} // verus!
