//! Policy-driven resource rendering: the matching policy applied as a
//! method of the policy itself.
use vstd::prelude::*;

use crate::app_conf::{ImpCondition, ResResource};
use crate::content_builder::{find_imp, spec_find_imp};
use crate::rtb_model::{Imp, Request};
use crate::template::{replace_all, spec_macro_token, spec_replace_all};

verus! {

/// The one datum a successful match carries forward: the matched
/// impression's identifier.
#[derive(Debug)]
pub struct ImpInfo {
    pub imp_id: String,
}

impl ImpInfo {
    /// The match result naming this impression.
    pub fn from(imp: &Imp) -> (r: ImpInfo)
        ensures
            r.imp_id@ == imp.id@,
    {
        ImpInfo { imp_id: imp.id.clone() }
    }
}

impl ImpCondition {
    /// Applies this policy to a parsed request: the first qualifying
    /// impression, in list order, or none.
    pub fn apply(&self, request: &Request) -> (r: Option<ImpInfo>)
        ensures
            match spec_find_imp(*self, request@.imp) {
                Some(id) => r matches Some(info) && info.imp_id@ == id,
                None => r is None,
            },
    {
        match find_imp(self, request) {
            Some(info) => Some(ImpInfo { imp_id: info.imp_id }),
            None => None,
        }
    }
}

/// Replaces every occurrence of the placeholder token in `content` with
/// the matched impression's identifier.
pub fn replace_macro(content: &str, imp_info: &ImpInfo) -> (r: String)
    ensures
        r@ == spec_replace_all(content@, spec_macro_token(), imp_info.imp_id@),
{
    proof {
        reveal_strlit("$[XX_IMP_ID]");
    }
    replace_all(content, "$[XX_IMP_ID]", imp_info.imp_id.as_str())
}

/// Matches the resource's policy against the request and, on success,
/// renders the resource's content for the matched impression.
pub fn select_resource_with_replacing_macro(resource: &ResResource, request: &Request) -> (r:
    Option<String>)
    ensures
        match spec_find_imp(resource.imp_condition, request@.imp) {
            Some(id) => r matches Some(c) && c@ == spec_replace_all(
                resource.content@,
                spec_macro_token(),
                id,
            ),
            None => r is None,
        },
{
    match resource.imp_condition.apply(request) {
        Some(imp_info) => Some(replace_macro(resource.content.as_str(), &imp_info)),
        None => None,
    }
}

} // verus!
