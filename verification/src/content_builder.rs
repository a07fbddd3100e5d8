//! The impression matcher and the rendering of a resource's content for
//! a matched impression.
use vstd::prelude::*;

use crate::app_conf::{ImpCondition, ResResource};
use crate::rtb_model::{Imp, ImpView, NativeAsset, Request};
use crate::template::{replace_all, spec_macro_token, spec_replace_all};

verus! {

/// The one datum a successful match carries forward: the matched
/// impression's identifier.
#[derive(Debug)]
pub struct ImpInfo {
    pub imp_id: String,
}

impl ImpInfo {
    /// The match result naming this impression.
    pub fn from(imp: &Imp) -> (r: ImpInfo)
        ensures
            r.imp_id@ == imp.id@,
    {
        ImpInfo { imp_id: imp.id.clone() }
    }
}

/// A top-level video slot is present, whatever it holds.
pub open spec fn spec_is_video(imp: ImpView) -> bool {
    imp.video is Some
}

/// Some asset of the list carries a video sub-asset.
pub open spec fn spec_any_asset_video(assets: Seq<NativeAsset>) -> bool {
    exists|k: int| 0 <= k < assets.len() && assets[k].video is Some
}

/// A native slot is present and some asset carries a video sub-asset.
pub open spec fn spec_is_native_video(imp: ImpView) -> bool {
    match imp.native {
        Some(nr) => spec_any_asset_video(nr.assets),
        None => false,
    }
}

/// The asset carries a main image: an image sub-asset of kind 3.
pub open spec fn spec_asset_is_main_image(a: NativeAsset) -> bool {
    match a.img {
        Some(img) => img.img_type == 3,
        None => false,
    }
}

/// Some asset of the list carries a main image.
pub open spec fn spec_any_main_image(assets: Seq<NativeAsset>) -> bool {
    exists|k: int| 0 <= k < assets.len() && spec_asset_is_main_image(assets[k])
}

/// A native slot is present and some asset carries a main image.
pub open spec fn spec_is_native_image(imp: ImpView) -> bool {
    match imp.native {
        Some(nr) => spec_any_main_image(nr.assets),
        None => false,
    }
}

/// The per-policy predicate that decides whether an impression
/// qualifies.
pub open spec fn spec_cond_holds(cond: ImpCondition, imp: ImpView) -> bool {
    match cond {
        ImpCondition::NativeVideo => spec_is_native_video(imp),
        ImpCondition::NativeImage => spec_is_native_image(imp),
        ImpCondition::Video => spec_is_video(imp),
    }
}

/// The identifier of the first impression satisfying the policy, in
/// original list order; none if no impression qualifies.
pub open spec fn spec_find_imp(cond: ImpCondition, imps: Seq<ImpView>) -> Option<Seq<char>>
    decreases imps.len(),
{
    if imps.len() == 0 {
        None
    } else if spec_cond_holds(cond, imps[0]) {
        Some(imps[0].id)
    } else {
        spec_find_imp(cond, imps.drop_first())
    }
}

/// The matcher honors list order: if the impression at position `i`
/// qualifies and none before it does, the match is exactly that
/// impression's identifier.
pub proof fn lemma_find_imp_first(cond: ImpCondition, imps: Seq<ImpView>, i: int)
    requires
        0 <= i < imps.len(),
        spec_cond_holds(cond, imps[i]),
        forall|j: int| 0 <= j < i ==> !spec_cond_holds(cond, imps[j]),
    ensures
        spec_find_imp(cond, imps) == Some(imps[i].id),
    decreases i,
{
    if i == 0 {
    } else {
        assert(!spec_cond_holds(cond, imps[0]));
        assert forall|j: int| 0 <= j < i - 1 implies !spec_cond_holds(
            cond,
            imps.drop_first()[j],
        ) by {
            assert(imps.drop_first()[j] == imps[j + 1]);
        }
        assert(imps.drop_first()[i - 1] == imps[i]);
        lemma_find_imp_first(cond, imps.drop_first(), i - 1);
    }
}

/// A request in which no impression qualifies yields no match.
pub proof fn lemma_find_imp_none(cond: ImpCondition, imps: Seq<ImpView>)
    requires
        forall|j: int| 0 <= j < imps.len() ==> !spec_cond_holds(cond, imps[j]),
    ensures
        spec_find_imp(cond, imps) is None,
    decreases imps.len(),
{
    if imps.len() == 0 {
    } else {
        assert forall|j: int| 0 <= j < imps.len() - 1 implies !spec_cond_holds(
            cond,
            imps.drop_first()[j],
        ) by {
            assert(imps.drop_first()[j] == imps[j + 1]);
        }
        lemma_find_imp_none(cond, imps.drop_first());
    }
}

/// No asset of the impression's native slot, if it has one, carries a
/// main image: every image sub-asset has a kind other than 3.
pub open spec fn spec_has_no_main_image(imp: ImpView) -> bool {
    match imp.native {
        Some(nr) => forall|k: int|
            0 <= k < nr.assets.len() ==> !spec_asset_is_main_image(nr.assets[k]),
        None => true,
    }
}

/// An impression whose native asset list carries only image kinds other
/// than 3 — no main image — never qualifies under `NativeImage`.
pub proof fn lemma_no_main_image_never_matches(imp: ImpView)
    requires
        spec_has_no_main_image(imp),
    ensures
        !spec_cond_holds(ImpCondition::NativeImage, imp),
{
    match imp.native {
        Some(nr) => {
            if spec_any_main_image(nr.assets) {
                let k = choose|k: int|
                    0 <= k < nr.assets.len() && spec_asset_is_main_image(nr.assets[k]);
                assert(!spec_asset_is_main_image(nr.assets[k]));
            }
        },
        None => {},
    }
}

/// A request none of whose impressions carries a main image yields no
/// match at all under `NativeImage`.
pub proof fn lemma_no_main_image_request_never_matches(imps: Seq<ImpView>)
    requires
        forall|i: int| 0 <= i < imps.len() ==> #[trigger] spec_has_no_main_image(imps[i]),
    ensures
        spec_find_imp(ImpCondition::NativeImage, imps) is None,
{
    assert forall|i: int| 0 <= i < imps.len() implies !spec_cond_holds(
        ImpCondition::NativeImage,
        imps[i],
    ) by {
        lemma_no_main_image_never_matches(imps[i]);
    }
    lemma_find_imp_none(ImpCondition::NativeImage, imps);
}

fn any_asset_video(assets: &Vec<NativeAsset>) -> (r: bool)
    ensures
        r == spec_any_asset_video(assets@),
{
    let n = assets.len();
    let mut i: usize = 0;
    while i < n
        invariant
            i <= n,
            n == assets.len(),
            forall|k: int| 0 <= k < i ==> !(assets@[k].video is Some),
        decreases n - i,
    {
        if assets[i].video.is_some() {
            proof {
                assert(assets@[i as int].video is Some);
            }
            return true;
        }
        i += 1;
    }
    false
}

fn any_asset_main_image(assets: &Vec<NativeAsset>) -> (r: bool)
    ensures
        r == spec_any_main_image(assets@),
{
    let n = assets.len();
    let mut i: usize = 0;
    while i < n
        invariant
            i <= n,
            n == assets.len(),
            forall|k: int| 0 <= k < i ==> !spec_asset_is_main_image(assets@[k]),
        decreases n - i,
    {
        let has_main = match &assets[i].img {
            Some(img) => img.img_type == 3,
            None => false,
        };
        if has_main {
            proof {
                assert(spec_asset_is_main_image(assets@[i as int]));
            }
            return true;
        }
        i += 1;
    }
    false
}

fn is_video(imp: &Imp) -> (r: bool)
    ensures
        r == spec_is_video(imp@),
{
    imp.video.is_some()
}

fn is_native_video(imp: &Imp) -> (r: bool)
    ensures
        r == spec_is_native_video(imp@),
{
    match &imp.native {
        Some(native) => any_asset_video(&native.request.assets),
        None => false,
    }
}

fn is_native_image(imp: &Imp) -> (r: bool)
    ensures
        r == spec_is_native_image(imp@),
{
    match &imp.native {
        Some(native) => any_asset_main_image(&native.request.assets),
        None => false,
    }
}

fn cond_holds(imp_condition: &ImpCondition, imp: &Imp) -> (r: bool)
    ensures
        r == spec_cond_holds(*imp_condition, imp@),
{
    match imp_condition {
        ImpCondition::NativeVideo => is_native_video(imp),
        ImpCondition::NativeImage => is_native_image(imp),
        ImpCondition::Video => is_video(imp),
    }
}

/// Scans the request's impressions in order and returns the first one
/// that satisfies the policy.
pub(crate) fn find_imp(imp_condition: &ImpCondition, request: &Request) -> (r: Option<ImpInfo>)
    ensures
        match spec_find_imp(*imp_condition, request@.imp) {
            Some(id) => r matches Some(info) && info.imp_id@ == id,
            None => r is None,
        },
{
    let ghost imps = request@.imp;
    let n = request.imp.len();
    let mut i: usize = 0;
    proof {
        assert(imps.skip(0) =~= imps);
    }
    while i < n
        invariant
            i <= n,
            n == request.imp.len(),
            imps == request@.imp,
            spec_find_imp(*imp_condition, imps) == spec_find_imp(
                *imp_condition,
                imps.skip(i as int),
            ),
        decreases n - i,
    {
        proof {
            assert(imps.skip(i as int)[0] == imps[i as int]);
            assert(imps[i as int] == request.imp[i as int]@);
            assert(imps.skip(i as int).drop_first() =~= imps.skip(i as int + 1));
        }
        let imp = &request.imp[i];
        if cond_holds(imp_condition, imp) {
            return Some(ImpInfo::from(imp));
        }
        i += 1;
    }
    proof {
        assert(imps.skip(n as int).len() == 0);
    }
    None
}

/// Replaces every occurrence of the placeholder token in `content` with
/// the matched impression's identifier.
pub fn replace_macro(content: &str, imp_info: &ImpInfo) -> (r: String)
    ensures
        r@ == spec_replace_all(content@, spec_macro_token(), imp_info.imp_id@),
{
    proof {
        reveal_strlit("$[XX_IMP_ID]");
    }
    replace_all(content, "$[XX_IMP_ID]", imp_info.imp_id.as_str())
}

/// Matches the resource's policy against the request and, on success,
/// renders the resource's content for the matched impression.
pub fn build_content_with_replacing_macro(resource: &ResResource, request: &Request) -> (r: Option<
    String,
>)
    ensures
        match spec_find_imp(resource.imp_condition, request@.imp) {
            Some(id) => r matches Some(c) && c@ == spec_replace_all(
                resource.content@,
                spec_macro_token(),
                id,
            ),
            None => r is None,
        },
{
    match find_imp(&resource.imp_condition, request) {
        Some(imp_info) => Some(replace_macro(resource.content.as_str(), &imp_info)),
        None => None,
    }
}

} // verus!
