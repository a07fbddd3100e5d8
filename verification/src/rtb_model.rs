//! The tolerant bid-request model: the wire entities of an inbound bid
//! request, and the interpretation of a parsed JSON document as one,
//! including the dual-encoded native sub-document.
use vstd::prelude::*;
use vstd::string::*;

use crate::json::{
    arr_deep, fields_deep, obj_get, parse_json_text, spec_obj_get, spec_parse_json, JsonSpec,
    JsonValue,
};

verus! {

/// A top-level video impression slot: a marker whose presence alone
/// drives matching.
#[derive(Debug, PartialEq)]
pub struct Video {}

/// A native video sub-asset: a marker whose presence alone drives
/// matching.
#[derive(Debug, PartialEq)]
pub struct NativeVideo {}

/// A native image sub-asset; `img_type` 3 counts as a main image.
#[derive(Debug, PartialEq)]
pub struct NativeImage {
    pub img_type: i32,
}

/// One asset of a native request.
#[derive(Debug, PartialEq)]
pub struct NativeAsset {
    pub id: i32,
    pub img: Option<NativeImage>,
    pub video: Option<NativeVideo>,
}

/// The native sub-document: a version and an ordered asset list.
#[derive(Debug, PartialEq)]
pub struct NativeRequest {
    pub ver: String,
    pub assets: Vec<NativeAsset>,
}

/// A native impression slot wrapping one `NativeRequest`.
#[derive(Debug, PartialEq)]
pub struct Native {
    pub request: NativeRequest,
}

/// An opaque impression extension: accepted, never read by matching.
#[derive(Debug, PartialEq)]
pub struct ImpExt {}

/// One impression slot of a bid request.
#[derive(Debug, PartialEq)]
pub struct Imp {
    pub id: String,
    pub video: Option<Video>,
    pub native: Option<Native>,
    pub ext: Option<ImpExt>,
}

/// A parsed bid request.
#[derive(Debug, PartialEq)]
pub struct Request {
    pub id: String,
    pub imp: Vec<Imp>,
}

/// The mathematical value of a `NativeRequest`.
pub struct NativeRequestView {
    pub ver: Seq<char>,
    pub assets: Seq<NativeAsset>,
}

/// The mathematical value of an `Imp`.  The native slot appears directly
/// as the sub-document it wraps.
pub struct ImpView {
    pub id: Seq<char>,
    pub video: Option<Video>,
    pub native: Option<NativeRequestView>,
    pub ext: Option<ImpExt>,
}

/// The mathematical value of a `Request`.
pub struct RequestView {
    pub id: Seq<char>,
    pub imp: Seq<ImpView>,
}

impl View for NativeRequest {
    type V = NativeRequestView;

    open spec fn view(&self) -> NativeRequestView {
        NativeRequestView { ver: self.ver@, assets: self.assets@ }
    }
}

impl View for Native {
    type V = NativeRequestView;

    open spec fn view(&self) -> NativeRequestView {
        self.request@
    }
}

impl View for Imp {
    type V = ImpView;

    open spec fn view(&self) -> ImpView {
        ImpView {
            id: self.id@,
            video: self.video,
            native: match self.native {
                Some(n) => Some(n@),
                None => None,
            },
            ext: self.ext,
        }
    }
}

impl View for Request {
    type V = RequestView;

    open spec fn view(&self) -> RequestView {
        RequestView { id: self.id@, imp: self.imp@.map_values(|imp: Imp| imp@) }
    }
}

/// A request body that is not valid JSON or does not match the required
/// shape of the bid-request model.  The diagnostic is never empty.
#[derive(Debug)]
pub struct MalformedPayload {
    pub diagnostic: String,
}

impl MalformedPayload {
    /// Wraps a parse diagnostic, substituting a generic one where the
    /// message is empty, so that a diagnostic is always present.
    pub fn new(diagnostic: String) -> (r: MalformedPayload)
        ensures
            r.diagnostic@.len() > 0,
    {
        if diagnostic.as_str().unicode_len() == 0 {
            proof {
                reveal_strlit("malformed payload");
            }
            MalformedPayload { diagnostic: String::from_str("malformed payload") }
        } else {
            MalformedPayload { diagnostic }
        }
    }
}

// ------------------------------------------------------------------
// Interpretation of a JSON document as a bid request.  `None` is a shape
// fault: the payload is rejected as malformed.
// ------------------------------------------------------------------

/// An image sub-asset: an object with a required integer `type`.
pub open spec fn spec_interp_image(j: JsonSpec) -> Option<NativeImage> {
    match j {
        JsonSpec::Obj(fields) => match spec_obj_get(fields, "type"@) {
            Some(JsonSpec::Int(n)) => if i32::MIN <= n <= i32::MAX {
                Some(NativeImage { img_type: n as i32 })
            } else {
                None
            },
            _ => None,
        },
        _ => None,
    }
}

/// The optional `img` member of an asset: absent or null means no image;
/// anything else must be an image sub-asset.
pub open spec fn spec_interp_img_field(fields: Seq<(Seq<char>, JsonSpec)>) -> Option<
    Option<NativeImage>,
> {
    match spec_obj_get(fields, "img"@) {
        None => Some(None),
        Some(JsonSpec::Null) => Some(None),
        Some(j) => match spec_interp_image(j) {
            Some(img) => Some(Some(img)),
            None => None,
        },
    }
}

/// An optional marker member (an impression's `video` or `ext`, an
/// asset's `video`): absent or null means absent; any object means
/// present; anything else is a shape fault.
pub open spec fn spec_interp_marker_field(
    fields: Seq<(Seq<char>, JsonSpec)>,
    key: Seq<char>,
) -> Option<bool> {
    match spec_obj_get(fields, key) {
        None => Some(false),
        Some(JsonSpec::Null) => Some(false),
        Some(JsonSpec::Obj(_)) => Some(true),
        Some(_) => None,
    }
}

/// One native asset: an object with a required 32-bit integer `id` and
/// optional `img` and `video` sub-assets.
pub open spec fn spec_interp_asset(j: JsonSpec) -> Option<NativeAsset> {
    match j {
        JsonSpec::Obj(fields) => match spec_obj_get(fields, "id"@) {
            Some(JsonSpec::Int(n)) => if !(i32::MIN <= n <= i32::MAX) {
                None
            } else {
                match spec_interp_img_field(fields) {
                    Some(img) => match spec_interp_marker_field(fields, "video"@) {
                        Some(video) => Some(
                            NativeAsset {
                                id: n as i32,
                                img,
                                video: if video {
                                    Some(NativeVideo {})
                                } else {
                                    None
                                },
                            },
                        ),
                        None => None,
                    },
                    None => None,
                }
            },
            _ => None,
        },
        _ => None,
    }
}

/// Each element of a native request's asset list, in order.
pub open spec fn spec_interp_assets(elems: Seq<JsonSpec>) -> Option<Seq<NativeAsset>>
    decreases elems.len(),
{
    if elems.len() == 0 {
        Some(Seq::empty())
    } else {
        match spec_interp_asset(elems[0]) {
            Some(a) => match spec_interp_assets(elems.drop_first()) {
                Some(rest) => Some(seq![a] + rest),
                None => None,
            },
            None => None,
        }
    }
}

/// The native sub-document itself: an object with a required string
/// `ver` and a required asset array `assets`.
pub open spec fn spec_interp_native_request(j: JsonSpec) -> Option<NativeRequestView> {
    match j {
        JsonSpec::Obj(fields) => match spec_obj_get(fields, "ver"@) {
            Some(JsonSpec::Str(ver)) => match spec_obj_get(fields, "assets"@) {
                Some(JsonSpec::Arr(elems)) => match spec_interp_assets(elems) {
                    Some(assets) => Some(NativeRequestView { ver, assets }),
                    None => None,
                },
                _ => None,
            },
            _ => None,
        },
        _ => None,
    }
}

/// The dual-encoded native sub-document: an embedded object is read
/// directly; a JSON string is parsed and its content read the same way.
/// The value's own grammar decides which path applies; both paths end in
/// `spec_interp_native_request`, so the encoding cannot leak further.
pub open spec fn spec_decode_native(j: JsonSpec) -> Option<NativeRequestView> {
    match j {
        JsonSpec::Obj(_) => spec_interp_native_request(j),
        JsonSpec::Str(s) => match spec_parse_json(s) {
            Some(inner) => spec_interp_native_request(inner),
            None => None,
        },
        _ => None,
    }
}

/// A native impression slot: an object with a required `request` member
/// holding the dual-encoded sub-document.
pub open spec fn spec_interp_native_slot(j: JsonSpec) -> Option<NativeRequestView> {
    match j {
        JsonSpec::Obj(fields) => match spec_obj_get(fields, "request"@) {
            Some(req) => spec_decode_native(req),
            None => None,
        },
        _ => None,
    }
}

/// The optional `native` member of an impression.
pub open spec fn spec_interp_native_field(fields: Seq<(Seq<char>, JsonSpec)>) -> Option<
    Option<NativeRequestView>,
> {
    match spec_obj_get(fields, "native"@) {
        None => Some(None),
        Some(JsonSpec::Null) => Some(None),
        Some(j) => match spec_interp_native_slot(j) {
            Some(nr) => Some(Some(nr)),
            None => None,
        },
    }
}

/// One impression: an object with a required string `id` and optional
/// `video`, `native` and `ext` members.
pub open spec fn spec_interp_imp(j: JsonSpec) -> Option<ImpView> {
    match j {
        JsonSpec::Obj(fields) => match spec_obj_get(fields, "id"@) {
            Some(JsonSpec::Str(id)) => match spec_interp_marker_field(fields, "video"@) {
                Some(video) => match spec_interp_native_field(fields) {
                    Some(native) => match spec_interp_marker_field(fields, "ext"@) {
                        Some(ext) => Some(
                            ImpView {
                                id,
                                video: if video {
                                    Some(Video {})
                                } else {
                                    None
                                },
                                native,
                                ext: if ext {
                                    Some(ImpExt {})
                                } else {
                                    None
                                },
                            },
                        ),
                        None => None,
                    },
                    None => None,
                },
                None => None,
            },
            _ => None,
        },
        _ => None,
    }
}

/// Each element of the impression array, in order.
pub open spec fn spec_interp_imps(elems: Seq<JsonSpec>) -> Option<Seq<ImpView>>
    decreases elems.len(),
{
    if elems.len() == 0 {
        Some(Seq::empty())
    } else {
        match spec_interp_imp(elems[0]) {
            Some(imp) => match spec_interp_imps(elems.drop_first()) {
                Some(rest) => Some(seq![imp] + rest),
                None => None,
            },
            None => None,
        }
    }
}

/// A whole bid request: an object with a required string `id`; `imp`
/// omitted or null yields an empty impression list, never a fault.
pub open spec fn spec_interp_request(j: JsonSpec) -> Option<RequestView> {
    match j {
        JsonSpec::Obj(fields) => match spec_obj_get(fields, "id"@) {
            Some(JsonSpec::Str(id)) => match spec_obj_get(fields, "imp"@) {
                None => Some(RequestView { id, imp: Seq::empty() }),
                Some(JsonSpec::Null) => Some(RequestView { id, imp: Seq::empty() }),
                Some(JsonSpec::Arr(elems)) => match spec_interp_imps(elems) {
                    Some(imps) => Some(RequestView { id, imp: imps }),
                    None => None,
                },
                Some(_) => None,
            },
            _ => None,
        },
        _ => None,
    }
}

/// What a request body means: well-formed JSON interpreted as a bid
/// request, or nothing.
pub open spec fn spec_parse_request(s: Seq<char>) -> Option<RequestView> {
    match spec_parse_json(s) {
        Some(j) => spec_interp_request(j),
        None => None,
    }
}

// ------------------------------------------------------------------
// Executable interpretation, each step proved against its spec twin.
// ------------------------------------------------------------------

fn interp_image(j: &JsonValue) -> (r: Result<NativeImage, String>)
    ensures
        match r {
            Ok(img) => spec_interp_image(j.deep()) == Some(img),
            Err(_) => spec_interp_image(j.deep()) is None,
        },
{
    match j {
        JsonValue::Obj(fields) => {
            let key = String::from_str("type");
            match obj_get(fields, &key) {
                Some(v) => match v {
                    JsonValue::Int(n) => {
                        let n = *n;
                        if i32::MIN as i64 <= n && n <= i32::MAX as i64 {
                            Ok(NativeImage { img_type: n as i32 })
                        } else {
                            Err(String::from_str("image type does not fit 32 bits"))
                        }
                    },
                    _ => {
                        proof {
                            crate::json::lemma_deep_variant(*v);
                        }
                        Err(String::from_str("image type is not an integer"))
                    },
                },
                None => Err(String::from_str("image type is missing")),
            }
        },
        _ => {
            proof {
                crate::json::lemma_deep_variant(*j);
            }
            Err(String::from_str("image asset is not an object"))
        },
    }
}

fn interp_img_field(fields: &Vec<(String, JsonValue)>) -> (r: Result<Option<NativeImage>, String>)
    ensures
        match r {
            Ok(img) => spec_interp_img_field(fields_deep(*fields)) == Some(img),
            Err(_) => spec_interp_img_field(fields_deep(*fields)) is None,
        },
{
    let key = String::from_str("img");
    match obj_get(fields, &key) {
        None => Ok(None),
        Some(v) => match v {
            JsonValue::Null => Ok(None),
            _ => {
                proof {
                    crate::json::lemma_deep_variant(*v);
                }
                match interp_image(v) {
                    Ok(img) => Ok(Some(img)),
                    Err(e) => Err(e),
                }
            },
        },
    }
}

fn interp_marker_field(fields: &Vec<(String, JsonValue)>, key: &String) -> (r: Result<bool, String>)
    ensures
        match r {
            Ok(b) => spec_interp_marker_field(fields_deep(*fields), key@) == Some(b),
            Err(_) => spec_interp_marker_field(fields_deep(*fields), key@) is None,
        },
{
    match obj_get(fields, key) {
        None => Ok(false),
        Some(v) => match v {
            JsonValue::Null => Ok(false),
            JsonValue::Obj(_) => Ok(true),
            _ => {
                proof {
                    crate::json::lemma_deep_variant(*v);
                }
                Err(String::from_str("expected an object or null"))
            },
        },
    }
}

fn interp_asset(j: &JsonValue) -> (r: Result<NativeAsset, String>)
    ensures
        match r {
            Ok(a) => spec_interp_asset(j.deep()) == Some(a),
            Err(_) => spec_interp_asset(j.deep()) is None,
        },
{
    match j {
        JsonValue::Obj(fields) => {
            let key_id = String::from_str("id");
            match obj_get(fields, &key_id) {
                Some(v) => match v {
                    JsonValue::Int(n) => {
                        let n = *n;
                        if !(i32::MIN as i64 <= n && n <= i32::MAX as i64) {
                            Err(String::from_str("asset id does not fit 32 bits"))
                        } else {
                            match interp_img_field(fields) {
                                Ok(img) => {
                                    let key_video = String::from_str("video");
                                    match interp_marker_field(fields, &key_video) {
                                        Ok(video) => Ok(
                                            NativeAsset {
                                                id: n as i32,
                                                img,
                                                video: if video {
                                                    Some(NativeVideo {})
                                                } else {
                                                    None
                                                },
                                            },
                                        ),
                                        Err(e) => Err(e),
                                    }
                                },
                                Err(e) => Err(e),
                            }
                        }
                    },
                    _ => {
                        proof {
                            crate::json::lemma_deep_variant(*v);
                        }
                        Err(String::from_str("asset id is not an integer"))
                    },
                },
                None => Err(String::from_str("asset id is missing")),
            }
        },
        _ => {
            proof {
                crate::json::lemma_deep_variant(*j);
            }
            Err(String::from_str("native asset is not an object"))
        },
    }
}

fn interp_assets(elems: &Vec<JsonValue>) -> (r: Result<Vec<NativeAsset>, String>)
    ensures
        match r {
            Ok(assets) => spec_interp_assets(arr_deep(*elems)) == Some(assets@),
            Err(_) => spec_interp_assets(arr_deep(*elems)) is None,
        },
{
    let ghost s = arr_deep(*elems);
    let n = elems.len();
    let mut out: Vec<NativeAsset> = Vec::new();
    let mut i: usize = 0;
    proof {
        assert(s.skip(0) =~= s);
    }
    while i < n
        invariant
            i <= n,
            n == elems.len(),
            s == arr_deep(*elems),
            spec_interp_assets(s) == match spec_interp_assets(s.skip(i as int)) {
                Some(rest) => Some(out@ + rest),
                None => None::<Seq<NativeAsset>>,
            },
        decreases n - i,
    {
        proof {
            assert(s.skip(i as int)[0] == s[i as int]);
            assert(s[i as int] == elems[i as int].deep());
            assert(s.skip(i as int).drop_first() =~= s.skip(i as int + 1));
        }
        match interp_asset(&elems[i]) {
            Ok(a) => {
                let ghost prev = out@;
                out.push(a);
                i += 1;
                proof {
                    assert(out@ =~= prev + seq![a]);
                    match spec_interp_assets(s.skip(i as int)) {
                        Some(rest) => {
                            assert((prev + seq![a]) + rest =~= prev + (seq![a] + rest));
                        },
                        None => {},
                    }
                }
            },
            Err(e) => {
                return Err(e);
            },
        }
    }
    proof {
        assert(s.skip(n as int) =~= Seq::<JsonSpec>::empty());
        assert(out@ + Seq::<NativeAsset>::empty() =~= out@);
    }
    Ok(out)
}

fn interp_native_request(j: &JsonValue) -> (r: Result<NativeRequest, String>)
    ensures
        match r {
            Ok(nr) => spec_interp_native_request(j.deep()) == Some(nr@),
            Err(_) => spec_interp_native_request(j.deep()) is None,
        },
{
    match j {
        JsonValue::Obj(fields) => {
            let key_ver = String::from_str("ver");
            match obj_get(fields, &key_ver) {
                Some(vver) => match vver {
                    JsonValue::Str(ver) => {
                        let key_assets = String::from_str("assets");
                        match obj_get(fields, &key_assets) {
                            Some(vassets) => match vassets {
                                JsonValue::Arr(elems) => match interp_assets(elems) {
                                    Ok(assets) => Ok(NativeRequest { ver: ver.clone(), assets }),
                                    Err(e) => Err(e),
                                },
                                _ => {
                                    proof {
                                        crate::json::lemma_deep_variant(*vassets);
                                    }
                                    Err(String::from_str("native assets is not an array"))
                                },
                            },
                            None => Err(String::from_str("native assets is missing")),
                        }
                    },
                    _ => {
                        proof {
                            crate::json::lemma_deep_variant(*vver);
                        }
                        Err(String::from_str("native ver is not a string"))
                    },
                },
                None => Err(String::from_str("native ver is missing")),
            }
        },
        _ => {
            proof {
                crate::json::lemma_deep_variant(*j);
            }
            Err(String::from_str("native request is not an object"))
        },
    }
}

/// The two-attempt decode of the dual-encoded sub-document: an embedded
/// object is read in place; a JSON string is handed back to the parser
/// and its content read the same way.
fn decode_native(j: &JsonValue) -> (r: Result<NativeRequest, String>)
    ensures
        match r {
            Ok(nr) => spec_decode_native(j.deep()) == Some(nr@),
            Err(_) => spec_decode_native(j.deep()) is None,
        },
{
    match j {
        JsonValue::Obj(_) => interp_native_request(j),
        JsonValue::Str(s) => match parse_json_text(s.as_str()) {
            Ok(inner) => interp_native_request(&inner),
            Err(e) => Err(e),
        },
        _ => {
            proof {
                crate::json::lemma_deep_variant(*j);
            }
            Err(String::from_str("native request is neither an object nor a string"))
        },
    }
}

fn interp_native_slot(j: &JsonValue) -> (r: Result<NativeRequest, String>)
    ensures
        match r {
            Ok(nr) => spec_interp_native_slot(j.deep()) == Some(nr@),
            Err(_) => spec_interp_native_slot(j.deep()) is None,
        },
{
    match j {
        JsonValue::Obj(fields) => {
            let key = String::from_str("request");
            match obj_get(fields, &key) {
                Some(v) => decode_native(v),
                None => Err(String::from_str("native request is missing")),
            }
        },
        _ => {
            proof {
                crate::json::lemma_deep_variant(*j);
            }
            Err(String::from_str("native slot is not an object"))
        },
    }
}

fn interp_native_field(fields: &Vec<(String, JsonValue)>) -> (r: Result<Option<Native>, String>)
    ensures
        match r {
            Ok(n) => spec_interp_native_field(fields_deep(*fields)) == Some(
                match n {
                    Some(native) => Some(native@),
                    None => None::<NativeRequestView>,
                },
            ),
            Err(_) => spec_interp_native_field(fields_deep(*fields)) is None,
        },
{
    let key = String::from_str("native");
    match obj_get(fields, &key) {
        None => Ok(None),
        Some(v) => match v {
            JsonValue::Null => Ok(None),
            _ => {
                proof {
                    crate::json::lemma_deep_variant(*v);
                }
                match interp_native_slot(v) {
                    Ok(nr) => Ok(Some(Native { request: nr })),
                    Err(e) => Err(e),
                }
            },
        },
    }
}

fn interp_imp(j: &JsonValue) -> (r: Result<Imp, String>)
    ensures
        match r {
            Ok(imp) => spec_interp_imp(j.deep()) == Some(imp@),
            Err(_) => spec_interp_imp(j.deep()) is None,
        },
{
    match j {
        JsonValue::Obj(fields) => {
            let key_id = String::from_str("id");
            match obj_get(fields, &key_id) {
                Some(v) => match v {
                    JsonValue::Str(id) => {
                        let key_video = String::from_str("video");
                        match interp_marker_field(fields, &key_video) {
                            Ok(video) => match interp_native_field(fields) {
                                Ok(native) => {
                                    let key_ext = String::from_str("ext");
                                    match interp_marker_field(fields, &key_ext) {
                                        Ok(ext) => Ok(
                                            Imp {
                                                id: id.clone(),
                                                video: if video {
                                                    Some(Video {})
                                                } else {
                                                    None
                                                },
                                                native,
                                                ext: if ext {
                                                    Some(ImpExt {})
                                                } else {
                                                    None
                                                },
                                            },
                                        ),
                                        Err(e) => Err(e),
                                    }
                                },
                                Err(e) => Err(e),
                            },
                            Err(e) => Err(e),
                        }
                    },
                    _ => {
                        proof {
                            crate::json::lemma_deep_variant(*v);
                        }
                        Err(String::from_str("impression id is not a string"))
                    },
                },
                None => Err(String::from_str("impression id is missing")),
            }
        },
        _ => {
            proof {
                crate::json::lemma_deep_variant(*j);
            }
            Err(String::from_str("impression is not an object"))
        },
    }
}

fn interp_imps(elems: &Vec<JsonValue>) -> (r: Result<Vec<Imp>, String>)
    ensures
        match r {
            Ok(imps) => spec_interp_imps(arr_deep(*elems)) == Some(
                imps@.map_values(|imp: Imp| imp@),
            ),
            Err(_) => spec_interp_imps(arr_deep(*elems)) is None,
        },
{
    let ghost s = arr_deep(*elems);
    let n = elems.len();
    let mut out: Vec<Imp> = Vec::new();
    let mut i: usize = 0;
    proof {
        assert(s.skip(0) =~= s);
        assert(out@.map_values(|imp: Imp| imp@) =~= Seq::<ImpView>::empty());
    }
    while i < n
        invariant
            i <= n,
            n == elems.len(),
            s == arr_deep(*elems),
            spec_interp_imps(s) == match spec_interp_imps(s.skip(i as int)) {
                Some(rest) => Some(out@.map_values(|imp: Imp| imp@) + rest),
                None => None::<Seq<ImpView>>,
            },
        decreases n - i,
    {
        proof {
            assert(s.skip(i as int)[0] == s[i as int]);
            assert(s[i as int] == elems[i as int].deep());
            assert(s.skip(i as int).drop_first() =~= s.skip(i as int + 1));
        }
        match interp_imp(&elems[i]) {
            Ok(imp) => {
                let ghost prev = out@.map_values(|imp: Imp| imp@);
                let ghost v = imp@;
                out.push(imp);
                i += 1;
                proof {
                    assert(out@.map_values(|imp: Imp| imp@) =~= prev + seq![v]);
                    match spec_interp_imps(s.skip(i as int)) {
                        Some(rest) => {
                            assert((prev + seq![v]) + rest =~= prev + (seq![v] + rest));
                        },
                        None => {},
                    }
                }
            },
            Err(e) => {
                return Err(e);
            },
        }
    }
    proof {
        assert(s.skip(n as int) =~= Seq::<JsonSpec>::empty());
        assert(out@.map_values(|imp: Imp| imp@) + Seq::<ImpView>::empty() =~= out@.map_values(
            |imp: Imp| imp@,
        ));
    }
    Ok(out)
}

fn interp_request(j: &JsonValue) -> (r: Result<Request, String>)
    ensures
        match r {
            Ok(req) => spec_interp_request(j.deep()) == Some(req@),
            Err(_) => spec_interp_request(j.deep()) is None,
        },
{
    match j {
        JsonValue::Obj(fields) => {
            let key_id = String::from_str("id");
            match obj_get(fields, &key_id) {
                Some(v) => match v {
                    JsonValue::Str(id) => {
                        let key_imp = String::from_str("imp");
                        match obj_get(fields, &key_imp) {
                            None => {
                                let req = Request { id: id.clone(), imp: Vec::new() };
                                proof {
                                    assert(req@.imp =~= Seq::<ImpView>::empty());
                                }
                                Ok(req)
                            },
                            Some(vimp) => match vimp {
                                JsonValue::Null => {
                                    let req = Request { id: id.clone(), imp: Vec::new() };
                                    proof {
                                        assert(req@.imp =~= Seq::<ImpView>::empty());
                                    }
                                    Ok(req)
                                },
                                JsonValue::Arr(elems) => match interp_imps(elems) {
                                    Ok(imps) => Ok(Request { id: id.clone(), imp: imps }),
                                    Err(e) => Err(e),
                                },
                                _ => {
                                    proof {
                                        crate::json::lemma_deep_variant(*vimp);
                                    }
                                    Err(String::from_str("imp is neither an array nor null"))
                                },
                            },
                        }
                    },
                    _ => {
                        proof {
                            crate::json::lemma_deep_variant(*v);
                        }
                        Err(String::from_str("request id is not a string"))
                    },
                },
                None => Err(String::from_str("request id is missing")),
            }
        },
        _ => {
            proof {
                crate::json::lemma_deep_variant(*j);
            }
            Err(String::from_str("bid request is not an object"))
        },
    }
}

/// Parses raw request text into a bid request: well-formed JSON of the
/// required shape yields exactly the request the text denotes; anything
/// else yields a malformed-payload fault with a non-empty diagnostic.
pub fn parse_request(body: &str) -> (r: Result<Request, MalformedPayload>)
    ensures
        match r {
            Ok(req) => spec_parse_request(body@) == Some(req@),
            Err(e) => spec_parse_request(body@) is None && e.diagnostic@.len() > 0,
        },
{
    match parse_json_text(body) {
        Ok(v) => match interp_request(&v) {
            Ok(req) => Ok(req),
            Err(m) => Err(MalformedPayload::new(m)),
        },
        Err(m) => Err(MalformedPayload::new(m)),
    }
}

/// A payload whose `imp` member is omitted or null parses to a request
/// with an empty impression list — it is never rejected for that.
pub proof fn lemma_omitted_imp_parses_empty(
    s: Seq<char>,
    fields: Seq<(Seq<char>, JsonSpec)>,
    id: Seq<char>,
)
    requires
        spec_parse_json(s) == Some(JsonSpec::Obj(fields)),
        spec_obj_get(fields, "id"@) == Some(JsonSpec::Str(id)),
        spec_obj_get(fields, "imp"@) is None || spec_obj_get(fields, "imp"@) == Some(
            JsonSpec::Null,
        ),
    ensures
        spec_parse_request(s) == Some(RequestView { id, imp: Seq::<ImpView>::empty() }),
{
}

/// Both encodings of the native sub-document agree: a JSON string whose
/// text parses to an object decodes to exactly what that object, passed
/// embedded, decodes to.
pub proof fn lemma_native_encodings_agree(j: JsonSpec, s: Seq<char>)
    requires
        spec_parse_json(s) == Some(j),
        j is Obj,
    ensures
        spec_decode_native(JsonSpec::Str(s)) == spec_decode_native(j),
{
}

} // verus!
