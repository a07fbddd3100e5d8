//! Resource configuration as the running service sees it: a matching
//! policy and static template content per request path, resolved once at
//! startup and read-only afterwards.
use vstd::prelude::*;

verus! {

/// The closed set of recognized matching policies.  Configuration
/// carries them as the integers 1 (native video), 2 (native image) and
/// 3 (video); the loader rejects anything else before it reaches the
/// matcher.
#[derive(Debug, Clone, PartialEq)]
pub enum ImpCondition {
    NativeVideo,
    NativeImage,
    Video,
}

/// One resolved resource: a request path, the policy to match
/// impressions with, and the template content to render.
#[derive(Debug, Clone)]
pub struct ResResource {
    pub uri: String,
    pub imp_condition: ImpCondition,
    pub content: String,
}

/// The read-only resource table shared by all in-flight requests.
#[derive(Debug, Clone)]
pub struct AppConf {
    pub resources: Vec<ResResource>,
}

/// The first resource whose path is `uri`, if any.
pub open spec fn spec_find_resource(rs: Seq<ResResource>, uri: Seq<char>) -> Option<ResResource>
    decreases rs.len(),
{
    if rs.len() == 0 {
        None
    } else if rs[0].uri@ == uri {
        Some(rs[0])
    } else {
        spec_find_resource(rs.drop_first(), uri)
    }
}

impl AppConf {
    /// Resolves a request path to the first configured resource with
    /// that path.
    pub fn find_resource<'a>(&'a self, uri: &String) -> (r: Option<&'a ResResource>)
        ensures
            match r {
                Some(res) => spec_find_resource(self.resources@, uri@) == Some(*res),
                None => spec_find_resource(self.resources@, uri@) is None,
            },
    {
        let ghost rs = self.resources@;
        let n = self.resources.len();
        let mut i: usize = 0;
        proof {
            assert(rs.skip(0) =~= rs);
        }
        while i < n
            invariant
                i <= n,
                n == self.resources.len(),
                rs == self.resources@,
                spec_find_resource(rs, uri@) == spec_find_resource(rs.skip(i as int), uri@),
            decreases n - i,
        {
            proof {
                assert(rs.skip(i as int)[0] == rs[i as int]);
                assert(rs.skip(i as int).drop_first() =~= rs.skip(i as int + 1));
            }
            let res = &self.resources[i];
            if res.uri == *uri {
                return Some(res);
            }
            i += 1;
        }
        proof {
            assert(rs.skip(n as int).len() == 0);
        }
        None
    }
}

} // verus!
