//! The cross-origin decorator: the policy of the server, and the envelope
//! that a reply leaves in.
//!
//! The policy is a constant: it depends on no request, no outcome and no
//! switch, so a failing response is covered by it like any other. A server
//! that leaves the decorating to a layer of its middleware sets that layer
//! up from this policy; the envelope says what must then come out of it.

use vstd::prelude::*;

use crate::outcome::{Reply, ReplyView};
use crate::text::str_eq;

verus! {

/// The name of the header that names the allowed origin.
pub const ALLOW_ORIGIN: &'static str = "Access-Control-Allow-Origin";

/// The header value that allows every origin.
pub const ANY_ORIGIN: &'static str = "*";

/// The one method that is allowed across origins.
pub const METHOD_GET: &'static str = "GET";

/// A cross-origin policy, as mathematics sees it.
pub struct CorsPolicyView {
    /// The value of the allow-origin header.
    pub allow_origin: Seq<char>,
    /// The methods allowed across origins, in the order in which they are
    /// announced.
    pub allow_methods: Seq<Seq<char>>,
}

/// The final response, as mathematics sees it.
pub struct EnvelopeView {
    /// The status and the body.
    pub reply: ReplyView,
    /// The value of the allow-origin header.
    pub allow_origin: Seq<char>,
}

impl CorsPolicyView {
    /// Whether the policy allows the method across origins. Method names are
    /// compared as they are written: `get` is not `GET`.
    pub open spec fn allows(self, method: Seq<char>) -> bool {
        self.allow_methods.contains(method)
    }

    /// The reply under the header of this policy: status and body as they
    /// came, and the allowed origin beside them.
    pub open spec fn decorate(self, reply: ReplyView) -> EnvelopeView {
        EnvelopeView { reply, allow_origin: self.allow_origin }
    }
}

/// The final response: a reply under the allow-origin header. There is no
/// envelope without the header.
#[derive(Clone, Debug, PartialEq, Eq)]
pub struct Envelope {
    /// The status and the body.
    pub reply: Reply,
    /// The value of the allow-origin header.
    pub allow_origin: &'static str,
}

impl View for Envelope {
    type V = EnvelopeView;

    open spec fn view(&self) -> EnvelopeView {
        EnvelopeView { reply: self.reply@, allow_origin: self.allow_origin@ }
    }
}

impl Envelope {
    /// The cross-origin header of the response, as name and value.
    pub fn allow_origin_header(&self) -> (header: (&'static str, &'static str))
        ensures
            header.0@ == ALLOW_ORIGIN@,
            header.1@ == self@.allow_origin,
    {
        (ALLOW_ORIGIN, self.allow_origin)
    }
}

/// A cross-origin policy.
#[derive(Clone, Debug, PartialEq, Eq)]
pub struct CorsPolicy {
    /// The value of the allow-origin header.
    pub allow_origin: &'static str,
    /// The methods allowed across origins.
    pub allow_methods: Vec<&'static str>,
}

impl View for CorsPolicy {
    type V = CorsPolicyView;

    open spec fn view(&self) -> CorsPolicyView {
        CorsPolicyView {
            allow_origin: self.allow_origin@,
            allow_methods: Seq::new(self.allow_methods@.len(), |i: int| self.allow_methods@[i]@),
        }
    }
}

/// The policy of this server: every origin, and `GET` alone.
pub open spec fn fixture_policy() -> CorsPolicyView {
    CorsPolicyView { allow_origin: ANY_ORIGIN@, allow_methods: seq![METHOD_GET@] }
}

/// The policy of this server: every origin, and `GET` alone.
pub fn cors_policy() -> (policy: CorsPolicy)
    ensures
        policy@ == fixture_policy(),
{
    let policy = CorsPolicy { allow_origin: ANY_ORIGIN, allow_methods: vec![METHOD_GET] };
    assert(policy@.allow_methods =~= seq![METHOD_GET@]);
    policy
}

impl CorsPolicy {
    /// Puts the reply under the header of this policy. It does so for every
    /// reply alike: the status is not looked at.
    pub fn decorate(&self, reply: Reply) -> (envelope: Envelope)
        ensures
            envelope@ == self@.decorate(reply@),
    {
        Envelope { reply, allow_origin: self.allow_origin }
    }

    /// Whether the policy allows the method across origins.
    pub fn allows_method(&self, method: &str) -> (allowed: bool)
        ensures
            allowed == self@.allows(method@),
    {
        let mut i: usize = 0;
        while i < self.allow_methods.len()
            invariant
                i <= self.allow_methods@.len(),
                forall|k: int| 0 <= k < i ==> self.allow_methods@[k]@ != method@,
            decreases self.allow_methods@.len() - i,
        {
            if str_eq(self.allow_methods[i], method) {
                assert(self@.allow_methods[i as int] == method@);
                return true;
            }
            i += 1;
        }
        false
    }
}

/// Of all methods the server's policy allows `GET` and no other.
pub proof fn lemma_only_get_is_allowed(method: Seq<char>)
    ensures
        fixture_policy().allows(method) <==> method == METHOD_GET@,
{
    assert(fixture_policy().allow_methods[0] == METHOD_GET@);
}

} // verus!
