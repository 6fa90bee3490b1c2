//! The capability registry: the fixed limits advertised for the core JMAP
//! capability, and their canonical encoding.

use vstd::prelude::*;
use crate::encoding::dec_digits;
use crate::encoding::enc_str_list;
use crate::encoding::len_width;
use crate::encoding::lemma_dec20_peel;
use crate::encoding::lemma_enc_str_list_peel;
use crate::encoding::lemma_u64_below_width;
use crate::encoding::pow10;
use crate::encoding::push_dec20;
use crate::encoding::push_enc_str_list;
use crate::encoding::strs_wf;

verus! {

/// Limits of the `urn:ietf:params:jmap:core` capability.
pub struct CapabilitiesObject {
    pub max_size_upload: u64,
    pub max_concurrent_upload: u64,
    pub max_size_request: u64,
    pub max_concurrent_requests: u64,
    pub max_calls_in_request: u64,
    pub max_objects_in_get: u64,
    pub max_objects_in_set: u64,
    pub collation_algorithms: Vec<String>,
}

#[verifier::ext_equal]
pub ghost struct CapabilitiesView {
    pub max_size_upload: u64,
    pub max_concurrent_upload: u64,
    pub max_size_request: u64,
    pub max_concurrent_requests: u64,
    pub max_calls_in_request: u64,
    pub max_objects_in_get: u64,
    pub max_objects_in_set: u64,
    pub collation_algorithms: Seq<Seq<char>>,
}

impl View for CapabilitiesObject {
    type V = CapabilitiesView;

    open spec fn view(&self) -> CapabilitiesView {
        CapabilitiesView {
            max_size_upload: self.max_size_upload,
            max_concurrent_upload: self.max_concurrent_upload,
            max_size_request: self.max_size_request,
            max_concurrent_requests: self.max_concurrent_requests,
            max_calls_in_request: self.max_calls_in_request,
            max_objects_in_get: self.max_objects_in_get,
            max_objects_in_set: self.max_objects_in_set,
            collation_algorithms: self.collation_algorithms@.map_values(|s: String| s@),
        }
    }
}

/// The limits this deployment advertises: fixed constants, with no collation
/// algorithm published yet.
pub open spec fn spec_core_capabilities() -> CapabilitiesView {
    CapabilitiesView {
        max_size_upload: 50000000,
        max_concurrent_upload: 4,
        max_size_request: 10000000,
        max_concurrent_requests: 4,
        max_calls_in_request: 16,
        max_objects_in_get: 500,
        max_objects_in_set: 500,
        collation_algorithms: Seq::empty(),
    }
}

/// The fixed core-capability record served to every client.
pub fn core_capabilities() -> (r: CapabilitiesObject)
    ensures
        r@ == spec_core_capabilities(),
{
    let r = CapabilitiesObject {
        max_size_upload: 50000000,
        max_concurrent_upload: 4,
        max_size_request: 10000000,
        max_concurrent_requests: 4,
        max_calls_in_request: 16,
        max_objects_in_get: 500,
        max_objects_in_set: 500,
        collation_algorithms: Vec::new(),
    };
    proof {
        assert(r@.collation_algorithms =~= spec_core_capabilities().collation_algorithms);
        assert(r@ =~= spec_core_capabilities());
    }
    r
}

/// Canonical encoding of a capability record: the seven limits as fixed-width
/// decimal fields, then the collation algorithm list.
pub open spec fn enc_caps(c: CapabilitiesView) -> Seq<char> {
    dec_digits(c.max_size_upload as nat, len_width()) + (dec_digits(
        c.max_concurrent_upload as nat,
        len_width(),
    ) + (dec_digits(c.max_size_request as nat, len_width()) + (dec_digits(
        c.max_concurrent_requests as nat,
        len_width(),
    ) + (dec_digits(c.max_calls_in_request as nat, len_width()) + (dec_digits(
        c.max_objects_in_get as nat,
        len_width(),
    ) + (dec_digits(c.max_objects_in_set as nat, len_width()) + enc_str_list(
        c.collation_algorithms,
    )))))))
}

pub open spec fn caps_wf(c: CapabilitiesView) -> bool {
    &&& c.collation_algorithms.len() < pow10(len_width())
    &&& strs_wf(c.collation_algorithms)
}

/// The capability encoding is self-delimiting.
pub proof fn lemma_enc_caps_peel(c1: CapabilitiesView, r1: Seq<char>, c2: CapabilitiesView, r2: Seq<char>)
    requires
        caps_wf(c1),
        caps_wf(c2),
        enc_caps(c1) + r1 == enc_caps(c2) + r2,
    ensures
        c1 == c2,
        r1 == r2,
{
    let t1a = dec_digits(c1.max_concurrent_upload as nat, len_width()) + (dec_digits(
        c1.max_size_request as nat,
        len_width(),
    ) + (dec_digits(c1.max_concurrent_requests as nat, len_width()) + (dec_digits(
        c1.max_calls_in_request as nat,
        len_width(),
    ) + (dec_digits(c1.max_objects_in_get as nat, len_width()) + (dec_digits(
        c1.max_objects_in_set as nat,
        len_width(),
    ) + enc_str_list(c1.collation_algorithms))))));
    let t2a = dec_digits(c2.max_concurrent_upload as nat, len_width()) + (dec_digits(
        c2.max_size_request as nat,
        len_width(),
    ) + (dec_digits(c2.max_concurrent_requests as nat, len_width()) + (dec_digits(
        c2.max_calls_in_request as nat,
        len_width(),
    ) + (dec_digits(c2.max_objects_in_get as nat, len_width()) + (dec_digits(
        c2.max_objects_in_set as nat,
        len_width(),
    ) + enc_str_list(c2.collation_algorithms))))));
    lemma_u64_below_width(c1.max_size_upload);
    lemma_u64_below_width(c2.max_size_upload);
    lemma_u64_below_width(c1.max_concurrent_upload);
    lemma_u64_below_width(c2.max_concurrent_upload);
    lemma_u64_below_width(c1.max_size_request);
    lemma_u64_below_width(c2.max_size_request);
    lemma_u64_below_width(c1.max_concurrent_requests);
    lemma_u64_below_width(c2.max_concurrent_requests);
    lemma_u64_below_width(c1.max_calls_in_request);
    lemma_u64_below_width(c2.max_calls_in_request);
    lemma_u64_below_width(c1.max_objects_in_get);
    lemma_u64_below_width(c2.max_objects_in_get);
    lemma_u64_below_width(c1.max_objects_in_set);
    lemma_u64_below_width(c2.max_objects_in_set);
    assert((dec_digits(c1.max_size_upload as nat, len_width()) + t1a) + r1 =~= dec_digits(
        c1.max_size_upload as nat,
        len_width(),
    ) + (t1a + r1));
    assert((dec_digits(c2.max_size_upload as nat, len_width()) + t2a) + r2 =~= dec_digits(
        c2.max_size_upload as nat,
        len_width(),
    ) + (t2a + r2));
    lemma_dec20_peel(c1.max_size_upload as nat, t1a + r1, c2.max_size_upload as nat, t2a + r2);
    let t1b = dec_digits(c1.max_size_request as nat, len_width()) + (dec_digits(
        c1.max_concurrent_requests as nat,
        len_width(),
    ) + (dec_digits(c1.max_calls_in_request as nat, len_width()) + (dec_digits(
        c1.max_objects_in_get as nat,
        len_width(),
    ) + (dec_digits(c1.max_objects_in_set as nat, len_width()) + enc_str_list(
        c1.collation_algorithms,
    )))));
    let t2b = dec_digits(c2.max_size_request as nat, len_width()) + (dec_digits(
        c2.max_concurrent_requests as nat,
        len_width(),
    ) + (dec_digits(c2.max_calls_in_request as nat, len_width()) + (dec_digits(
        c2.max_objects_in_get as nat,
        len_width(),
    ) + (dec_digits(c2.max_objects_in_set as nat, len_width()) + enc_str_list(
        c2.collation_algorithms,
    )))));
    assert((dec_digits(c1.max_concurrent_upload as nat, len_width()) + t1b) + r1 =~= dec_digits(
        c1.max_concurrent_upload as nat,
        len_width(),
    ) + (t1b + r1));
    assert((dec_digits(c2.max_concurrent_upload as nat, len_width()) + t2b) + r2 =~= dec_digits(
        c2.max_concurrent_upload as nat,
        len_width(),
    ) + (t2b + r2));
    lemma_dec20_peel(
        c1.max_concurrent_upload as nat,
        t1b + r1,
        c2.max_concurrent_upload as nat,
        t2b + r2,
    );
    let t1c = dec_digits(c1.max_concurrent_requests as nat, len_width()) + (dec_digits(
        c1.max_calls_in_request as nat,
        len_width(),
    ) + (dec_digits(c1.max_objects_in_get as nat, len_width()) + (dec_digits(
        c1.max_objects_in_set as nat,
        len_width(),
    ) + enc_str_list(c1.collation_algorithms))));
    let t2c = dec_digits(c2.max_concurrent_requests as nat, len_width()) + (dec_digits(
        c2.max_calls_in_request as nat,
        len_width(),
    ) + (dec_digits(c2.max_objects_in_get as nat, len_width()) + (dec_digits(
        c2.max_objects_in_set as nat,
        len_width(),
    ) + enc_str_list(c2.collation_algorithms))));
    assert((dec_digits(c1.max_size_request as nat, len_width()) + t1c) + r1 =~= dec_digits(
        c1.max_size_request as nat,
        len_width(),
    ) + (t1c + r1));
    assert((dec_digits(c2.max_size_request as nat, len_width()) + t2c) + r2 =~= dec_digits(
        c2.max_size_request as nat,
        len_width(),
    ) + (t2c + r2));
    lemma_dec20_peel(c1.max_size_request as nat, t1c + r1, c2.max_size_request as nat, t2c + r2);
    let t1d = dec_digits(c1.max_calls_in_request as nat, len_width()) + (dec_digits(
        c1.max_objects_in_get as nat,
        len_width(),
    ) + (dec_digits(c1.max_objects_in_set as nat, len_width()) + enc_str_list(
        c1.collation_algorithms,
    )));
    let t2d = dec_digits(c2.max_calls_in_request as nat, len_width()) + (dec_digits(
        c2.max_objects_in_get as nat,
        len_width(),
    ) + (dec_digits(c2.max_objects_in_set as nat, len_width()) + enc_str_list(
        c2.collation_algorithms,
    )));
    assert((dec_digits(c1.max_concurrent_requests as nat, len_width()) + t1d) + r1 =~= dec_digits(
        c1.max_concurrent_requests as nat,
        len_width(),
    ) + (t1d + r1));
    assert((dec_digits(c2.max_concurrent_requests as nat, len_width()) + t2d) + r2 =~= dec_digits(
        c2.max_concurrent_requests as nat,
        len_width(),
    ) + (t2d + r2));
    lemma_dec20_peel(
        c1.max_concurrent_requests as nat,
        t1d + r1,
        c2.max_concurrent_requests as nat,
        t2d + r2,
    );
    let t1e = dec_digits(c1.max_objects_in_get as nat, len_width()) + (dec_digits(
        c1.max_objects_in_set as nat,
        len_width(),
    ) + enc_str_list(c1.collation_algorithms));
    let t2e = dec_digits(c2.max_objects_in_get as nat, len_width()) + (dec_digits(
        c2.max_objects_in_set as nat,
        len_width(),
    ) + enc_str_list(c2.collation_algorithms));
    assert((dec_digits(c1.max_calls_in_request as nat, len_width()) + t1e) + r1 =~= dec_digits(
        c1.max_calls_in_request as nat,
        len_width(),
    ) + (t1e + r1));
    assert((dec_digits(c2.max_calls_in_request as nat, len_width()) + t2e) + r2 =~= dec_digits(
        c2.max_calls_in_request as nat,
        len_width(),
    ) + (t2e + r2));
    lemma_dec20_peel(
        c1.max_calls_in_request as nat,
        t1e + r1,
        c2.max_calls_in_request as nat,
        t2e + r2,
    );
    let t1f = dec_digits(c1.max_objects_in_set as nat, len_width()) + enc_str_list(
        c1.collation_algorithms,
    );
    let t2f = dec_digits(c2.max_objects_in_set as nat, len_width()) + enc_str_list(
        c2.collation_algorithms,
    );
    assert((dec_digits(c1.max_objects_in_get as nat, len_width()) + t1f) + r1 =~= dec_digits(
        c1.max_objects_in_get as nat,
        len_width(),
    ) + (t1f + r1));
    assert((dec_digits(c2.max_objects_in_get as nat, len_width()) + t2f) + r2 =~= dec_digits(
        c2.max_objects_in_get as nat,
        len_width(),
    ) + (t2f + r2));
    lemma_dec20_peel(
        c1.max_objects_in_get as nat,
        t1f + r1,
        c2.max_objects_in_get as nat,
        t2f + r2,
    );
    let t1g = enc_str_list(c1.collation_algorithms);
    let t2g = enc_str_list(c2.collation_algorithms);
    assert((dec_digits(c1.max_objects_in_set as nat, len_width()) + t1g) + r1 =~= dec_digits(
        c1.max_objects_in_set as nat,
        len_width(),
    ) + (t1g + r1));
    assert((dec_digits(c2.max_objects_in_set as nat, len_width()) + t2g) + r2 =~= dec_digits(
        c2.max_objects_in_set as nat,
        len_width(),
    ) + (t2g + r2));
    lemma_dec20_peel(
        c1.max_objects_in_set as nat,
        t1g + r1,
        c2.max_objects_in_set as nat,
        t2g + r2,
    );
    lemma_enc_str_list_peel(c1.collation_algorithms, r1, c2.collation_algorithms, r2);
}

/// Appends the canonical encoding of a capability record.
pub fn push_enc_caps(out: &mut String, c: &CapabilitiesObject)
    ensures
        final(out)@ == old(out)@ + enc_caps(c@),
{
    push_dec20(out, c.max_size_upload);
    push_dec20(out, c.max_concurrent_upload);
    push_dec20(out, c.max_size_request);
    push_dec20(out, c.max_concurrent_requests);
    push_dec20(out, c.max_calls_in_request);
    push_dec20(out, c.max_objects_in_get);
    push_dec20(out, c.max_objects_in_set);
    push_enc_str_list(out, &c.collation_algorithms);
    proof {
        assert(out@ =~= old(out)@ + enc_caps(c@));
    }
}

} // verus!
