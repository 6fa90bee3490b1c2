//! The session resource: the discovery document served to JMAP clients, its
//! builder, and the state hasher that stamps it with a content-derived
//! change-detection token.

use vstd::prelude::*;
use vstd::string::StringExecFns;
use crate::account::Account;
use crate::account::AccountId;
use crate::account::AccountView;
use crate::account::account_wf;
use crate::account::enc_account;
use crate::account::lemma_enc_account_peel;
use crate::account::push_enc_account;
use crate::capabilities::CapabilitiesObject;
use crate::capabilities::CapabilitiesView;
use crate::capabilities::caps_wf;
use crate::capabilities::core_capabilities;
use crate::capabilities::enc_caps;
use crate::capabilities::lemma_enc_caps_peel;
use crate::capabilities::push_enc_caps;
use crate::capabilities::spec_core_capabilities;
use crate::encoding::dec_digits;
use crate::encoding::enc_pair_list;
use crate::encoding::enc_str;
use crate::encoding::len_width;
use crate::encoding::lemma_dec20_peel;
use crate::encoding::lemma_enc_pair_list_peel;
use crate::encoding::lemma_enc_str_peel;
use crate::encoding::pairs_wf;
use crate::encoding::pow10;
use crate::encoding::push_dec20;
use crate::encoding::push_enc_str;
use crate::server::ServerState;
use crate::urls::URLs;
use crate::urls::spec_api_url;
use crate::urls::spec_download_url;
use crate::urls::spec_event_source_url;
use crate::urls::spec_upload_url;

verus! {

/// The session document. Mappings are kept as ordered association lists, so
/// that serializing them is stable across invocations with equal content.
pub struct JmapSession {
    pub capabilities: Vec<(String, CapabilitiesObject)>,
    pub accounts: Vec<(AccountId, Account)>,
    pub primary_accounts: Vec<(String, AccountId)>,
    pub username: String,
    pub api_url: String,
    pub download_url: String,
    pub upload_url: String,
    pub event_source_url: String,
    pub state: String,
    pub extra_properties: Vec<(String, String)>,
}

#[verifier::ext_equal]
pub ghost struct SessionView {
    pub capabilities: Seq<(Seq<char>, CapabilitiesView)>,
    pub accounts: Seq<(Seq<char>, AccountView)>,
    pub primary_accounts: Seq<(Seq<char>, Seq<char>)>,
    pub username: Seq<char>,
    pub api_url: Seq<char>,
    pub download_url: Seq<char>,
    pub upload_url: Seq<char>,
    pub event_source_url: Seq<char>,
    pub state: Seq<char>,
    pub extra_properties: Seq<(Seq<char>, Seq<char>)>,
}

impl View for JmapSession {
    type V = SessionView;

    open spec fn view(&self) -> SessionView {
        SessionView {
            capabilities: self.capabilities@.map_values(
                |e: (String, CapabilitiesObject)| (e.0@, e.1@),
            ),
            accounts: self.accounts@.map_values(|e: (AccountId, Account)| (e.0@, e.1@)),
            primary_accounts: self.primary_accounts@.map_values(
                |e: (String, AccountId)| (e.0@, e.1@),
            ),
            username: self.username@,
            api_url: self.api_url@,
            download_url: self.download_url@,
            upload_url: self.upload_url@,
            event_source_url: self.event_source_url@,
            state: self.state@,
            extra_properties: self.extra_properties@.map_values(
                |e: (String, String)| (e.0@, e.1@),
            ),
        }
    }
}

// ---- encoding of the capability mapping ----

pub open spec fn enc_cap_entry(e: (Seq<char>, CapabilitiesView)) -> Seq<char> {
    enc_str(e.0) + enc_caps(e.1)
}

pub open spec fn enc_cap_items(l: Seq<(Seq<char>, CapabilitiesView)>) -> Seq<char>
    decreases l.len(),
{
    if l.len() == 0 {
        Seq::empty()
    } else {
        enc_cap_entry(l.first()) + enc_cap_items(l.drop_first())
    }
}

pub open spec fn enc_cap_list(l: Seq<(Seq<char>, CapabilitiesView)>) -> Seq<char> {
    dec_digits(l.len(), len_width()) + enc_cap_items(l)
}

pub open spec fn cap_entries_wf(l: Seq<(Seq<char>, CapabilitiesView)>) -> bool {
    &&& l.len() < pow10(len_width())
    &&& forall|i: int|
        0 <= i < l.len() ==> (#[trigger] l[i]).0.len() < pow10(len_width()) && caps_wf(l[i].1)
}

proof fn lemma_enc_cap_entry_peel(
    e1: (Seq<char>, CapabilitiesView),
    r1: Seq<char>,
    e2: (Seq<char>, CapabilitiesView),
    r2: Seq<char>,
)
    requires
        e1.0.len() < pow10(len_width()),
        e2.0.len() < pow10(len_width()),
        caps_wf(e1.1),
        caps_wf(e2.1),
        enc_cap_entry(e1) + r1 == enc_cap_entry(e2) + r2,
    ensures
        e1 == e2,
        r1 == r2,
{
    assert((enc_str(e1.0) + enc_caps(e1.1)) + r1 =~= enc_str(e1.0) + (enc_caps(e1.1) + r1));
    assert((enc_str(e2.0) + enc_caps(e2.1)) + r2 =~= enc_str(e2.0) + (enc_caps(e2.1) + r2));
    lemma_enc_str_peel(e1.0, enc_caps(e1.1) + r1, e2.0, enc_caps(e2.1) + r2);
    lemma_enc_caps_peel(e1.1, r1, e2.1, r2);
}

proof fn lemma_enc_cap_items_snoc(
    l: Seq<(Seq<char>, CapabilitiesView)>,
    x: (Seq<char>, CapabilitiesView),
)
    ensures
        enc_cap_items(l.push(x)) == enc_cap_items(l) + enc_cap_entry(x),
    decreases l.len(),
{
    reveal_with_fuel(enc_cap_items, 3);
    if l.len() == 0 {
        assert(l.push(x).drop_first() =~= Seq::<(Seq<char>, CapabilitiesView)>::empty());
        assert(l.push(x).first() == x);
        assert(enc_cap_entry(x) + Seq::<char>::empty() =~= enc_cap_entry(x));
        assert(Seq::<char>::empty() + enc_cap_entry(x) =~= enc_cap_entry(x));
    } else {
        lemma_enc_cap_items_snoc(l.drop_first(), x);
        assert(l.push(x).drop_first() =~= l.drop_first().push(x));
        assert(l.push(x).first() == l.first());
        assert(enc_cap_entry(l.first()) + (enc_cap_items(l.drop_first()) + enc_cap_entry(x))
            =~= (enc_cap_entry(l.first()) + enc_cap_items(l.drop_first())) + enc_cap_entry(x));
    }
}

proof fn lemma_enc_cap_items_peel(
    l1: Seq<(Seq<char>, CapabilitiesView)>,
    r1: Seq<char>,
    l2: Seq<(Seq<char>, CapabilitiesView)>,
    r2: Seq<char>,
)
    requires
        l1.len() == l2.len(),
        forall|i: int|
            0 <= i < l1.len() ==> (#[trigger] l1[i]).0.len() < pow10(len_width()) && caps_wf(
                l1[i].1,
            ),
        forall|i: int|
            0 <= i < l2.len() ==> (#[trigger] l2[i]).0.len() < pow10(len_width()) && caps_wf(
                l2[i].1,
            ),
        enc_cap_items(l1) + r1 == enc_cap_items(l2) + r2,
    ensures
        l1 == l2,
        r1 == r2,
    decreases l1.len(),
{
    if l1.len() == 0 {
        assert(l1 =~= l2);
        assert(Seq::<char>::empty() + r1 =~= r1);
        assert(Seq::<char>::empty() + r2 =~= r2);
    } else {
        let t1 = enc_cap_items(l1.drop_first()) + r1;
        let t2 = enc_cap_items(l2.drop_first()) + r2;
        assert((enc_cap_entry(l1.first()) + enc_cap_items(l1.drop_first())) + r1 =~= enc_cap_entry(
            l1.first(),
        ) + t1);
        assert((enc_cap_entry(l2.first()) + enc_cap_items(l2.drop_first())) + r2 =~= enc_cap_entry(
            l2.first(),
        ) + t2);
        assert(l1[0] == l1.first());
        assert(l2[0] == l2.first());
        lemma_enc_cap_entry_peel(l1.first(), t1, l2.first(), t2);
        assert forall|i: int| 0 <= i < l1.drop_first().len() implies (#[trigger] l1.drop_first()[i]).0.len()
            < pow10(len_width()) && caps_wf(l1.drop_first()[i].1) by {
            assert(l1.drop_first()[i] == l1[i + 1]);
        }
        assert forall|i: int| 0 <= i < l2.drop_first().len() implies (#[trigger] l2.drop_first()[i]).0.len()
            < pow10(len_width()) && caps_wf(l2.drop_first()[i].1) by {
            assert(l2.drop_first()[i] == l2[i + 1]);
        }
        lemma_enc_cap_items_peel(l1.drop_first(), r1, l2.drop_first(), r2);
        assert forall|i: int| 0 <= i < l1.len() implies l1[i] == l2[i] by {
            if i == 0 {
            } else {
                assert(l1.drop_first()[i - 1] == l1[i]);
                assert(l2.drop_first()[i - 1] == l2[i]);
            }
        }
        assert(l1 =~= l2);
    }
}

proof fn lemma_enc_cap_list_peel(
    l1: Seq<(Seq<char>, CapabilitiesView)>,
    r1: Seq<char>,
    l2: Seq<(Seq<char>, CapabilitiesView)>,
    r2: Seq<char>,
)
    requires
        cap_entries_wf(l1),
        cap_entries_wf(l2),
        enc_cap_list(l1) + r1 == enc_cap_list(l2) + r2,
    ensures
        l1 == l2,
        r1 == r2,
{
    let d1 = dec_digits(l1.len(), len_width());
    let d2 = dec_digits(l2.len(), len_width());
    assert((d1 + enc_cap_items(l1)) + r1 =~= d1 + (enc_cap_items(l1) + r1));
    assert((d2 + enc_cap_items(l2)) + r2 =~= d2 + (enc_cap_items(l2) + r2));
    lemma_dec20_peel(l1.len(), enc_cap_items(l1) + r1, l2.len(), enc_cap_items(l2) + r2);
    lemma_enc_cap_items_peel(l1, r1, l2, r2);
}

fn push_enc_cap_list(out: &mut String, l: &Vec<(String, CapabilitiesObject)>)
    ensures
        final(out)@ == old(out)@ + enc_cap_list(
            l@.map_values(|e: (String, CapabilitiesObject)| (e.0@, e.1@)),
        ),
{
    let ghost lv = l@.map_values(|e: (String, CapabilitiesObject)| (e.0@, e.1@));
    push_dec20(out, l.len() as u64);
    let mut i: usize = 0;
    while i < l.len()
        invariant
            i <= l.len(),
            lv == l@.map_values(|e: (String, CapabilitiesObject)| (e.0@, e.1@)),
            out@ == old(out)@ + dec_digits(lv.len(), len_width()) + enc_cap_items(
                lv.take(i as int),
            ),
        decreases l.len() - i,
    {
        push_enc_str(out, l[i].0.as_str());
        push_enc_caps(out, &l[i].1);
        proof {
            lemma_enc_cap_items_snoc(lv.take(i as int), lv[i as int]);
            assert(lv.take(i as int).push(lv[i as int]) =~= lv.take(i as int + 1));
            assert(((old(out)@ + dec_digits(lv.len(), len_width()) + enc_cap_items(
                lv.take(i as int),
            )) + enc_str(lv[i as int].0)) + enc_caps(lv[i as int].1) =~= old(out)@ + dec_digits(
                lv.len(),
                len_width(),
            ) + enc_cap_items(lv.take(i as int + 1)));
        }
        i += 1;
    }
    proof {
        assert(lv.take(lv.len() as int) =~= lv);
        assert(old(out)@ + dec_digits(lv.len(), len_width()) + enc_cap_items(lv) =~= old(out)@
            + enc_cap_list(lv));
    }
}

// ---- encoding of the account mapping ----

pub open spec fn enc_acct_entry(e: (Seq<char>, AccountView)) -> Seq<char> {
    enc_str(e.0) + enc_account(e.1)
}

pub open spec fn enc_acct_items(l: Seq<(Seq<char>, AccountView)>) -> Seq<char>
    decreases l.len(),
{
    if l.len() == 0 {
        Seq::empty()
    } else {
        enc_acct_entry(l.first()) + enc_acct_items(l.drop_first())
    }
}

pub open spec fn enc_acct_list(l: Seq<(Seq<char>, AccountView)>) -> Seq<char> {
    dec_digits(l.len(), len_width()) + enc_acct_items(l)
}

pub open spec fn acct_entries_wf(l: Seq<(Seq<char>, AccountView)>) -> bool {
    &&& l.len() < pow10(len_width())
    &&& forall|i: int|
        0 <= i < l.len() ==> (#[trigger] l[i]).0.len() < pow10(len_width()) && account_wf(l[i].1)
}

proof fn lemma_enc_acct_entry_peel(
    e1: (Seq<char>, AccountView),
    r1: Seq<char>,
    e2: (Seq<char>, AccountView),
    r2: Seq<char>,
)
    requires
        e1.0.len() < pow10(len_width()),
        e2.0.len() < pow10(len_width()),
        account_wf(e1.1),
        account_wf(e2.1),
        enc_acct_entry(e1) + r1 == enc_acct_entry(e2) + r2,
    ensures
        e1 == e2,
        r1 == r2,
{
    assert((enc_str(e1.0) + enc_account(e1.1)) + r1 =~= enc_str(e1.0) + (enc_account(e1.1) + r1));
    assert((enc_str(e2.0) + enc_account(e2.1)) + r2 =~= enc_str(e2.0) + (enc_account(e2.1) + r2));
    lemma_enc_str_peel(e1.0, enc_account(e1.1) + r1, e2.0, enc_account(e2.1) + r2);
    lemma_enc_account_peel(e1.1, r1, e2.1, r2);
}

proof fn lemma_enc_acct_items_snoc(l: Seq<(Seq<char>, AccountView)>, x: (Seq<char>, AccountView))
    ensures
        enc_acct_items(l.push(x)) == enc_acct_items(l) + enc_acct_entry(x),
    decreases l.len(),
{
    reveal_with_fuel(enc_acct_items, 3);
    if l.len() == 0 {
        assert(l.push(x).drop_first() =~= Seq::<(Seq<char>, AccountView)>::empty());
        assert(l.push(x).first() == x);
        assert(enc_acct_entry(x) + Seq::<char>::empty() =~= enc_acct_entry(x));
        assert(Seq::<char>::empty() + enc_acct_entry(x) =~= enc_acct_entry(x));
    } else {
        lemma_enc_acct_items_snoc(l.drop_first(), x);
        assert(l.push(x).drop_first() =~= l.drop_first().push(x));
        assert(l.push(x).first() == l.first());
        assert(enc_acct_entry(l.first()) + (enc_acct_items(l.drop_first()) + enc_acct_entry(x))
            =~= (enc_acct_entry(l.first()) + enc_acct_items(l.drop_first())) + enc_acct_entry(x));
    }
}

proof fn lemma_enc_acct_items_peel(
    l1: Seq<(Seq<char>, AccountView)>,
    r1: Seq<char>,
    l2: Seq<(Seq<char>, AccountView)>,
    r2: Seq<char>,
)
    requires
        l1.len() == l2.len(),
        forall|i: int|
            0 <= i < l1.len() ==> (#[trigger] l1[i]).0.len() < pow10(len_width()) && account_wf(
                l1[i].1,
            ),
        forall|i: int|
            0 <= i < l2.len() ==> (#[trigger] l2[i]).0.len() < pow10(len_width()) && account_wf(
                l2[i].1,
            ),
        enc_acct_items(l1) + r1 == enc_acct_items(l2) + r2,
    ensures
        l1 == l2,
        r1 == r2,
    decreases l1.len(),
{
    if l1.len() == 0 {
        assert(l1 =~= l2);
        assert(Seq::<char>::empty() + r1 =~= r1);
        assert(Seq::<char>::empty() + r2 =~= r2);
    } else {
        let t1 = enc_acct_items(l1.drop_first()) + r1;
        let t2 = enc_acct_items(l2.drop_first()) + r2;
        assert((enc_acct_entry(l1.first()) + enc_acct_items(l1.drop_first())) + r1
            =~= enc_acct_entry(l1.first()) + t1);
        assert((enc_acct_entry(l2.first()) + enc_acct_items(l2.drop_first())) + r2
            =~= enc_acct_entry(l2.first()) + t2);
        assert(l1[0] == l1.first());
        assert(l2[0] == l2.first());
        lemma_enc_acct_entry_peel(l1.first(), t1, l2.first(), t2);
        assert forall|i: int| 0 <= i < l1.drop_first().len() implies (#[trigger] l1.drop_first()[i]).0.len()
            < pow10(len_width()) && account_wf(l1.drop_first()[i].1) by {
            assert(l1.drop_first()[i] == l1[i + 1]);
        }
        assert forall|i: int| 0 <= i < l2.drop_first().len() implies (#[trigger] l2.drop_first()[i]).0.len()
            < pow10(len_width()) && account_wf(l2.drop_first()[i].1) by {
            assert(l2.drop_first()[i] == l2[i + 1]);
        }
        lemma_enc_acct_items_peel(l1.drop_first(), r1, l2.drop_first(), r2);
        assert forall|i: int| 0 <= i < l1.len() implies l1[i] == l2[i] by {
            if i == 0 {
            } else {
                assert(l1.drop_first()[i - 1] == l1[i]);
                assert(l2.drop_first()[i - 1] == l2[i]);
            }
        }
        assert(l1 =~= l2);
    }
}

proof fn lemma_enc_acct_list_peel(
    l1: Seq<(Seq<char>, AccountView)>,
    r1: Seq<char>,
    l2: Seq<(Seq<char>, AccountView)>,
    r2: Seq<char>,
)
    requires
        acct_entries_wf(l1),
        acct_entries_wf(l2),
        enc_acct_list(l1) + r1 == enc_acct_list(l2) + r2,
    ensures
        l1 == l2,
        r1 == r2,
{
    let d1 = dec_digits(l1.len(), len_width());
    let d2 = dec_digits(l2.len(), len_width());
    assert((d1 + enc_acct_items(l1)) + r1 =~= d1 + (enc_acct_items(l1) + r1));
    assert((d2 + enc_acct_items(l2)) + r2 =~= d2 + (enc_acct_items(l2) + r2));
    lemma_dec20_peel(l1.len(), enc_acct_items(l1) + r1, l2.len(), enc_acct_items(l2) + r2);
    lemma_enc_acct_items_peel(l1, r1, l2, r2);
}

fn push_enc_acct_list(out: &mut String, l: &Vec<(AccountId, Account)>)
    ensures
        final(out)@ == old(out)@ + enc_acct_list(
            l@.map_values(|e: (AccountId, Account)| (e.0@, e.1@)),
        ),
{
    let ghost lv = l@.map_values(|e: (AccountId, Account)| (e.0@, e.1@));
    push_dec20(out, l.len() as u64);
    let mut i: usize = 0;
    while i < l.len()
        invariant
            i <= l.len(),
            lv == l@.map_values(|e: (AccountId, Account)| (e.0@, e.1@)),
            out@ == old(out)@ + dec_digits(lv.len(), len_width()) + enc_acct_items(
                lv.take(i as int),
            ),
        decreases l.len() - i,
    {
        push_enc_str(out, l[i].0.value.as_str());
        push_enc_account(out, &l[i].1);
        proof {
            lemma_enc_acct_items_snoc(lv.take(i as int), lv[i as int]);
            assert(lv.take(i as int).push(lv[i as int]) =~= lv.take(i as int + 1));
            assert(((old(out)@ + dec_digits(lv.len(), len_width()) + enc_acct_items(
                lv.take(i as int),
            )) + enc_str(lv[i as int].0)) + enc_account(lv[i as int].1) =~= old(out)@ + dec_digits(
                lv.len(),
                len_width(),
            ) + enc_acct_items(lv.take(i as int + 1)));
        }
        i += 1;
    }
    proof {
        assert(lv.take(lv.len() as int) =~= lv);
        assert(old(out)@ + dec_digits(lv.len(), len_width()) + enc_acct_items(lv) =~= old(out)@
            + enc_acct_list(lv));
    }
}

fn push_enc_primary_list(out: &mut String, l: &Vec<(String, AccountId)>)
    ensures
        final(out)@ == old(out)@ + enc_pair_list(
            l@.map_values(|e: (String, AccountId)| (e.0@, e.1@)),
        ),
{
    let ghost lv = l@.map_values(|e: (String, AccountId)| (e.0@, e.1@));
    push_dec20(out, l.len() as u64);
    let mut i: usize = 0;
    while i < l.len()
        invariant
            i <= l.len(),
            lv == l@.map_values(|e: (String, AccountId)| (e.0@, e.1@)),
            out@ == old(out)@ + dec_digits(lv.len(), len_width())
                + crate::encoding::enc_pair_items(lv.take(i as int)),
        decreases l.len() - i,
    {
        push_enc_str(out, l[i].0.as_str());
        push_enc_str(out, l[i].1.value.as_str());
        proof {
            crate::encoding::lemma_enc_pair_items_snoc(lv.take(i as int), lv[i as int]);
            assert(lv.take(i as int).push(lv[i as int]) =~= lv.take(i as int + 1));
            assert(((old(out)@ + dec_digits(lv.len(), len_width())
                + crate::encoding::enc_pair_items(lv.take(i as int))) + enc_str(lv[i as int].0))
                + enc_str(lv[i as int].1) =~= old(out)@ + dec_digits(lv.len(), len_width())
                + crate::encoding::enc_pair_items(lv.take(i as int + 1)));
        }
        i += 1;
    }
    proof {
        assert(lv.take(lv.len() as int) =~= lv);
        assert(old(out)@ + dec_digits(lv.len(), len_width()) + crate::encoding::enc_pair_items(lv)
            =~= old(out)@ + enc_pair_list(lv));
    }
}

// ---- the hashed content ----

/// The exact serialization fed to the state hasher: the capability mapping,
/// the account mapping, the primary-account mapping, the username and the
/// four endpoint URLs, in that fixed order. The state field itself and the
/// extension-properties bag are not part of it.
pub open spec fn session_content_enc(s: SessionView) -> Seq<char> {
    enc_cap_list(s.capabilities) + (enc_acct_list(s.accounts) + (enc_pair_list(s.primary_accounts)
        + (enc_str(s.username) + (enc_str(s.api_url) + (enc_str(s.download_url) + (enc_str(
        s.upload_url,
    ) + enc_str(s.event_source_url)))))))
}

/// Every count and character length fits the fixed-width decimal fields.
/// Holds of every session an executable builder can produce.
pub open spec fn session_wf(s: SessionView) -> bool {
    &&& cap_entries_wf(s.capabilities)
    &&& acct_entries_wf(s.accounts)
    &&& s.primary_accounts.len() < pow10(len_width())
    &&& pairs_wf(s.primary_accounts)
    &&& s.username.len() < pow10(len_width())
    &&& s.api_url.len() < pow10(len_width())
    &&& s.download_url.len() < pow10(len_width())
    &&& s.upload_url.len() < pow10(len_width())
    &&& s.event_source_url.len() < pow10(len_width())
}

/// Sensitivity law: the hashed serialization is injective on the
/// client-visible content. Two sessions whose serializations agree carry the
/// same capabilities, accounts, primary accounts, username and URLs — so any
/// change to one of these changes the bytes fed to the digest. That the
/// digest itself then differs rests on the hash's collision resistance and is
/// not provable here.
pub proof fn lemma_session_content_injective(s1: SessionView, s2: SessionView)
    requires
        session_wf(s1),
        session_wf(s2),
        session_content_enc(s1) == session_content_enc(s2),
    ensures
        s1.capabilities == s2.capabilities,
        s1.accounts == s2.accounts,
        s1.primary_accounts == s2.primary_accounts,
        s1.username == s2.username,
        s1.api_url == s2.api_url,
        s1.download_url == s2.download_url,
        s1.upload_url == s2.upload_url,
        s1.event_source_url == s2.event_source_url,
{
    let e = Seq::<char>::empty();
    let t1a = enc_acct_list(s1.accounts) + (enc_pair_list(s1.primary_accounts) + (enc_str(
        s1.username,
    ) + (enc_str(s1.api_url) + (enc_str(s1.download_url) + (enc_str(s1.upload_url) + enc_str(
        s1.event_source_url,
    ))))));
    let t2a = enc_acct_list(s2.accounts) + (enc_pair_list(s2.primary_accounts) + (enc_str(
        s2.username,
    ) + (enc_str(s2.api_url) + (enc_str(s2.download_url) + (enc_str(s2.upload_url) + enc_str(
        s2.event_source_url,
    ))))));
    assert(enc_cap_list(s1.capabilities) + t1a == enc_cap_list(s2.capabilities) + t2a);
    lemma_enc_cap_list_peel(s1.capabilities, t1a, s2.capabilities, t2a);
    let t1b = enc_pair_list(s1.primary_accounts) + (enc_str(s1.username) + (enc_str(s1.api_url)
        + (enc_str(s1.download_url) + (enc_str(s1.upload_url) + enc_str(s1.event_source_url)))));
    let t2b = enc_pair_list(s2.primary_accounts) + (enc_str(s2.username) + (enc_str(s2.api_url)
        + (enc_str(s2.download_url) + (enc_str(s2.upload_url) + enc_str(s2.event_source_url)))));
    lemma_enc_acct_list_peel(s1.accounts, t1b, s2.accounts, t2b);
    let t1c = enc_str(s1.username) + (enc_str(s1.api_url) + (enc_str(s1.download_url) + (enc_str(
        s1.upload_url,
    ) + enc_str(s1.event_source_url))));
    let t2c = enc_str(s2.username) + (enc_str(s2.api_url) + (enc_str(s2.download_url) + (enc_str(
        s2.upload_url,
    ) + enc_str(s2.event_source_url))));
    lemma_enc_pair_list_peel(s1.primary_accounts, t1c, s2.primary_accounts, t2c);
    let t1d = enc_str(s1.api_url) + (enc_str(s1.download_url) + (enc_str(s1.upload_url) + enc_str(
        s1.event_source_url,
    )));
    let t2d = enc_str(s2.api_url) + (enc_str(s2.download_url) + (enc_str(s2.upload_url) + enc_str(
        s2.event_source_url,
    )));
    lemma_enc_str_peel(s1.username, t1d, s2.username, t2d);
    let t1e = enc_str(s1.download_url) + (enc_str(s1.upload_url) + enc_str(s1.event_source_url));
    let t2e = enc_str(s2.download_url) + (enc_str(s2.upload_url) + enc_str(s2.event_source_url));
    lemma_enc_str_peel(s1.api_url, t1e, s2.api_url, t2e);
    let t1f = enc_str(s1.upload_url) + enc_str(s1.event_source_url);
    let t2f = enc_str(s2.upload_url) + enc_str(s2.event_source_url);
    lemma_enc_str_peel(s1.download_url, t1f, s2.download_url, t2f);
    lemma_enc_str_peel(s1.upload_url, enc_str(s1.event_source_url), s2.upload_url, enc_str(
        s2.event_source_url,
    ));
    assert(enc_str(s1.event_source_url) + e =~= enc_str(s1.event_source_url));
    assert(enc_str(s2.event_source_url) + e =~= enc_str(s2.event_source_url));
    lemma_enc_str_peel(s1.event_source_url, e, s2.event_source_url, e);
}

/// Builds the serialization that the state hasher digests.
pub fn build_hash_input(s: &JmapSession) -> (r: String)
    ensures
        r@ == session_content_enc(s@),
{
    let mut out = String::new();
    push_enc_cap_list(&mut out, &s.capabilities);
    push_enc_acct_list(&mut out, &s.accounts);
    push_enc_primary_list(&mut out, &s.primary_accounts);
    push_enc_str(&mut out, s.username.as_str());
    push_enc_str(&mut out, s.api_url.as_str());
    push_enc_str(&mut out, s.download_url.as_str());
    push_enc_str(&mut out, s.upload_url.as_str());
    push_enc_str(&mut out, s.event_source_url.as_str());
    proof {
        assert(out@ =~= session_content_enc(s@));
    }
    out
}

// ---- the state hasher ----

pub uninterp spec fn blake3_hex_of(s: Seq<char>) -> Seq<char>;

/// Relies on `blake3::hash` and `blake3::Hash::to_hex`: the digest is a pure
/// function of the input bytes — here the UTF-8 bytes of the input string,
/// themselves a function of its characters — rendered as the 64 lowercase
/// hexadecimal characters of the 256-bit hash.
#[verifier::external_body]
fn blake3_hex(input: &str) -> (r: String)
    ensures
        r@ == blake3_hex_of(input@),
        r@.len() == 64,
{
    blake3::hash(input.as_bytes()).to_hex().as_str().to_string()
}

/// A session with its state token recomputed from its content.
pub open spec fn spec_stamped(s: SessionView) -> SessionView {
    SessionView { state: blake3_hex_of(session_content_enc(s)), ..s }
}

impl JmapSession {
    /// The state hasher: returns the same document with the state field
    /// replaced by the digest of every client-visible field.
    pub fn compute_state(self) -> (r: Self)
        ensures
            r@ == spec_stamped(self@),
            r@.state.len() == 64,
    {
        let ghost sv = self@;
        let input = build_hash_input(&self);
        let state = blake3_hex(input.as_str());
        let r = JmapSession {
            capabilities: self.capabilities,
            accounts: self.accounts,
            primary_accounts: self.primary_accounts,
            username: self.username,
            api_url: self.api_url,
            download_url: self.download_url,
            upload_url: self.upload_url,
            event_source_url: self.event_source_url,
            state,
            extra_properties: self.extra_properties,
        };
        proof {
            assert(r@ =~= spec_stamped(sv));
        }
        r
    }
}

/// Determinism law: the state token depends only on the hashed content, and
/// the token itself is not part of that content — so stamping an already
/// stamped session reproduces it exactly, token included.
pub proof fn lemma_stamp_idempotent(s: SessionView)
    ensures
        spec_stamped(spec_stamped(s)) == spec_stamped(s),
{
    assert(session_content_enc(spec_stamped(s)) == session_content_enc(s));
    assert(spec_stamped(spec_stamped(s)) =~= spec_stamped(s));
}

// ---- the session builder ----

/// The session content assembled for one request, before stamping: one core
/// capability entry, one account entry, no primary account claimed, and the
/// four templated URLs.
pub open spec fn spec_session_content(
    email: Seq<char>,
    account_id: Seq<char>,
    account: AccountView,
    addr: Seq<char>,
) -> SessionView {
    SessionView {
        capabilities: seq![("urn:ietf:params:jmap:core"@, spec_core_capabilities())],
        accounts: seq![(account_id, account)],
        primary_accounts: Seq::empty(),
        username: email,
        api_url: spec_api_url(addr),
        download_url: spec_download_url(addr),
        upload_url: spec_upload_url(addr),
        event_source_url: spec_event_source_url(addr),
        state: Seq::empty(),
        extra_properties: Seq::empty(),
    }
}

/// The session builder composed with the state hasher: a fresh document built
/// from the immutable snapshot and stamped with its content digest. The
/// result is a pure function of the snapshot, so two calls on the same
/// snapshot yield identical documents, state token included.
pub fn generate_session(state: &ServerState) -> (r: JmapSession)
    ensures
        r@ == spec_stamped(
            spec_session_content(
                state.config.imap.email@,
                state.account_id@,
                state.account@,
                state.address@,
            ),
        ),
        r@.state.len() == 64,
{
    let mut capabilities: Vec<(String, CapabilitiesObject)> = Vec::new();
    capabilities.push((String::from_str("urn:ietf:params:jmap:core"), core_capabilities()));
    let mut accounts: Vec<(AccountId, Account)> = Vec::new();
    accounts.push((state.account_id.clone(), state.account.clone()));
    let urls = URLs::from_address(state.address.as_str());
    let session = JmapSession {
        capabilities,
        accounts,
        primary_accounts: Vec::new(),
        username: state.config.imap.email.clone(),
        api_url: urls.api,
        download_url: urls.download,
        upload_url: urls.upload,
        event_source_url: urls.event_source,
        state: String::new(),
        extra_properties: Vec::new(),
    };
    proof {
        assert(session@.capabilities =~= spec_session_content(
            state.config.imap.email@,
            state.account_id@,
            state.account@,
            state.address@,
        ).capabilities);
        assert(session@.accounts =~= spec_session_content(
            state.config.imap.email@,
            state.account_id@,
            state.account@,
            state.address@,
        ).accounts);
        assert(session@.primary_accounts =~= Seq::<(Seq<char>, Seq<char>)>::empty());
        assert(session@.extra_properties =~= Seq::<(Seq<char>, Seq<char>)>::empty());
        assert(session@ =~= spec_session_content(
            state.config.imap.email@,
            state.account_id@,
            state.account@,
            state.address@,
        ));
    }
    session.compute_state()
}

} // verus!
