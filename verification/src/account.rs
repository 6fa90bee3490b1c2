//! The account model: the single mailbox exposed as a JMAP account, and the
//! type-tagged identifier bound to it.

use vstd::prelude::*;
use vstd::string::StringExecFns;
use crate::encoding::enc_bool;
use crate::encoding::enc_pair_list;
use crate::encoding::enc_str;
use crate::encoding::len_width;
use crate::encoding::lemma_enc_bool_peel;
use crate::encoding::lemma_enc_pair_list_peel;
use crate::encoding::lemma_enc_str_peel;
use crate::encoding::pairs_wf;
use crate::encoding::pow10;
use crate::encoding::push_enc_bool;
use crate::encoding::push_enc_pair_list;
use crate::encoding::push_enc_str;

verus! {

/// Opaque account identifier: a one-character type discriminator followed by
/// a randomly generated 128-bit value in text form. The nominal type keeps
/// account identifiers from being mixed with other identifier namespaces.
pub struct AccountId {
    pub value: String,
}

impl View for AccountId {
    type V = Seq<char>;

    open spec fn view(&self) -> Seq<char> {
        self.value@
    }
}

impl Clone for AccountId {
    fn clone(&self) -> (r: Self)
        ensures
            r@ == self@,
    {
        AccountId { value: self.value.clone() }
    }
}

/// One mailbox exposed as a JMAP account.
pub struct Account {
    pub name: String,
    pub is_personal: bool,
    pub is_read_only: bool,
    pub account_capabilities: Vec<(String, String)>,
}

#[verifier::ext_equal]
pub ghost struct AccountView {
    pub name: Seq<char>,
    pub is_personal: bool,
    pub is_read_only: bool,
    pub account_capabilities: Seq<(Seq<char>, Seq<char>)>,
}

impl View for Account {
    type V = AccountView;

    open spec fn view(&self) -> AccountView {
        AccountView {
            name: self.name@,
            is_personal: self.is_personal,
            is_read_only: self.is_read_only,
            account_capabilities: self.account_capabilities@.map_values(
                |p: (String, String)| (p.0@, p.1@),
            ),
        }
    }
}

impl Account {
    /// A new account; an absent capability mapping means no account-scoped
    /// capability detail is published.
    pub fn new(
        name: String,
        is_personal: bool,
        is_read_only: bool,
        account_capabilities: Option<Vec<(String, String)>>,
    ) -> (r: Self)
        ensures
            r@.name == name@,
            r@.is_personal == is_personal,
            r@.is_read_only == is_read_only,
            account_capabilities is Some ==> r.account_capabilities@
                == account_capabilities->Some_0@,
            account_capabilities is None ==> r@.account_capabilities
                == Seq::<(Seq<char>, Seq<char>)>::empty(),
    {
        let caps = match account_capabilities {
            Some(c) => c,
            None => Vec::new(),
        };
        let r = Account { name, is_personal, is_read_only, account_capabilities: caps };
        proof {
            if r.account_capabilities@.len() == 0 {
                assert(r@.account_capabilities =~= Seq::<(Seq<char>, Seq<char>)>::empty());
            }
        }
        r
    }

    /// A fresh identifier for an account: the fixed discriminator `'A'`
    /// followed by a newly generated random unique value. Uniqueness rests on
    /// the randomness of the underlying 128-bit value, not on a registry.
    pub fn generate_id() -> (r: AccountId)
        ensures
            r@.len() == 37,
            r@.first() == 'A',
    {
        let u = fresh_uuid_string();
        let tag = String::from_str("A");
        proof {
            reveal_strlit("A");
            assert(tag@ =~= seq!['A']);
        }
        let value = tag.concat(u.as_str());
        AccountId { value }
    }
}

impl Clone for Account {
    fn clone(&self) -> (r: Self)
        ensures
            r@ == self@,
    {
        let mut caps: Vec<(String, String)> = Vec::new();
        let mut i: usize = 0;
        while i < self.account_capabilities.len()
            invariant
                i <= self.account_capabilities.len(),
                caps@.len() == i,
                forall|j: int| 0 <= j < i ==> (#[trigger] caps@[j]).0@
                    == self.account_capabilities@[j].0@ && caps@[j].1@
                    == self.account_capabilities@[j].1@,
            decreases self.account_capabilities.len() - i,
        {
            let entry = (self.account_capabilities[i].0.clone(), self.account_capabilities[i].1.clone());
            caps.push(entry);
            i += 1;
        }
        let r = Account {
            name: self.name.clone(),
            is_personal: self.is_personal,
            is_read_only: self.is_read_only,
            account_capabilities: caps,
        };
        proof {
            assert(r@.account_capabilities =~= self@.account_capabilities);
            assert(r@ =~= self@);
        }
        r
    }
}

/// Relies on `uuid::Uuid::new_v4` and its `Display` rendering: a freshly
/// generated random (version 4) identifier in the 36-character hyphenated
/// lowercase form. The value is random, so nothing is stated of its content.
#[verifier::external_body]
fn fresh_uuid_string() -> (r: String)
    ensures
        r@.len() == 36,
{
    uuid::Uuid::new_v4().to_string()
}

/// Canonical encoding of an account: display name, the two policy flags, then
/// the account-scoped capability mapping.
pub open spec fn enc_account(a: AccountView) -> Seq<char> {
    enc_str(a.name) + (enc_bool(a.is_personal) + (enc_bool(a.is_read_only) + enc_pair_list(
        a.account_capabilities,
    )))
}

pub open spec fn account_wf(a: AccountView) -> bool {
    &&& a.name.len() < pow10(len_width())
    &&& a.account_capabilities.len() < pow10(len_width())
    &&& pairs_wf(a.account_capabilities)
}

/// The account encoding is self-delimiting.
pub proof fn lemma_enc_account_peel(a1: AccountView, r1: Seq<char>, a2: AccountView, r2: Seq<char>)
    requires
        account_wf(a1),
        account_wf(a2),
        enc_account(a1) + r1 == enc_account(a2) + r2,
    ensures
        a1 == a2,
        r1 == r2,
{
    let t1a = enc_bool(a1.is_personal) + (enc_bool(a1.is_read_only) + enc_pair_list(
        a1.account_capabilities,
    ));
    let t2a = enc_bool(a2.is_personal) + (enc_bool(a2.is_read_only) + enc_pair_list(
        a2.account_capabilities,
    ));
    assert((enc_str(a1.name) + t1a) + r1 =~= enc_str(a1.name) + (t1a + r1));
    assert((enc_str(a2.name) + t2a) + r2 =~= enc_str(a2.name) + (t2a + r2));
    lemma_enc_str_peel(a1.name, t1a + r1, a2.name, t2a + r2);
    let t1b = enc_bool(a1.is_read_only) + enc_pair_list(a1.account_capabilities);
    let t2b = enc_bool(a2.is_read_only) + enc_pair_list(a2.account_capabilities);
    assert((enc_bool(a1.is_personal) + t1b) + r1 =~= enc_bool(a1.is_personal) + (t1b + r1));
    assert((enc_bool(a2.is_personal) + t2b) + r2 =~= enc_bool(a2.is_personal) + (t2b + r2));
    lemma_enc_bool_peel(a1.is_personal, t1b + r1, a2.is_personal, t2b + r2);
    let t1c = enc_pair_list(a1.account_capabilities);
    let t2c = enc_pair_list(a2.account_capabilities);
    assert((enc_bool(a1.is_read_only) + t1c) + r1 =~= enc_bool(a1.is_read_only) + (t1c + r1));
    assert((enc_bool(a2.is_read_only) + t2c) + r2 =~= enc_bool(a2.is_read_only) + (t2c + r2));
    lemma_enc_bool_peel(a1.is_read_only, t1c + r1, a2.is_read_only, t2c + r2);
    lemma_enc_pair_list_peel(a1.account_capabilities, r1, a2.account_capabilities, r2);
}

/// Appends the canonical encoding of an account.
pub fn push_enc_account(out: &mut String, a: &Account)
    ensures
        final(out)@ == old(out)@ + enc_account(a@),
{
    push_enc_str(out, a.name.as_str());
    push_enc_bool(out, a.is_personal);
    push_enc_bool(out, a.is_read_only);
    push_enc_pair_list(out, &a.account_capabilities);
    proof {
        assert(out@ =~= old(out)@ + enc_account(a@));
    }
}

} // verus!
