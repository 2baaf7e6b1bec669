//! Selection between the sandbox and the production gateway.

use vstd::prelude::*;

verus! {

/// Merchant ids that are routed to the sandbox gateway.
pub open spec fn is_sandbox(merchant_id: Seq<char>) -> bool {
    merchant_id == "SC-scnet"@ || merchant_id == "TEST"@
}

/// The prefix to which a reference is appended to fetch a purchase.
pub open spec fn spec_fetch_base(merchant_id: Seq<char>) -> Seq<char> {
    if is_sandbox(merchant_id) {
        "https://gateway.pmnts-sandbox.io/v1.0/purchases/"@
    } else {
        "https://gateway.pmnts.io/v1.0/purchases/"@
    }
}

/// The prefix to which an internal id is appended to void a purchase.
pub open spec fn spec_void_base(merchant_id: Seq<char>) -> Seq<char> {
    if is_sandbox(merchant_id) {
        "https://gateway.pmnts-sandbox.io/v1.0/purchases/void?id="@
    } else {
        "https://gateway.pmnts.io/v1.0/purchases/void?id="@
    }
}

/// The four URL prefixes of the gateway.
pub struct Url {
    pub sandbox_fetch_url: String,
    pub production_fetch_url: String,
    pub sandbox_void_url: String,
    pub production_void_url: String,
}

impl Url {
    /// The prefixes hold the gateway's published addresses.
    pub open spec fn is_standard(&self) -> bool {
        &&& self.sandbox_fetch_url@ == "https://gateway.pmnts-sandbox.io/v1.0/purchases/"@
        &&& self.production_fetch_url@ == "https://gateway.pmnts.io/v1.0/purchases/"@
        &&& self.sandbox_void_url@ == "https://gateway.pmnts-sandbox.io/v1.0/purchases/void?id="@
        &&& self.production_void_url@ == "https://gateway.pmnts.io/v1.0/purchases/void?id="@
    }

    pub fn new() -> (r: Self)
        ensures
            r.is_standard(),
    {
        Self::default()
    }

    /// The fetch prefix for `merchant_id`: sandbox for the sandbox ids,
    /// production for every other id.
    pub fn get_fetch_url(self, merchant_id: &String) -> (r: String)
        ensures
            r@ == (if is_sandbox(merchant_id@) {
                self.sandbox_fetch_url@
            } else {
                self.production_fetch_url@
            }),
    {
        if is_sandbox_id(merchant_id) {
            self.sandbox_fetch_url
        } else {
            self.production_fetch_url
        }
    }

    /// The void prefix for `merchant_id`: sandbox for the sandbox ids,
    /// production for every other id.
    pub fn get_void_url(self, merchant_id: &String) -> (r: String)
        ensures
            r@ == (if is_sandbox(merchant_id@) {
                self.sandbox_void_url@
            } else {
                self.production_void_url@
            }),
    {
        if is_sandbox_id(merchant_id) {
            self.sandbox_void_url
        } else {
            self.production_void_url
        }
    }
}

impl Default for Url {
    fn default() -> (r: Self)
        ensures
            r.is_standard(),
    {
        Url {
            sandbox_fetch_url: String::from_str("https://gateway.pmnts-sandbox.io/v1.0/purchases/"),
            production_fetch_url: String::from_str("https://gateway.pmnts.io/v1.0/purchases/"),
            sandbox_void_url: String::from_str(
                "https://gateway.pmnts-sandbox.io/v1.0/purchases/void?id=",
            ),
            production_void_url: String::from_str("https://gateway.pmnts.io/v1.0/purchases/void?id="),
        }
    }
}

/// Exact, case-sensitive test of a merchant id against the sandbox ids.
pub fn is_sandbox_id(merchant_id: &String) -> (r: bool)
    ensures
        r == is_sandbox(merchant_id@),
{
    let scnet = String::from_str("SC-scnet");
    let test = String::from_str("TEST");
    *merchant_id == scnet || *merchant_id == test
}

/// The fetch prefix of the gateway that serves `merchant_id`.
pub fn fetch_base(merchant_id: &String) -> (r: String)
    ensures
        r@ == spec_fetch_base(merchant_id@),
{
    Url::new().get_fetch_url(merchant_id)
}

/// The void prefix of the gateway that serves `merchant_id`.
pub fn void_base(merchant_id: &String) -> (r: String)
    ensures
        r@ == spec_void_base(merchant_id@),
{
    Url::new().get_void_url(merchant_id)
}

/// The URL that fetches the purchase `reference`, appended verbatim.
pub fn fetch_url(merchant_id: &String, reference: &String) -> (r: String)
    ensures
        r@ == spec_fetch_base(merchant_id@) + reference@,
{
    fetch_base(merchant_id).concat(reference.as_str())
}

/// The URL that voids the purchase with internal id `id`, appended verbatim.
pub fn void_url(merchant_id: &String, id: &String) -> (r: String)
    ensures
        r@ == spec_void_base(merchant_id@) + id@,
{
    void_base(merchant_id).concat(id.as_str())
}

/// Every merchant id outside the sandbox set is served by the production
/// host: both prefixes begin with `https://gateway.pmnts.io/`.
pub proof fn lemma_production_host(merchant_id: Seq<char>)
    requires
        !is_sandbox(merchant_id),
    ensures
        "https://gateway.pmnts.io/"@.is_prefix_of(spec_fetch_base(merchant_id)),
        "https://gateway.pmnts.io/"@.is_prefix_of(spec_void_base(merchant_id)),
{
    reveal_strlit("https://gateway.pmnts.io/");
    reveal_strlit("https://gateway.pmnts.io/v1.0/purchases/");
    reveal_strlit("https://gateway.pmnts.io/v1.0/purchases/void?id=");
}

} // verus!
