use vstd::prelude::*;

verus! {

/// Posts every alert, as a JSON document, to the webhook at `url`.
pub struct WebhookCaller {
    pub url: String,
}

} // verus!
