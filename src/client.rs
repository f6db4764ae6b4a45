use vstd::prelude::*;

use crate::error::ConfigError;
use crate::headers::{
    find_invalid, first_invalid, header_value, value_sendable, lemma_merge_keeps_authorization,
    merge, merge_headers, pairs_of, put_header, replace_or_push, valid_value, valid_value_char,
    Header, HeaderPair, ACCEPT, AUTHORIZATION, CONTENT_TYPE, JSON,
};
use crate::request::{ApiRequest, Method, RequestModel};

verus! {

/// A client of the API, holding the key that authenticates it.
pub struct SellAppClient {
    api_key: String,
}

impl View for SellAppClient {
    type V = Seq<char>;

    /// The API key.
    closed spec fn view(&self) -> Seq<char> {
        self.api_key@
    }
}

/// The value of the authorization header for `key`.
pub open spec fn bearer(key: Seq<char>) -> Seq<char> {
    "Bearer "@ + key
}

/// The authorization header for `key`.
pub open spec fn auth_header(key: Seq<char>) -> HeaderPair {
    (AUTHORIZATION@, bearer(key))
}

/// The headers that an operation adds: it accepts JSON, and says that its body
/// is JSON where it has one.
pub open spec fn operation_headers(has_body: bool) -> Seq<HeaderPair> {
    if has_body {
        seq![(ACCEPT@, JSON@), (CONTENT_TYPE@, JSON@)]
    } else {
        seq![(ACCEPT@, JSON@)]
    }
}

/// The headers of a request made with `key`: the operation's headers merged
/// onto the authorization header.
pub open spec fn request_headers(key: Seq<char>, has_body: bool) -> Seq<HeaderPair> {
    merge_headers(seq![auth_header(key)], operation_headers(has_body))
}

/// The request that an operation builds with `key`, when every header value
/// can be sent.
pub open spec fn expected_request(
    key: Seq<char>,
    method: Method,
    path: Seq<char>,
    body: Option<Seq<char>>,
) -> RequestModel {
    RequestModel { method, path, headers: request_headers(key, body is Some), body }
}

/// `r` is what an operation returns with `key`. Where every character of the
/// key is a tab or lies from 32 to 126, it is the expected request, which
/// carries `Authorization: Bearer <key>`, and `Content-Type: application/json`
/// exactly when it has a body. Otherwise it is an error naming the
/// authorization header.
pub open spec fn built(
    key: Seq<char>,
    r: Result<ApiRequest, ConfigError>,
    method: Method,
    path: Seq<char>,
    body: Option<Seq<char>>,
) -> bool {
    if valid_value(key) {
        &&& r matches Ok(q)
        &&& q@ == expected_request(key, method, path, body)
        &&& header_value(q@.headers, AUTHORIZATION@) == Some(bearer(key))
        &&& header_value(q@.headers, CONTENT_TYPE@) == (if body is Some {
            Some(JSON@)
        } else {
            None::<Seq<char>>
        })
    } else {
        r matches Err(e) && e@ == AUTHORIZATION@
    }
}

proof fn lemma_first_invalid_cons(h: HeaderPair, rest: Seq<HeaderPair>)
    ensures
        first_invalid(seq![h] + rest) == (if !valid_value(h.1) {
            Some(h.0)
        } else {
            first_invalid(rest)
        }),
{
    assert((seq![h] + rest).drop_first() =~= rest);
}

/// Makes a client that authenticates with `api_key`.
pub fn init(api_key: &str) -> (r: SellAppClient)
    ensures
        r@ == api_key@,
{
    SellAppClient { api_key: String::from_str(api_key) }
}

impl SellAppClient {
    /// The headers of a request: the authorization header, with `extra` merged
    /// onto it. Every value is checked first, the authorization header's first.
    fn generate_headers(&self, extra: Vec<Header>) -> (r: Result<Vec<Header>, ConfigError>)
        ensures
            match first_invalid(seq![auth_header(self@)] + pairs_of(extra@)) {
                None => r matches Ok(hs) && pairs_of(hs@) == merge_headers(
                    seq![auth_header(self@)],
                    pairs_of(extra@),
                ),
                Some(name) => r matches Err(e) && e@ == name,
            },
            r matches Ok(hs) ==> header_value(pairs_of(hs@), AUTHORIZATION@) == Some(
                bearer(self@),
            ),
    {
        proof {
            lemma_first_invalid_cons(auth_header(self@), pairs_of(extra@));
            lemma_merge_keeps_authorization(seq![auth_header(self@)], pairs_of(extra@));
        }
        let mut value = String::from_str("Bearer ");
        value.append(self.api_key.as_str());
        if !value_sendable(value.as_str()) {
            return Err(ConfigError { header: String::from_str(AUTHORIZATION) });
        }
        match find_invalid(&extra) {
            Some(i) => {
                return Err(ConfigError { header: extra[i].name.clone() });
            },
            None => {},
        }
        let mut hs: Vec<Header> = Vec::new();
        hs.push(Header { name: String::from_str(AUTHORIZATION), value });
        assert(pairs_of(hs@) =~= seq![auth_header(self@)]);
        merge(&mut hs, extra);
        Ok(hs)
    }

    /// The request of an operation without a body.
    fn prepare_request(&self, path: String, method: Method) -> (r: Result<ApiRequest, ConfigError>)
        ensures
            built(self@, r, method, path@, None),
    {
        let mut extra: Vec<Header> = Vec::new();
        extra.push(Header::new(ACCEPT, JSON));
        assert(pairs_of(extra@) =~= operation_headers(false));
        proof {
            lemma_config_error_iff_key_invalid(self@, false);
            lemma_request_authorized(self@, method, path@, None);
            lemma_content_type_iff_body(self@, method, path@, None);
        }
        match self.generate_headers(extra) {
            Ok(headers) => Ok(ApiRequest { method, path, headers, body: None }),
            Err(e) => Err(e),
        }
    }

    /// The request of an operation that sends `body`, which is JSON text.
    fn prepare_request_with_body(&self, path: String, method: Method, body: String) -> (r: Result<
        ApiRequest,
        ConfigError,
    >)
        ensures
            built(self@, r, method, path@, Some(body@)),
    {
        let mut extra: Vec<Header> = Vec::new();
        extra.push(Header::new(ACCEPT, JSON));
        extra.push(Header::new(CONTENT_TYPE, JSON));
        assert(pairs_of(extra@) =~= operation_headers(true));
        proof {
            lemma_config_error_iff_key_invalid(self@, true);
            lemma_request_authorized(self@, method, path@, Some(body@));
            lemma_content_type_iff_body(self@, method, path@, Some(body@));
        }
        match self.generate_headers(extra) {
            Ok(headers) => Ok(ApiRequest { method, path, headers, body: Some(body) }),
            Err(e) => Err(e),
        }
    }

    /// Fetch all of your blacklist rules.
    ///
    /// ``url_params``: Optional attributes to append to the request URL, e.g. **"?limit=50&page=1"**
    ///
    /// `GET v1/blacklists{url_params}`
    pub fn blacklist_list_all_rules(&self, url_params: &str) -> (r: Result<ApiRequest, ConfigError>)
        ensures
            built(self@, r, Method::Get, "v1/blacklists"@ + url_params@, None),
    {
        let mut path = String::from_str("v1/blacklists");
        path.append(url_params);
        self.prepare_request(path, Method::Get)
    }

    /// Create a new blacklist rule.
    ///
    /// ``data``: JSON with the attributes of the new rule, required.
    ///
    /// `POST v1/blacklists`
    pub fn blacklist_create_rule(&self, data: String) -> (r: Result<ApiRequest, ConfigError>)
        ensures
            built(self@, r, Method::Post, "v1/blacklists"@, Some(data@)),
    {
        let path = String::from_str("v1/blacklists");
        self.prepare_request_with_body(path, Method::Post, data)
    }

    /// Get a blacklist rule by ID.
    ///
    /// ``rule_id``: The ID of the rule you want to fetch, required.
    ///
    /// `GET v1/blacklists/{rule_id}`
    pub fn blacklist_get_rule(&self, rule_id: String) -> (r: Result<ApiRequest, ConfigError>)
        ensures
            built(self@, r, Method::Get, "v1/blacklists/"@ + rule_id@, None),
    {
        let mut path = String::from_str("v1/blacklists/");
        path.append(rule_id.as_str());
        self.prepare_request(path, Method::Get)
    }

    /// Update a blacklist rule by ID.
    ///
    /// ``rule_id``: The ID of the rule you want to update, required.
    ///
    /// ``data``: JSON with the updated attributes of the rule, required.
    ///
    /// `PATCH v1/blacklists/{rule_id}`
    pub fn blacklist_update_rule(&self, rule_id: String, data: String) -> (r: Result<ApiRequest, ConfigError>)
        ensures
            built(self@, r, Method::Patch, "v1/blacklists/"@ + rule_id@, Some(data@)),
    {
        let mut path = String::from_str("v1/blacklists/");
        path.append(rule_id.as_str());
        self.prepare_request_with_body(path, Method::Patch, data)
    }

    /// Delete a blacklist rule by ID.
    ///
    /// ``rule_id``: The ID of the rule you want to delete, required.
    ///
    /// `DELETE v1/blacklists/{rule_id}`
    pub fn blacklist_delete_rule(&self, rule_id: String) -> (r: Result<ApiRequest, ConfigError>)
        ensures
            built(self@, r, Method::Delete, "v1/blacklists/"@ + rule_id@, None),
    {
        let mut path = String::from_str("v1/blacklists/");
        path.append(rule_id.as_str());
        self.prepare_request(path, Method::Delete)
    }

    /// Get all existing coupons.
    ///
    /// ``url_params``: Optional attributes to append to the request URL, e.g. **"?limit=50&with_trashed=false"**
    ///
    /// `GET v1/coupons{url_params}`
    pub fn coupons_list_all(&self, url_params: &str) -> (r: Result<ApiRequest, ConfigError>)
        ensures
            built(self@, r, Method::Get, "v1/coupons"@ + url_params@, None),
    {
        let mut path = String::from_str("v1/coupons");
        path.append(url_params);
        self.prepare_request(path, Method::Get)
    }

    /// Create a new coupon.
    ///
    /// ``data``: JSON with the attributes of the new coupon, required.
    ///
    /// `POST v1/coupons`
    pub fn coupons_create(&self, data: String) -> (r: Result<ApiRequest, ConfigError>)
        ensures
            built(self@, r, Method::Post, "v1/coupons"@, Some(data@)),
    {
        let path = String::from_str("v1/coupons");
        self.prepare_request_with_body(path, Method::Post, data)
    }

    /// Get a coupon by ID.
    ///
    /// ``coupon_id``: The ID of the coupon you want to fetch, required.
    ///
    /// `GET v1/coupons/{coupon_id}`
    pub fn coupons_get(&self, coupon_id: String) -> (r: Result<ApiRequest, ConfigError>)
        ensures
            built(self@, r, Method::Get, "v1/coupons/"@ + coupon_id@, None),
    {
        let mut path = String::from_str("v1/coupons/");
        path.append(coupon_id.as_str());
        self.prepare_request(path, Method::Get)
    }

    /// Update a coupon by ID.
    ///
    /// ``coupon_id``: The ID of the coupon you want to update, required.
    ///
    /// ``data``: JSON with the updated attributes of the coupon, required.
    ///
    /// `PATCH v1/coupons/{coupon_id}`
    pub fn coupons_update(&self, coupon_id: String, data: String) -> (r: Result<ApiRequest, ConfigError>)
        ensures
            built(self@, r, Method::Patch, "v1/coupons/"@ + coupon_id@, Some(data@)),
    {
        let mut path = String::from_str("v1/coupons/");
        path.append(coupon_id.as_str());
        self.prepare_request_with_body(path, Method::Patch, data)
    }

    /// Delete a coupon by ID.
    ///
    /// ``coupon_id``: The ID of the coupon you want to delete, required.
    ///
    /// `DELETE v1/coupons/{coupon_id}`
    pub fn coupons_delete(&self, coupon_id: String) -> (r: Result<ApiRequest, ConfigError>)
        ensures
            built(self@, r, Method::Delete, "v1/coupons/"@ + coupon_id@, None),
    {
        let mut path = String::from_str("v1/coupons/");
        path.append(coupon_id.as_str());
        self.prepare_request(path, Method::Delete)
    }

    /// Get all feedback (reviews).
    ///
    /// ``url_params``: Optional attributes to append to the request URL, e.g. **"?limit=50&page=1"**
    ///
    /// `GET v1/feedback{url_params}`
    pub fn feedback_list_all(&self, url_params: &str) -> (r: Result<ApiRequest, ConfigError>)
        ensures
            built(self@, r, Method::Get, "v1/feedback"@ + url_params@, None),
    {
        let mut path = String::from_str("v1/feedback");
        path.append(url_params);
        self.prepare_request(path, Method::Get)
    }

    /// Get specific feedback by ID.
    ///
    /// ``feedback_id``: The ID of the feedback you want to fetch, required.
    ///
    /// `GET v1/feedback/{feedback_id}`
    pub fn feedback_get(&self, feedback_id: String) -> (r: Result<ApiRequest, ConfigError>)
        ensures
            built(self@, r, Method::Get, "v1/feedback/"@ + feedback_id@, None),
    {
        let mut path = String::from_str("v1/feedback/");
        path.append(feedback_id.as_str());
        self.prepare_request(path, Method::Get)
    }

    /// Reply to specific feedback by ID.
    ///
    /// ``feedback_id``: The ID of the feedback you want to reply to, required.
    ///
    /// ``data``: JSON with the reply, required.
    ///
    /// `PATCH v1/feedback/{feedback_id}`
    pub fn feedback_reply(&self, feedback_id: String, data: String) -> (r: Result<ApiRequest, ConfigError>)
        ensures
            built(self@, r, Method::Patch, "v1/feedback/"@ + feedback_id@, Some(data@)),
    {
        let mut path = String::from_str("v1/feedback/");
        path.append(feedback_id.as_str());
        self.prepare_request_with_body(path, Method::Patch, data)
    }

    /// Get all existing product groups.
    ///
    /// ``url_params``: Optional attributes to append to the request URL, e.g. **"?limit=50&page=1"**
    ///
    /// `GET v2/groups{url_params}`
    pub fn groups_list_all(&self, url_params: &str) -> (r: Result<ApiRequest, ConfigError>)
        ensures
            built(self@, r, Method::Get, "v2/groups"@ + url_params@, None),
    {
        let mut path = String::from_str("v2/groups");
        path.append(url_params);
        self.prepare_request(path, Method::Get)
    }

    /// Create a product group.
    ///
    /// ``data``: JSON with the attributes of the group, required.
    ///
    /// `POST v2/groups`
    pub fn groups_create(&self, data: String) -> (r: Result<ApiRequest, ConfigError>)
        ensures
            built(self@, r, Method::Post, "v2/groups"@, Some(data@)),
    {
        let path = String::from_str("v2/groups");
        self.prepare_request_with_body(path, Method::Post, data)
    }

    /// Get specific product group by ID.
    ///
    /// ``group_id``: The ID of the group you want to fetch, required.
    ///
    /// `GET v2/groups/{group_id}`
    pub fn groups_get(&self, group_id: String) -> (r: Result<ApiRequest, ConfigError>)
        ensures
            built(self@, r, Method::Get, "v2/groups/"@ + group_id@, None),
    {
        let mut path = String::from_str("v2/groups/");
        path.append(group_id.as_str());
        self.prepare_request(path, Method::Get)
    }

    /// Update a specific product group by ID.
    ///
    /// ``group_id``: The ID of the group you want to update, required.
    ///
    /// ``data``: JSON with the updated attributes, required.
    ///
    /// `PATCH v2/groups/{group_id}`
    pub fn groups_update(&self, group_id: String, data: String) -> (r: Result<ApiRequest, ConfigError>)
        ensures
            built(self@, r, Method::Patch, "v2/groups/"@ + group_id@, Some(data@)),
    {
        let mut path = String::from_str("v2/groups/");
        path.append(group_id.as_str());
        self.prepare_request_with_body(path, Method::Patch, data)
    }

    /// Delete a product group by ID.
    ///
    /// ``group_id``: The ID of the group you want to delete, required.
    ///
    /// `DELETE v2/groups/{group_id}`
    pub fn groups_delete(&self, group_id: String) -> (r: Result<ApiRequest, ConfigError>)
        ensures
            built(self@, r, Method::Delete, "v2/groups/"@ + group_id@, None),
    {
        let mut path = String::from_str("v2/groups/");
        path.append(group_id.as_str());
        self.prepare_request(path, Method::Delete)
    }

    /// Add products to an existing product group.
    ///
    /// ``group_id``: The ID of the group you want to add products to, required.
    ///
    /// ``data``: JSON with the product ID's you want to add, required.
    ///
    /// `POST v2/groups/{group_id}/products/attach`
    pub fn groups_add_products(&self, group_id: String, data: String) -> (r: Result<ApiRequest, ConfigError>)
        ensures
            built(self@, r, Method::Post, "v2/groups/"@ + group_id@ + "/products/attach"@, Some(data@)),
    {
        let mut path = String::from_str("v2/groups/");
        path.append(group_id.as_str());
        path.append("/products/attach");
        self.prepare_request_with_body(path, Method::Post, data)
    }

    /// Remove products from an existing product group.
    ///
    /// ``group_id``: The ID of the group you want to remove products from, required.
    ///
    /// ``data``: JSON with the product ID's you want to remove, required.
    ///
    /// `DELETE v2/groups/{group_id}/products/detach`
    pub fn groups_remove_products(&self, group_id: String, data: String) -> (r: Result<ApiRequest, ConfigError>)
        ensures
            built(self@, r, Method::Delete, "v2/groups/"@ + group_id@ + "/products/detach"@, Some(data@)),
    {
        let mut path = String::from_str("v2/groups/");
        path.append(group_id.as_str());
        path.append("/products/detach");
        self.prepare_request_with_body(path, Method::Delete, data)
    }

    /// Get all products within a product group.
    ///
    /// ``group_id``: The ID of the group you want to list the products from, required.
    ///
    /// ``url_params``: Optional attributes to append to the request URL, e.g. **"?limit=50&page=1"**
    ///
    /// `GET v2/groups/{group_id}/products{url_params}`
    pub fn groups_list_products(&self, group_id: String, url_params: &str) -> (r: Result<ApiRequest, ConfigError>)
        ensures
            built(self@, r, Method::Get, "v2/groups/"@ + group_id@ + "/products"@ + url_params@, None),
    {
        let mut path = String::from_str("v2/groups/");
        path.append(group_id.as_str());
        path.append("/products");
        path.append(url_params);
        self.prepare_request(path, Method::Get)
    }

    /// Get a specific product within a product group.
    ///
    /// ``group_id``: The ID of the group you want to get the product from, required.
    ///
    /// ``product_id``: The ID of the product you want to fetch, required.
    ///
    /// `GET v2/groups/{group_id}/products/{product_id}`
    pub fn groups_get_product(&self, group_id: String, product_id: String) -> (r: Result<ApiRequest, ConfigError>)
        ensures
            built(self@, r, Method::Get, "v2/groups/"@ + group_id@ + "/products/"@ + product_id@, None),
    {
        let mut path = String::from_str("v2/groups/");
        path.append(group_id.as_str());
        path.append("/products/");
        path.append(product_id.as_str());
        self.prepare_request(path, Method::Get)
    }

    /// Get all existing invoices (orders).
    ///
    /// ``url_params``: Optional attributes to append to the request URL, e.g. **"?limit=50&page=1"**
    ///
    /// `GET v2/invoices{url_params}`
    pub fn invoices_list_all(&self, url_params: &str) -> (r: Result<ApiRequest, ConfigError>)
        ensures
            built(self@, r, Method::Get, "v2/invoices"@ + url_params@, None),
    {
        let mut path = String::from_str("v2/invoices");
        path.append(url_params);
        self.prepare_request(path, Method::Get)
    }

    /// Create a new invoice for a customer.
    ///
    /// ``data``: JSON with the invoice data, required.
    ///
    /// `POST v2/invoices`
    pub fn invoices_create(&self, data: String) -> (r: Result<ApiRequest, ConfigError>)
        ensures
            built(self@, r, Method::Post, "v2/invoices"@, Some(data@)),
    {
        let path = String::from_str("v2/invoices");
        self.prepare_request_with_body(path, Method::Post, data)
    }

    /// Get specific invoice by ID.
    ///
    /// ``invoice_id``: The ID of the invoice you want to fetch, required.
    ///
    /// `GET v2/invoices/{invoice_id}`
    pub fn invoices_get(&self, invoice_id: String) -> (r: Result<ApiRequest, ConfigError>)
        ensures
            built(self@, r, Method::Get, "v2/invoices/"@ + invoice_id@, None),
    {
        let mut path = String::from_str("v2/invoices/");
        path.append(invoice_id.as_str());
        self.prepare_request(path, Method::Get)
    }

    /// Start a checkout session for a speficic invoice.
    ///
    /// ``invoice_id``: The ID of the invoice you want to start checkout for, required.
    ///
    /// `POST v2/invoices/{invoice_id}/checkout`
    pub fn invoices_checkout(&self, invoice_id: String) -> (r: Result<ApiRequest, ConfigError>)
        ensures
            built(self@, r, Method::Post, "v2/invoices/"@ + invoice_id@ + "/checkout"@, None),
    {
        let mut path = String::from_str("v2/invoices/");
        path.append(invoice_id.as_str());
        path.append("/checkout");
        self.prepare_request(path, Method::Post)
    }

    /// Get the deliverables included in a specific invoice.
    ///
    /// ``invoice_id``: The ID of the invoice you want to get the items for, required.
    ///
    /// `GET v2/invoices/{invoice_id}/deliverables`
    pub fn invoices_get_items(&self, invoice_id: String) -> (r: Result<ApiRequest, ConfigError>)
        ensures
            built(self@, r, Method::Get, "v2/invoices/"@ + invoice_id@ + "/deliverables"@, None),
    {
        let mut path = String::from_str("v2/invoices/");
        path.append(invoice_id.as_str());
        path.append("/deliverables");
        self.prepare_request(path, Method::Get)
    }

    /// **Note: SellApp automatically marks payments as completed, you shouldn't need to call this.**
    ///
    /// Mark a specific (pending) invoice as completed.
    ///
    /// ``invoice_id``: The ID of the invoice you want to set as completed, required.
    ///
    /// `PATCH v2/invoices/{invoice_id}/mark-completed`
    pub fn invoices_mark_completed(&self, invoice_id: String) -> (r: Result<ApiRequest, ConfigError>)
        ensures
            built(self@, r, Method::Patch, "v2/invoices/"@ + invoice_id@ + "/mark-completed"@, None),
    {
        let mut path = String::from_str("v2/invoices/");
        path.append(invoice_id.as_str());
        path.append("/mark-completed");
        self.prepare_request(path, Method::Patch)
    }

    /// Mark a specific (pending) invoice as voided.
    ///
    /// ``invoice_id``: The ID of the invoice you want to set as voided, required.
    ///
    /// `PATCH v2/invoices/{invoice_id}/mark-voided`
    pub fn invoices_mark_voided(&self, invoice_id: String) -> (r: Result<ApiRequest, ConfigError>)
        ensures
            built(self@, r, Method::Patch, "v2/invoices/"@ + invoice_id@ + "/mark-voided"@, None),
    {
        let mut path = String::from_str("v2/invoices/");
        path.append(invoice_id.as_str());
        path.append("/mark-voided");
        self.prepare_request(path, Method::Patch)
    }

    /// Issue a replacement for a specific invoice.
    ///
    /// ``invoice_id``: The ID of the invoice you want to issue a replacement for, required.
    ///
    /// ``data``: JSON with the product variant ID's to get the replacements from.
    ///
    /// `PATCH v2/invoices/{invoice_id}/issue-replacement`
    pub fn invoices_issue_replacement(&self, invoice_id: String, data: String) -> (r: Result<ApiRequest, ConfigError>)
        ensures
            built(self@, r, Method::Patch, "v2/invoices/"@ + invoice_id@ + "/issue-replacement"@, Some(data@)),
    {
        let mut path = String::from_str("v2/invoices/");
        path.append(invoice_id.as_str());
        path.append("/issue-replacement");
        self.prepare_request_with_body(path, Method::Patch, data)
    }

    /// Get all existing products.
    ///
    /// ``url_params``: Optional attributes to append to the request URL, e.g. **"?limit=50&page=1"**
    ///
    /// `GET v2/products{url_params}`
    pub fn products_list_all(&self, url_params: &str) -> (r: Result<ApiRequest, ConfigError>)
        ensures
            built(self@, r, Method::Get, "v2/products"@ + url_params@, None),
    {
        let mut path = String::from_str("v2/products");
        path.append(url_params);
        self.prepare_request(path, Method::Get)
    }

    /// Create a new product. Support for uploading images is WIP.
    ///
    /// ``data``: JSON with the attributes of the product, required.
    ///
    /// `POST v2/products`
    pub fn products_create(&self, data: String) -> (r: Result<ApiRequest, ConfigError>)
        ensures
            built(self@, r, Method::Post, "v2/products"@, Some(data@)),
    {
        let path = String::from_str("v2/products");
        self.prepare_request_with_body(path, Method::Post, data)
    }

    /// Get a specific product by ID.
    ///
    /// ``product_id``: The ID of the product you want to fetch, required.
    ///
    /// `GET v2/products/{product_id}`
    pub fn products_get(&self, product_id: String) -> (r: Result<ApiRequest, ConfigError>)
        ensures
            built(self@, r, Method::Get, "v2/products/"@ + product_id@, None),
    {
        let mut path = String::from_str("v2/products/");
        path.append(product_id.as_str());
        self.prepare_request(path, Method::Get)
    }

    /// Update a specific product.
    ///
    /// ``product_id``: The ID of the product you want to update, required.
    ///
    /// ``data``: JSON with the new product attributes, required.
    ///
    /// `PATCH v2/products/{product_id}`
    pub fn products_update(&self, product_id: String, data: String) -> (r: Result<ApiRequest, ConfigError>)
        ensures
            built(self@, r, Method::Patch, "v2/products/"@ + product_id@, Some(data@)),
    {
        let mut path = String::from_str("v2/products/");
        path.append(product_id.as_str());
        self.prepare_request_with_body(path, Method::Patch, data)
    }

    /// Delete a specific product.
    ///
    /// ``product_id``: The ID of the product you want to delete, required.
    ///
    /// `DELETE v2/products/{product_id}`
    pub fn products_delete(&self, product_id: String) -> (r: Result<ApiRequest, ConfigError>)
        ensures
            built(self@, r, Method::Delete, "v2/products/"@ + product_id@, None),
    {
        let mut path = String::from_str("v2/products/");
        path.append(product_id.as_str());
        self.prepare_request(path, Method::Delete)
    }

    /// Get all existing product variants.
    ///
    /// ``product_id``: The ID of the product you want to get the variants of, required.
    ///
    /// ``url_params``: Optional attributes to append to the request URL, e.g. **"?limit=50&page=1"**
    ///
    /// `GET v2/products/{product_id}/variants{url_params}`
    pub fn variants_list_all(&self, product_id: String, url_params: &str) -> (r: Result<ApiRequest, ConfigError>)
        ensures
            built(self@, r, Method::Get, "v2/products/"@ + product_id@ + "/variants"@ + url_params@, None),
    {
        let mut path = String::from_str("v2/products/");
        path.append(product_id.as_str());
        path.append("/variants");
        path.append(url_params);
        self.prepare_request(path, Method::Get)
    }

    /// Create a new product variant.
    ///
    /// ``product_id``: The ID of the product you want to add a new variant to, required.
    ///
    /// ``data``: JSON with the attributes of the variant, required.
    ///
    /// `POST v2/products/{product_id}/variants`
    pub fn variants_create(&self, product_id: String, data: String) -> (r: Result<ApiRequest, ConfigError>)
        ensures
            built(self@, r, Method::Post, "v2/products/"@ + product_id@ + "/variants"@, Some(data@)),
    {
        let mut path = String::from_str("v2/products/");
        path.append(product_id.as_str());
        path.append("/variants");
        self.prepare_request_with_body(path, Method::Post, data)
    }

    /// Get a specific variant of a specific product.
    ///
    /// ``product_id``: The ID of the product, required.
    ///
    /// ``variant_id``: The ID of the variant you want to fetch, required.
    ///
    /// `GET v2/products/{product_id}/variants/{variant_id}`
    pub fn variants_get(&self, product_id: String, variant_id: String) -> (r: Result<ApiRequest, ConfigError>)
        ensures
            built(self@, r, Method::Get, "v2/products/"@ + product_id@ + "/variants/"@ + variant_id@, None),
    {
        let mut path = String::from_str("v2/products/");
        path.append(product_id.as_str());
        path.append("/variants/");
        path.append(variant_id.as_str());
        self.prepare_request(path, Method::Get)
    }

    /// Update a specific variant of a specific product.
    ///
    /// ``product_id``: The ID of the product, required.
    ///
    /// ``variant_id``: The ID of the variant you want to update, required.
    ///
    /// ``data``: JSON with the new variant attributes, required.
    ///
    /// `PATCH v2/products/{product_id}/variants/{variant_id}`
    pub fn variants_update(&self, product_id: String, variant_id: String, data: String) -> (r: Result<ApiRequest, ConfigError>)
        ensures
            built(self@, r, Method::Patch, "v2/products/"@ + product_id@ + "/variants/"@ + variant_id@, Some(data@)),
    {
        let mut path = String::from_str("v2/products/");
        path.append(product_id.as_str());
        path.append("/variants/");
        path.append(variant_id.as_str());
        self.prepare_request_with_body(path, Method::Patch, data)
    }

    /// Delete a specific product variant.
    ///
    /// ``product_id``: The ID of the product, required.
    ///
    /// ``variant_id``: The ID of the variant you want to delete, required.
    ///
    /// `DELETE v2/products/{product_id}/variants/{variant_id}`
    pub fn variants_delete(&self, product_id: String, variant_id: String) -> (r: Result<ApiRequest, ConfigError>)
        ensures
            built(self@, r, Method::Delete, "v2/products/"@ + product_id@ + "/variants/"@ + variant_id@, None),
    {
        let mut path = String::from_str("v2/products/");
        path.append(product_id.as_str());
        path.append("/variants/");
        path.append(variant_id.as_str());
        self.prepare_request(path, Method::Delete)
    }

    /// Get all existing sections.
    ///
    /// ``url_params``: Optional attributes to append to the request URL, e.g. **"?limit=50&page=1"**
    ///
    /// `GET v1/sections{url_params}`
    pub fn sections_list_all(&self, url_params: &str) -> (r: Result<ApiRequest, ConfigError>)
        ensures
            built(self@, r, Method::Get, "v1/sections"@ + url_params@, None),
    {
        let mut path = String::from_str("v1/sections");
        path.append(url_params);
        self.prepare_request(path, Method::Get)
    }

    /// Create a new section.
    ///
    /// ``data``: JSON with the attributes of the secton, required.
    ///
    /// `POST v1/sections`
    pub fn sections_create(&self, data: String) -> (r: Result<ApiRequest, ConfigError>)
        ensures
            built(self@, r, Method::Post, "v1/sections"@, Some(data@)),
    {
        let path = String::from_str("v1/sections");
        self.prepare_request_with_body(path, Method::Post, data)
    }

    /// Get a specific section by ID.
    ///
    /// ``section_id``: The ID of the section, required.
    ///
    /// `GET v1/sections/{section_id}`
    pub fn sections_get(&self, section_id: String) -> (r: Result<ApiRequest, ConfigError>)
        ensures
            built(self@, r, Method::Get, "v1/sections/"@ + section_id@, None),
    {
        let mut path = String::from_str("v1/sections/");
        path.append(section_id.as_str());
        self.prepare_request(path, Method::Get)
    }

    /// Update a specific section.
    ///
    /// ``section_id``: The ID of the section you want to update, required.
    ///
    /// ``data``: JSON with the new section attributes, required.
    ///
    /// `PATCH v1/sections/{section_id}`
    pub fn sections_update(&self, section_id: String, data: String) -> (r: Result<ApiRequest, ConfigError>)
        ensures
            built(self@, r, Method::Patch, "v1/sections/"@ + section_id@, Some(data@)),
    {
        let mut path = String::from_str("v1/sections/");
        path.append(section_id.as_str());
        self.prepare_request_with_body(path, Method::Patch, data)
    }

    /// Delete a specific product section.
    ///
    /// ``section_id``: The ID of the section you want to delete, required.
    ///
    /// `DELETE v1/sections/{section_id}`
    pub fn sections_delete(&self, section_id: String) -> (r: Result<ApiRequest, ConfigError>)
        ensures
            built(self@, r, Method::Delete, "v1/sections/"@ + section_id@, None),
    {
        let mut path = String::from_str("v1/sections/");
        path.append(section_id.as_str());
        self.prepare_request(path, Method::Delete)
    }

    /// Get all existing tickets.
    ///
    /// ``url_params``: Optional attributes to append to the request URL, e.g. **"?limit=50&page=1"**
    ///
    /// `GET v1/tickets{url_params}`
    pub fn tickets_list_all(&self, url_params: &str) -> (r: Result<ApiRequest, ConfigError>)
        ensures
            built(self@, r, Method::Get, "v1/tickets"@ + url_params@, None),
    {
        let mut path = String::from_str("v1/tickets");
        path.append(url_params);
        self.prepare_request(path, Method::Get)
    }

    /// Get a specific ticket.
    ///
    /// ``ticket_id``: The ID of the ticket you want to fetch, required.
    ///
    /// `GET v1/tickets/{ticket_id}`
    pub fn tickets_get(&self, ticket_id: String) -> (r: Result<ApiRequest, ConfigError>)
        ensures
            built(self@, r, Method::Get, "v1/tickets/"@ + ticket_id@, None),
    {
        let mut path = String::from_str("v1/tickets/");
        path.append(ticket_id.as_str());
        self.prepare_request(path, Method::Get)
    }

    /// Get the messages from a specific ticket.
    ///
    /// ``ticket_id``: The ID of the ticket you want to get the messages from, required.
    ///
    /// ``url_params``: Optional attributes to append to the request URL, e.g. **"?limit=50&page=1"**
    ///
    /// `GET v1/tickets/{ticket_id}/messages{url_params}`
    pub fn tickets_list_messages(&self, ticket_id: String, url_params: &str) -> (r: Result<ApiRequest, ConfigError>)
        ensures
            built(self@, r, Method::Get, "v1/tickets/"@ + ticket_id@ + "/messages"@ + url_params@, None),
    {
        let mut path = String::from_str("v1/tickets/");
        path.append(ticket_id.as_str());
        path.append("/messages");
        path.append(url_params);
        self.prepare_request(path, Method::Get)
    }

    /// Send a message to a specific ticket.
    ///
    /// ``ticket_id``: The ID of the ticket you want to send a messages to, required.
    ///
    /// ``data``: JSON with the message, required.
    ///
    /// `POST v1/tickets/{ticket_id}/messages`
    pub fn tickets_reply(&self, ticket_id: String, data: String) -> (r: Result<ApiRequest, ConfigError>)
        ensures
            built(self@, r, Method::Post, "v1/tickets/"@ + ticket_id@ + "/messages"@, Some(data@)),
    {
        let mut path = String::from_str("v1/tickets/");
        path.append(ticket_id.as_str());
        path.append("/messages");
        self.prepare_request_with_body(path, Method::Post, data)
    }

    /// Get the a specific message from a specific ticket.
    ///
    /// ``ticket_id``: The ID of the ticket you want to get the message from, required.
    ///
    /// ``msg_id``: The ID of the message you want to get, required.
    ///
    /// `GET v1/tickets/{ticket_id}/messages/{msg_id}`
    pub fn tickets_get_message(&self, ticket_id: String, msg_id: String) -> (r: Result<ApiRequest, ConfigError>)
        ensures
            built(self@, r, Method::Get, "v1/tickets/"@ + ticket_id@ + "/messages/"@ + msg_id@, None),
    {
        let mut path = String::from_str("v1/tickets/");
        path.append(ticket_id.as_str());
        path.append("/messages/");
        path.append(msg_id.as_str());
        self.prepare_request(path, Method::Get)
    }
}

} // verus!

verus! {

proof fn lemma_header_name_lengths()
    ensures
        AUTHORIZATION@.len() == 13,
        ACCEPT@.len() == 6,
        CONTENT_TYPE@.len() == 12,
{
    reveal_strlit("Authorization");
    reveal_strlit("Accept");
    reveal_strlit("Content-Type");
}

/// `Bearer <key>` may be sent exactly when `key` may.
pub proof fn lemma_bearer_valid(key: Seq<char>)
    ensures
        valid_value(bearer(key)) == valid_value(key),
{
    reveal_strlit("Bearer ");
    let b = bearer(key);
    assert(valid_value("Bearer "@));
    if valid_value(key) {
        assert forall|i: int| 0 <= i < b.len() implies valid_value_char(#[trigger] b[i]) by {
            if i < 7 {
                assert(b[i] == "Bearer "@[i]);
            } else {
                assert(b[i] == key[i - 7]);
            }
        }
    }
    if valid_value(b) {
        assert forall|i: int| 0 <= i < key.len() implies valid_value_char(#[trigger] key[i]) by {
            assert(b[i + 7] == key[i]);
        }
    }
}

/// The headers of every request, in order: authorization, accept, and the
/// content type where a body is sent.
pub proof fn lemma_request_headers(key: Seq<char>, has_body: bool)
    ensures
        request_headers(key, has_body) == (if has_body {
            seq![auth_header(key), (ACCEPT@, JSON@), (CONTENT_TYPE@, JSON@)]
        } else {
            seq![auth_header(key), (ACCEPT@, JSON@)]
        }),
{
    lemma_header_name_lengths();
    let empty = Seq::<HeaderPair>::empty();
    let auth = auth_header(key);
    let accept = (ACCEPT@, JSON@);
    let ctype = (CONTENT_TYPE@, JSON@);
    let base = seq![auth];
    assert(base.drop_first() =~= empty);
    assert(replace_or_push(empty, accept) == seq![accept]);
    assert(put_header(base, accept) =~= seq![auth, accept]);
    let ops = operation_headers(has_body);
    assert(ops[0] == accept);
    if has_body {
        let two = seq![auth, accept];
        assert(two.drop_first() =~= seq![accept]);
        assert(seq![accept].drop_first() =~= empty);
        assert(replace_or_push(empty, ctype) == seq![ctype]);
        assert(replace_or_push(seq![accept], ctype) =~= seq![accept, ctype]);
        assert(put_header(two, ctype) =~= seq![auth, accept, ctype]);
        assert(ops.drop_first() =~= seq![ctype]);
        assert(seq![ctype].drop_first() =~= empty);
        assert(merge_headers(two, seq![ctype]) == merge_headers(put_header(two, ctype), empty));
    } else {
        assert(ops.drop_first() =~= empty);
    }
    assert(merge_headers(base, ops) == merge_headers(put_header(base, accept), ops.drop_first()));
}

/// Every request that an operation builds carries `Authorization: Bearer <key>`,
/// with or without a body.
pub proof fn lemma_request_authorized(key: Seq<char>, method: Method, path: Seq<char>, body: Option<Seq<char>>)
    ensures
        header_value(expected_request(key, method, path, body).headers, AUTHORIZATION@) == Some(
            bearer(key),
        ),
{
    lemma_merge_keeps_authorization(seq![auth_header(key)], operation_headers(body is Some));
}

/// A request carries `Content-Type: application/json` when it has a body, and
/// no content type when it has none.
pub proof fn lemma_content_type_iff_body(key: Seq<char>, method: Method, path: Seq<char>, body: Option<Seq<char>>)
    ensures
        header_value(expected_request(key, method, path, body).headers, CONTENT_TYPE@) == (if body is Some {
            Some(JSON@)
        } else {
            None::<Seq<char>>
        }),
{
    lemma_header_name_lengths();
    lemma_request_headers(key, body is Some);
    let hs = expected_request(key, method, path, body).headers;
    let empty = Seq::<HeaderPair>::empty();
    let rest = hs.drop_first().drop_first();
    assert(header_value(hs, CONTENT_TYPE@) == header_value(hs.drop_first(), CONTENT_TYPE@));
    assert(header_value(hs.drop_first(), CONTENT_TYPE@) == header_value(rest, CONTENT_TYPE@));
    if body is Some {
        assert(rest =~= seq![(CONTENT_TYPE@, JSON@)]);
    } else {
        assert(rest =~= empty);
    }
}

/// An operation fails before sending exactly when the key holds a character
/// that is neither a tab nor from 32 to 126, and the error then names the
/// authorization header.
pub proof fn lemma_config_error_iff_key_invalid(key: Seq<char>, has_body: bool)
    ensures
        first_invalid(seq![auth_header(key)] + operation_headers(has_body)) == (if valid_value(key) {
            None::<Seq<char>>
        } else {
            Some(AUTHORIZATION@)
        }),
{
    lemma_bearer_valid(key);
    reveal_strlit("application/json");
    assert(valid_value(JSON@));
    let empty = Seq::<HeaderPair>::empty();
    let all = seq![auth_header(key)] + operation_headers(has_body);
    let ops = operation_headers(has_body);
    assert(all.drop_first() =~= ops);
    assert(ops[0].1 == JSON@);
    if has_body {
        assert(ops.drop_first() =~= seq![(CONTENT_TYPE@, JSON@)]);
        assert(seq![(CONTENT_TYPE@, JSON@)].drop_first() =~= empty);
        assert(first_invalid(seq![(CONTENT_TYPE@, JSON@)]) == first_invalid(empty));
    } else {
        assert(ops.drop_first() =~= empty);
    }
    assert(first_invalid(ops) == first_invalid(ops.drop_first()));
}

} // verus!
