use sellapp::{init, ApiRequest, ConfigError, Header, Method, SellAppClient};

const KEY: &str = "sk_live_1234";

fn client() -> SellAppClient {
    init(KEY)
}

fn assert_request(r: Result<ApiRequest, ConfigError>, method: Method, path: &str, body: Option<&str>) {
    let q = r.expect("a valid key builds every request");
    assert_eq!(q.method, method);
    assert_eq!(q.path, path);
    assert_eq!(q.body.as_deref(), body);
    let mut headers = vec![
        Header::new("Authorization", &format!("Bearer {}", KEY)),
        Header::new("Accept", "application/json"),
    ];
    if body.is_some() {
        headers.push(Header::new("Content-Type", "application/json"));
    }
    assert_eq!(q.headers, headers);
}

#[test]
fn blacklist_list_all_rules_request() {
    assert_request(client().blacklist_list_all_rules("?limit=50&page=1"), Method::Get, "v1/blacklists?limit=50&page=1", None);
}

#[test]
fn blacklist_create_rule_request() {
    assert_request(client().blacklist_create_rule("{\"title\":\"x\"}".to_string()), Method::Post, "v1/blacklists", Some("{\"title\":\"x\"}"));
}

#[test]
fn blacklist_get_rule_request() {
    assert_request(client().blacklist_get_rule("rul_1".to_string()), Method::Get, "v1/blacklists/rul_1", None);
}

#[test]
fn blacklist_update_rule_request() {
    assert_request(client().blacklist_update_rule("rul_1".to_string(), "{\"title\":\"x\"}".to_string()), Method::Patch, "v1/blacklists/rul_1", Some("{\"title\":\"x\"}"));
}

#[test]
fn blacklist_delete_rule_request() {
    assert_request(client().blacklist_delete_rule("rul_1".to_string()), Method::Delete, "v1/blacklists/rul_1", None);
}

#[test]
fn coupons_list_all_request() {
    assert_request(client().coupons_list_all("?limit=50&page=1"), Method::Get, "v1/coupons?limit=50&page=1", None);
}

#[test]
fn coupons_create_request() {
    assert_request(client().coupons_create("{\"title\":\"x\"}".to_string()), Method::Post, "v1/coupons", Some("{\"title\":\"x\"}"));
}

#[test]
fn coupons_get_request() {
    assert_request(client().coupons_get("cou_4".to_string()), Method::Get, "v1/coupons/cou_4", None);
}

#[test]
fn coupons_update_request() {
    assert_request(client().coupons_update("cou_4".to_string(), "{\"title\":\"x\"}".to_string()), Method::Patch, "v1/coupons/cou_4", Some("{\"title\":\"x\"}"));
}

#[test]
fn coupons_delete_request() {
    assert_request(client().coupons_delete("cou_4".to_string()), Method::Delete, "v1/coupons/cou_4", None);
}

#[test]
fn feedback_list_all_request() {
    assert_request(client().feedback_list_all("?limit=50&page=1"), Method::Get, "v1/feedback?limit=50&page=1", None);
}

#[test]
fn feedback_get_request() {
    assert_request(client().feedback_get("fee_7".to_string()), Method::Get, "v1/feedback/fee_7", None);
}

#[test]
fn feedback_reply_request() {
    assert_request(client().feedback_reply("fee_7".to_string(), "{\"title\":\"x\"}".to_string()), Method::Patch, "v1/feedback/fee_7", Some("{\"title\":\"x\"}"));
}

#[test]
fn groups_list_all_request() {
    assert_request(client().groups_list_all("?limit=50&page=1"), Method::Get, "v2/groups?limit=50&page=1", None);
}

#[test]
fn groups_create_request() {
    assert_request(client().groups_create("{\"title\":\"x\"}".to_string()), Method::Post, "v2/groups", Some("{\"title\":\"x\"}"));
}

#[test]
fn groups_get_request() {
    assert_request(client().groups_get("gro_9".to_string()), Method::Get, "v2/groups/gro_9", None);
}

#[test]
fn groups_update_request() {
    assert_request(client().groups_update("gro_9".to_string(), "{\"title\":\"x\"}".to_string()), Method::Patch, "v2/groups/gro_9", Some("{\"title\":\"x\"}"));
}

#[test]
fn groups_delete_request() {
    assert_request(client().groups_delete("gro_9".to_string()), Method::Delete, "v2/groups/gro_9", None);
}

#[test]
fn groups_add_products_request() {
    assert_request(client().groups_add_products("gro_9".to_string(), "{\"title\":\"x\"}".to_string()), Method::Post, "v2/groups/gro_9/products/attach", Some("{\"title\":\"x\"}"));
}

#[test]
fn groups_remove_products_request() {
    assert_request(client().groups_remove_products("gro_9".to_string(), "{\"title\":\"x\"}".to_string()), Method::Delete, "v2/groups/gro_9/products/detach", Some("{\"title\":\"x\"}"));
}

#[test]
fn groups_list_products_request() {
    assert_request(client().groups_list_products("gro_9".to_string(), "?limit=50&page=1"), Method::Get, "v2/groups/gro_9/products?limit=50&page=1", None);
}

#[test]
fn groups_get_product_request() {
    assert_request(client().groups_get_product("gro_9".to_string(), "pro_16".to_string()), Method::Get, "v2/groups/gro_9/products/pro_16", None);
}

#[test]
fn invoices_list_all_request() {
    assert_request(client().invoices_list_all("?limit=50&page=1"), Method::Get, "v2/invoices?limit=50&page=1", None);
}

#[test]
fn invoices_create_request() {
    assert_request(client().invoices_create("{\"title\":\"x\"}".to_string()), Method::Post, "v2/invoices", Some("{\"title\":\"x\"}"));
}

#[test]
fn invoices_get_request() {
    assert_request(client().invoices_get("inv_17".to_string()), Method::Get, "v2/invoices/inv_17", None);
}

#[test]
fn invoices_checkout_request() {
    assert_request(client().invoices_checkout("inv_17".to_string()), Method::Post, "v2/invoices/inv_17/checkout", None);
}

#[test]
fn invoices_get_items_request() {
    assert_request(client().invoices_get_items("inv_17".to_string()), Method::Get, "v2/invoices/inv_17/deliverables", None);
}

#[test]
fn invoices_mark_completed_request() {
    assert_request(client().invoices_mark_completed("inv_17".to_string()), Method::Patch, "v2/invoices/inv_17/mark-completed", None);
}

#[test]
fn invoices_mark_voided_request() {
    assert_request(client().invoices_mark_voided("inv_17".to_string()), Method::Patch, "v2/invoices/inv_17/mark-voided", None);
}

#[test]
fn invoices_issue_replacement_request() {
    assert_request(client().invoices_issue_replacement("inv_17".to_string(), "{\"title\":\"x\"}".to_string()), Method::Patch, "v2/invoices/inv_17/issue-replacement", Some("{\"title\":\"x\"}"));
}

#[test]
fn products_list_all_request() {
    assert_request(client().products_list_all("?limit=50&page=1"), Method::Get, "v2/products?limit=50&page=1", None);
}

#[test]
fn products_create_request() {
    assert_request(client().products_create("{\"title\":\"x\"}".to_string()), Method::Post, "v2/products", Some("{\"title\":\"x\"}"));
}

#[test]
fn products_get_request() {
    assert_request(client().products_get("pro_16".to_string()), Method::Get, "v2/products/pro_16", None);
}

#[test]
fn products_update_request() {
    assert_request(client().products_update("pro_16".to_string(), "{\"title\":\"x\"}".to_string()), Method::Patch, "v2/products/pro_16", Some("{\"title\":\"x\"}"));
}

#[test]
fn products_delete_request() {
    assert_request(client().products_delete("pro_16".to_string()), Method::Delete, "v2/products/pro_16", None);
}

#[test]
fn variants_list_all_request() {
    assert_request(client().variants_list_all("pro_16".to_string(), "?limit=50&page=1"), Method::Get, "v2/products/pro_16/variants?limit=50&page=1", None);
}

#[test]
fn variants_create_request() {
    assert_request(client().variants_create("pro_16".to_string(), "{\"title\":\"x\"}".to_string()), Method::Post, "v2/products/pro_16/variants", Some("{\"title\":\"x\"}"));
}

#[test]
fn variants_get_request() {
    assert_request(client().variants_get("pro_16".to_string(), "var_29".to_string()), Method::Get, "v2/products/pro_16/variants/var_29", None);
}

#[test]
fn variants_update_request() {
    assert_request(client().variants_update("pro_16".to_string(), "var_29".to_string(), "{\"title\":\"x\"}".to_string()), Method::Patch, "v2/products/pro_16/variants/var_29", Some("{\"title\":\"x\"}"));
}

#[test]
fn variants_delete_request() {
    assert_request(client().variants_delete("pro_16".to_string(), "var_29".to_string()), Method::Delete, "v2/products/pro_16/variants/var_29", None);
}

#[test]
fn sections_list_all_request() {
    assert_request(client().sections_list_all("?limit=50&page=1"), Method::Get, "v1/sections?limit=50&page=1", None);
}

#[test]
fn sections_create_request() {
    assert_request(client().sections_create("{\"title\":\"x\"}".to_string()), Method::Post, "v1/sections", Some("{\"title\":\"x\"}"));
}

#[test]
fn sections_get_request() {
    assert_request(client().sections_get("sec_34".to_string()), Method::Get, "v1/sections/sec_34", None);
}

#[test]
fn sections_update_request() {
    assert_request(client().sections_update("sec_34".to_string(), "{\"title\":\"x\"}".to_string()), Method::Patch, "v1/sections/sec_34", Some("{\"title\":\"x\"}"));
}

#[test]
fn sections_delete_request() {
    assert_request(client().sections_delete("sec_34".to_string()), Method::Delete, "v1/sections/sec_34", None);
}

#[test]
fn tickets_list_all_request() {
    assert_request(client().tickets_list_all("?limit=50&page=1"), Method::Get, "v1/tickets?limit=50&page=1", None);
}

#[test]
fn tickets_get_request() {
    assert_request(client().tickets_get("tic_37".to_string()), Method::Get, "v1/tickets/tic_37", None);
}

#[test]
fn tickets_list_messages_request() {
    assert_request(client().tickets_list_messages("tic_37".to_string(), "?limit=50&page=1"), Method::Get, "v1/tickets/tic_37/messages?limit=50&page=1", None);
}

#[test]
fn tickets_reply_request() {
    assert_request(client().tickets_reply("tic_37".to_string(), "{\"title\":\"x\"}".to_string()), Method::Post, "v1/tickets/tic_37/messages", Some("{\"title\":\"x\"}"));
}

#[test]
fn tickets_get_message_request() {
    assert_request(client().tickets_get_message("tic_37".to_string(), "msg_41".to_string()), Method::Get, "v1/tickets/tic_37/messages/msg_41", None);
}
