use std::cell::RefCell;

use business::chat::emit::{ChatUIEvent, NoopChatUIEmitter};
use business::chat::memory_digest::{digest_text, last_digest_seq, plan_digest, summary_state_json, ChatMessageRecord};
use business::config::plugins::{ocr_item, plugin_assets, plugin_install_dir, plugin_root, tmp_path, PLUGIN_ID_OCR};
use business::crawler::emit::{CrawlerUIEvent, NoopCrawlerUIEmitter};
use business::mail::imap_inbound::{
    next_imap_sync_cursor, persist_imap_fetched_messages, should_persist_inbound, CustomerRecord, CustomerStore,
    ImapFetchedMessage, InboundAction, InboundPass, MailImapInboundWriteInput, MailInboundRecord, MailStore,
};
use business::mail::tracking::{
    append_open_tracking_pixel, build_integration_url, integration_enabled, make_tracking_id, open_status_url,
    parse_open_payload, prepare_outbound_html, prepare_tracked_html, probe_url, probe_verdict, text_to_html,
    url_encode, MailEmailReadIntegrationConfig, OpenRecord,
};
use business::monitor::{MonitorResult, MonitorService};

#[test]
fn emit_topic_strings_have_no_dot() {
    for event in [ChatUIEvent::MessageToken, ChatUIEvent::MessageTool] {
        assert!(!event.as_str().contains('.'), "{} must not contain '.'", event.as_str());
    }
    let _ = NoopChatUIEmitter;
}

#[test]
fn topic_strings_have_no_dot() {
    for event in [
        CrawlerUIEvent::JobStarted,
        CrawlerUIEvent::JobProgress,
        CrawlerUIEvent::JobLog,
        CrawlerUIEvent::JobCompleted,
        CrawlerUIEvent::JobFailed,
        CrawlerUIEvent::ChannelAccepted,
        CrawlerUIEvent::ChannelEmailEnriched,
    ] {
        assert!(!event.as_str().contains('.'), "{} must not contain '.'", event.as_str());
    }
    let _ = NoopCrawlerUIEmitter;
}

#[test]
fn topic_names() {
    assert_eq!(ChatUIEvent::MessageToken.as_str(), "chat:message/token");
    assert_eq!(CrawlerUIEvent::ChannelEmailEnriched.as_str(), "crawler:channel/email_enriched");
}

fn config() -> MailEmailReadIntegrationConfig {
    MailEmailReadIntegrationConfig {
        enabled: true,
        api_base: "https://kol-service.gbyte.com".to_string(),
        pixel_path_template: "/api/v1/email-read/pixel?email={{email}}&mailId={{mailId}}".to_string(),
        query_path_template: "/api/v1/email-read?email={{email}}&mailId={{mailId}}".to_string(),
        parse_script: String::new(),
    }
}

#[test]
fn tracking_id_is_32_hex_chars() {
    let id = make_tracking_id();
    assert_eq!(id.len(), 32);
    assert!(id.chars().all(|ch| ch.is_ascii_hexdigit()));
}

#[test]
fn append_pixel_before_body_close() {
    let html = append_open_tracking_pixel(&config(), "<html><body><p>Hi</p></body></html>", "abc123", "a@b.com");
    assert!(html.contains("/api/v1/email-read/pixel"));
    assert!(html.contains("mailId=abc123"));
    assert!(html.contains("<p>Hi</p>"));
    assert!(html.ends_with("opacity:0\" /></body></html>"));
}

#[test]
fn pixel_appended_at_end_without_body_tag() {
    let html = append_open_tracking_pixel(&config(), "<p>Hi</p>", "id", "a@b.com");
    assert!(html.starts_with("<p>Hi</p><img src=\"https://kol-service.gbyte.com/api/v1/email-read/pixel?email=a%40b.com&mailId=id\""));
}

#[test]
fn pixel_skipped_when_disabled_or_no_id() {
    let mut off = config();
    off.enabled = false;
    assert_eq!(append_open_tracking_pixel(&off, "<body></body>", "id", "a@b.com"), "<body></body>");
    assert_eq!(append_open_tracking_pixel(&config(), "<body></body>", "", "a@b.com"), "<body></body>");
    let mut blank = config();
    blank.api_base = "  ".to_string();
    assert!(!integration_enabled(&blank));
}

#[test]
fn url_encode_percent_escapes() {
    assert_eq!(url_encode("a b@c.d~_-"), "a%20b%40c.d~_-");
    assert_eq!(url_encode("中"), "%E4%B8%AD");
}

#[test]
fn integration_url_joins_base_and_path() {
    let mut c = config();
    c.api_base = " https://x.com// ".to_string();
    assert_eq!(build_integration_url(&c, "api?e={{email}}", "a@b", "1"), "https://x.com/api?e=a%40b");
    assert_eq!(build_integration_url(&c, "/api", "a", "1"), "https://x.com/api");
    assert_eq!(build_integration_url(&c, "{{base}}/q?id={{mailId}}", "a", "m 1"), "https://x.com/q?id=m%201");
}

#[test]
fn outbound_html_from_text() {
    assert_eq!(text_to_html("a<b>&c"), "<html><body><div style=\"white-space:pre-wrap;\">a&lt;b&gt;&amp;c</div></body></html>");
    assert_eq!(prepare_outbound_html("text", Some("  <p>x</p> ")), Some("<p>x</p>".to_string()));
    assert_eq!(prepare_outbound_html("t", Some("  ")), Some(text_to_html("t")));
    let with_pixel = prepare_tracked_html(&config(), "hi", None, "id", "a@b.com").expect("html");
    assert!(with_pixel.contains("mailId=id\""));
    assert!(with_pixel.ends_with("opacity:0\" /></body></html>"));
}

#[test]
fn open_status_and_probe_urls() {
    assert_eq!(open_status_url(&config(), " a@b.com ", " m1 ").as_deref(), Some("https://kol-service.gbyte.com/api/v1/email-read?email=a%40b.com&mailId=m1"));
    assert_eq!(open_status_url(&config(), "", "m1"), None);
    let mut off = config();
    off.enabled = false;
    assert_eq!(probe_url(&off, "a", "b").unwrap_err(), "mail.integration.disabled");
    assert_eq!(probe_url(&config(), " ", "b").unwrap_err(), "mail.integration.probe_params_invalid");
}

#[test]
fn probe_verdicts() {
    assert_eq!(probe_verdict(false, 503, "busy".to_string()).unwrap_err(), "mail.integration.http_503: busy");
    assert_eq!(probe_verdict(true, 200, "  ".to_string()).unwrap_err(), "mail.integration.empty_response");
    assert!(probe_verdict(true, 200, "{bad".to_string()).unwrap_err().starts_with("mail.integration.invalid_json: "));
    assert_eq!(probe_verdict(true, 200, " {\"items\":[]} ".to_string()).expect("ok"), " {\"items\":[]} ");
}

#[test]
fn open_payload_reading() {
    assert_eq!(parse_open_payload(None), Some((None, 0)));
    assert_eq!(parse_open_payload(Some(vec![])), Some((None, 0)));
    let first = OpenRecord {
        opened_at: Some("  ".to_string()),
        open_time: None,
        timestamp: Some(" 2026-08-01 ".to_string()),
        time: Some("later".to_string()),
        created_at: None,
    };
    let second = OpenRecord { opened_at: None, open_time: None, timestamp: None, time: None, created_at: None };
    assert_eq!(parse_open_payload(Some(vec![first, second])), Some((Some("2026-08-01".to_string()), 2)));
}

#[test]
fn sync_cursor_only_advances() {
    assert_eq!(next_imap_sync_cursor(10, 15), 15);
    assert_eq!(next_imap_sync_cursor(10, 5), 10);
    assert_eq!(next_imap_sync_cursor(-1, 0), 0);
}

struct Mail {
    outbound: Vec<String>,
    inserted: RefCell<Vec<MailImapInboundWriteInput>>,
}

impl MailStore for Mail {
    fn has_outbound_to_address(&self, _account_id: &str, address: &str) -> Result<bool, String> {
        Ok(self.outbound.iter().any(|a| a == address))
    }
    fn insert_imap_inbound_if_new(&self, input: MailImapInboundWriteInput) -> Result<Option<MailInboundRecord>, String> {
        let duplicate = self.inserted.borrow().iter().any(|i| i.imap_uid == input.imap_uid);
        if duplicate {
            return Ok(None);
        }
        self.inserted.borrow_mut().push(input);
        Ok(Some(MailInboundRecord { id: "row".to_string() }))
    }
}

struct Customers(Vec<String>);

impl CustomerStore for Customers {
    fn find_by_email(&self, email: &str) -> Result<Option<CustomerRecord>, String> {
        Ok(self.0.iter().find(|e| *e == email).map(|e| CustomerRecord { id: format!("cust-{e}") }))
    }
}

fn message(uid: u32, from: &str) -> ImapFetchedMessage {
    ImapFetchedMessage {
        uid,
        from_address: from.to_string(),
        from_name: None,
        to_raw: None,
        cc_raw: None,
        subject: "主题".to_string(),
        body_text: "正文".to_string(),
        body_html: None,
        received_at: "2026-08-01".to_string(),
        rfc_message_id: None,
        in_reply_to: None,
        references: None,
        is_seen: false,
        raw_headers: String::new(),
    }
}

#[test]
fn persists_known_senders_only() {
    let mail = Mail { outbound: vec!["sent@x.com".to_string()], inserted: RefCell::new(vec![]) };
    let customers = Customers(vec!["cust@x.com".to_string()]);
    let messages = vec![message(1, "sent@x.com"), message(2, "cust@x.com"), message(3, "spam@x.com"), message(1, "sent@x.com")];
    let summary = persist_imap_fetched_messages(&mail, &customers, "acc-1", "INBOX", messages).expect("persist");
    assert_eq!(summary.inserted, 2);
    assert_eq!(summary.skipped_unmatched, 1);
    let rows = mail.inserted.borrow();
    assert_eq!(rows[1].customer_id.as_deref(), Some("cust-cust@x.com"));
    assert_eq!(rows[0].imap_folder, "INBOX");
    assert_eq!(rows[0].account_id, "acc-1");
    assert!(should_persist_inbound(&mail, &customers, "acc-1", "cust@x.com").expect("ok"));
    assert!(!should_persist_inbound(&mail, &customers, "acc-1", "spam@x.com").expect("ok"));
}

#[test]
fn persist_nothing_for_no_messages() {
    let mail = Mail { outbound: vec![], inserted: RefCell::new(vec![]) };
    let summary = persist_imap_fetched_messages(&mail, &Customers(vec![]), "acc-1", "INBOX", vec![]).expect("persist");
    assert_eq!(summary.inserted, 0);
    assert_eq!(summary.skipped_unmatched, 0);
}

fn records(n: i64) -> Vec<ChatMessageRecord> {
    (1..=n).map(|i| ChatMessageRecord { seq: i, role: "user".to_string(), content: format!("m{i}") }).collect()
}

#[test]
fn digest_planning() {
    assert!(plan_digest(&records(19), None).is_none());
    let plan = plan_digest(&records(20), Some("{\"last_digest_seq\": 12}")).expect("due");
    assert_eq!(plan.last_seq, 20);
    assert!(plan.prompt.ends_with("对话：\n[user] m13\n[user] m14\n[user] m15\n[user] m16\n[user] m17\n[user] m18\n[user] m19\n[user] m20"));
    assert!(plan_digest(&records(20), Some("{\"last_digest_seq\": 13}")).is_none());
    assert_eq!(last_digest_seq(Some("not json")), 0);
    assert_eq!(last_digest_seq(Some("{\"last_digest_seq\": 42}")), 42);
    assert_eq!(last_digest_seq(None), 0);
    assert_eq!(summary_state_json(20), "{\"last_digest_seq\":20}");
    assert_eq!(digest_text("  要点  "), Some("要点".to_string()));
    assert_eq!(digest_text("   "), None);
}

#[test]
fn assets_reject_unknown_plugin() {
    let error = plugin_assets("unknown").expect_err("unknown");
    assert!(error.contains("未知插件"));
    let assets = plugin_assets(PLUGIN_ID_OCR).expect("ocr");
    assert_eq!(assets.len(), 2);
    assert_eq!(assets[1].file_name, "chi_sim.traineddata");
}

#[test]
fn plugin_paths() {
    assert_eq!(plugin_root("/data/plugins", "ocr"), "/data/plugins/ocr");
    assert_eq!(plugin_install_dir("/data/plugins", "ocr"), "/data/plugins/ocr/tessdata");
    assert_eq!(plugin_install_dir("/data/plugins", "other"), "/data/plugins/other");
    assert_eq!(tmp_path("/d/eng.traineddata"), "/d/eng.traineddata.part");
    assert_eq!(tmp_path("/d/file"), "/d/file.bin.part");
}

#[test]
fn ocr_item_status() {
    assert_eq!(ocr_item(false, None).status, "not_installed");
    assert_eq!(ocr_item(true, None).status, "installed");
    let failed = ocr_item(true, Some("x".to_string()));
    assert_eq!(failed.status, "failed");
    assert_eq!(failed.id, "ocr");
}

fn result(id: &str, crawled_at: &str) -> MonitorResult {
    MonitorResult {
        id: id.to_string(),
        task_id: "t".to_string(),
        owner_id: 1,
        item_id: id.to_string(),
        title: String::new(),
        url: String::new(),
        price_text: String::new(),
        location: String::new(),
        seller_name: String::new(),
        ai_recommended: false,
        ai_reason: String::new(),
        notified: false,
        raw: "{}".to_string(),
        crawled_at: crawled_at.to_string(),
    }
}

#[test]
fn monitor_results_newest_first_stable() {
    let items = vec![result("a", "2026-08-01"), result("b", "2026-08-03"), result("c", "2026-08-01"), result("d", "2026-08-02")];
    let sorted = MonitorService::sort_newest_first(&items);
    assert_eq!(sorted.iter().map(|r| r.id.as_str()).collect::<Vec<_>>(), vec!["b", "d", "a", "c"]);
}

#[test]
fn pixel_with_mixed_case_body_tag_is_added() {
    let html = append_open_tracking_pixel(&config(), "<html><Body><p>Hi</p></Body></html>", "abc123", "a@b.com");
    assert!(html.starts_with("<html><Body><p>Hi</p></Body></html><img src=\""));
    assert!(html.contains("mailId=abc123"));
}

#[test]
fn inbound_pass_counts_each_message() {
    let mut pass = InboundPass::new("acc", "INBOX");
    // Unknown sender: skipped.
    assert!(matches!(pass.on_message_answers(message(1, "x@y.z"), Ok(false), Ok(None)), InboundAction::Next));
    // Customer: a row with the customer's id, then inserted.
    match pass.on_message_answers(message(2, "c@y.z"), Ok(false), Ok(Some(CustomerRecord { id: "c1".to_string() }))) {
        InboundAction::Insert(row) => {
            assert_eq!(row.account_id, "acc");
            assert_eq!(row.imap_folder, "INBOX");
            assert_eq!(row.imap_uid, 2);
            assert_eq!(row.customer_id.as_deref(), Some("c1"));
        },
        other => panic!("unexpected {:?}", other),
    }
    assert!(matches!(pass.on_inserted(Ok(Some(MailInboundRecord { id: "r".to_string() }))), InboundAction::Next));
    // Prior recipient, already stored: not counted.
    assert!(matches!(pass.on_message_answers(message(3, "p@y.z"), Ok(true), Ok(None)), InboundAction::Insert(_)));
    assert!(matches!(pass.on_inserted(Ok(None)), InboundAction::Next));
    match pass.finish() {
        InboundAction::Finish(Ok(s)) => {
            assert_eq!(s.inserted, 1);
            assert_eq!(s.skipped_unmatched, 1);
        },
        other => panic!("unexpected {:?}", other),
    }
}

#[test]
fn inbound_pass_stops_on_lookup_error() {
    let mut pass = InboundPass::new("acc", "INBOX");
    match pass.on_message_answers(message(1, "x@y.z"), Err("db".to_string()), Ok(None)) {
        InboundAction::Finish(Err(e)) => assert_eq!(e, "db"),
        other => panic!("unexpected {:?}", other),
    }
}
