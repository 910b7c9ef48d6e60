use business::auto_reply::dedup::InMemoryDedup;
use business::auto_reply::default_reply::InMemoryDefaultReply;
use business::auto_reply::filter::{FilterRule, FilterType, KeywordFilter};
use business::auto_reply::keyword::KeywordRule;
use business::auto_reply::pipeline::{AiReplyOutcome, AutoReplyDecision, AutoReplyPipeline, ChatInput, PipelineStep};
use business::auto_reply_handle::AutoReplyHandle;
use business::delivery::execution::card::{Card, CardSource};
use business::delivery::execution::content::DeliveryContent;
use business::delivery::execution::executor::{DeliveryAction, DeliveryFlow, DeliveryOptions, DeliveryRequest};
use business::delivery::execution::gateway::ConfirmResult;
use business::knowledge::documents::{DeleteDocument, DocumentCatalog, ImportAction, ImportFlow, KnowledgeStore, ListDocuments, StoreError};
use business::knowledge::ocr::{ocr_languages, ocr_outcome, OcrError, TesseractRun};

fn pipeline(keywords: Vec<KeywordRule>, default: InMemoryDefaultReply) -> AutoReplyPipeline {
    AutoReplyPipeline::new(
        KeywordFilter::new(vec![FilterRule {
            id: 0,
            account_id: String::new(),
            owner_id: 0,
            filter_type: FilterType::SkipReply,
            keyword: "勿扰".to_string(),
            enabled: true,
        }]),
        Box::new(InMemoryDedup::default()),
        keywords,
        Box::new(default),
    )
}

fn input<'a>(message: &'a str, sender_is_self: bool, ai_available: bool) -> ChatInput<'a> {
    ChatInput::new("a", "c", "u", None, message, sender_is_self, false, ai_available)
}

fn decision(step: PipelineStep) -> AutoReplyDecision {
    match step {
        PipelineStep::Done(o) => o.decision,
        PipelineStep::NeedAi => panic!("the AI was not expected"),
    }
}

#[test]
fn skips_system_message() {
    let mut pipe = pipeline(vec![], InMemoryDefaultReply::default());
    let d = decision(pipe.handle_message(&input("[我已拍下，待付款]", false, false)));
    assert_eq!(d, AutoReplyDecision::Skip { reason: "class:system_message".to_string() });
}

#[test]
fn self_message_skips() {
    let mut pipe = pipeline(vec![], InMemoryDefaultReply::default());
    assert!(matches!(decision(pipe.handle_message(&input("你好", true, false))), AutoReplyDecision::Skip { .. }));
}

#[test]
fn filter_skips_reply() {
    let mut pipe = pipeline(vec![], InMemoryDefaultReply::default());
    let d = decision(pipe.handle_message(&input("我现在勿扰", false, false)));
    assert_eq!(d, AutoReplyDecision::Skip { reason: "skip_reply_filter".to_string() });
}

#[test]
fn keyword_reply_wins() {
    let mut pipe = pipeline(
        vec![KeywordRule {
            id: 0,
            account_id: String::new(),
            keyword: "在吗".to_string(),
            reply: "在的".to_string(),
            item_id: String::new(),
            rule_type: "text".to_string(),
            image_url: String::new(),
            item_title: String::new(),
        }],
        InMemoryDefaultReply::default(),
    );
    let d = decision(pipe.handle_message(&input("老板在吗", false, true)));
    assert_eq!(d, AutoReplyDecision::Keyword("在的".to_string()));
}

#[test]
fn default_reply_fallback() {
    let mut default = InMemoryDefaultReply::default();
    default.add("a", "", "默认回复", false);
    let mut pipe = pipeline(vec![], default);
    let d = decision(pipe.handle_message(&input("你好", false, false)));
    assert_eq!(d, AutoReplyDecision::Default("默认回复".to_string()));
}

#[test]
fn no_rule_matched() {
    let mut pipe = pipeline(vec![], InMemoryDefaultReply::default());
    assert!(matches!(decision(pipe.handle_message(&input("你好", false, false))), AutoReplyDecision::Skip { .. }));
}

#[test]
fn duplicate_message_skipped() {
    let mut default = InMemoryDefaultReply::default();
    default.add("a", "", "默认回复", false);
    let mut pipe = pipeline(vec![], default);
    pipe.handle_message(&input("你好", false, false));
    let d = decision(pipe.handle_message(&input("你好", false, false)));
    assert_eq!(d, AutoReplyDecision::Skip { reason: "duplicate_message".to_string() });
}

#[test]
fn ai_asked_then_reply_used() {
    let mut pipe = pipeline(vec![], InMemoryDefaultReply::default());
    let step = pipe.handle_message(&input("你好", false, true));
    assert!(matches!(step, PipelineStep::NeedAi));
    let o = pipe.resume_after_ai(&input("你好", false, true), AiReplyOutcome::Generated("AI回复".to_string()));
    assert_eq!(o.decision, AutoReplyDecision::Ai("AI回复".to_string()));
    assert!(o.should_notify);
}

#[test]
fn handle_default_pipeline_replies_nothing() {
    let handle = AutoReplyHandle::new();
    let mut pipe = handle.into_pipeline();
    assert!(matches!(decision(pipe.handle_message(&input("你好", false, false))), AutoReplyDecision::Skip { .. }));
}

fn delivery_card(delay: u32) -> Card {
    Card {
        id: 1,
        owner_id: 0,
        account_id: String::new(),
        name: "卡".to_string(),
        card_type: "text".to_string(),
        source: CardSource::Own,
        enabled: true,
        text_content: "卡密".to_string(),
        data_content: String::new(),
        image_url: String::new(),
        image_urls: String::new(),
        api_config: String::new(),
        delay_seconds: delay,
        description: String::new(),
    }
}

fn request(item_id: &str) -> DeliveryRequest {
    DeliveryRequest {
        item_id: item_id.to_string(),
        order_id: Some("o-1".to_string()),
        chat_id: Some("chat-1".to_string()),
        buyer_id: "buyer-1".to_string(),
        buyer_name: "买家".to_string(),
    }
}

fn options(auto_confirm: bool) -> DeliveryOptions {
    DeliveryOptions { auto_confirm, only_send_card: false, closed_order_card_only: false, confirm_cooldown_secs: 0 }
}

#[test]
fn invalid_item_fails() {
    let mut flow = DeliveryFlow::new(request("未知商品"), options(true));
    match flow.start() {
        DeliveryAction::Finish(r) => {
            assert!(!r.success);
            assert_eq!(r.fail_reason, "商品ID无效，无法自动发货: 未知商品");
        }
        _ => panic!("expected the end"),
    }
    assert!(flow.is_done());
}

#[test]
fn no_card_fails() {
    let mut flow = DeliveryFlow::new(request("item-1"), options(true));
    assert!(matches!(flow.start(), DeliveryAction::LoadCards { .. }));
    match flow.on_cards(vec![]) {
        DeliveryAction::Finish(r) => assert_eq!(r.fail_reason, "商品 item-1 未在任何来源中唯一匹配到卡券（共 0 条关联）"),
        _ => panic!("expected the end"),
    }
}

#[test]
fn delivers_text_card_and_updates_order() {
    let mut flow = DeliveryFlow::new(request("item-1"), options(true));
    flow.start();
    match flow.on_cards(vec![delivery_card(0)]) {
        DeliveryAction::ConfirmShipping { order_id } => assert_eq!(order_id, "o-1"),
        _ => panic!("expected a confirmation"),
    }
    let confirmed = ConfirmResult { success: true, already_delivered: false, skipped_only_send_card: false, message: String::new() };
    assert!(matches!(flow.on_confirmed(confirmed), DeliveryAction::GenerateContent { .. }));
    let content = DeliveryContent { text: "卡密".to_string(), image_urls: vec![] };
    match flow.on_content(Some(content)) {
        DeliveryAction::SendText { chat_id, buyer_id, text } => {
            assert_eq!(chat_id, "chat-1");
            assert_eq!(buyer_id, "buyer-1");
            assert_eq!(text, "卡密");
        }
        _ => panic!("expected a send"),
    }
    match flow.on_sent(Ok(())) {
        DeliveryAction::UpdateOrder { order_no, status, content, .. } => {
            assert_eq!(order_no, "o-1");
            assert_eq!(status, "shipped");
            assert_eq!(content, "卡密");
        }
        _ => panic!("expected an order update"),
    }
    match flow.on_order_updated() {
        DeliveryAction::Finish(r) => {
            assert!(r.success);
            assert_eq!(r.sent_content.as_deref(), Some("卡密"));
        }
        _ => panic!("expected the end"),
    }
    assert!(flow.is_done());
}

#[test]
fn already_delivered_skips() {
    let mut flow = DeliveryFlow::new(request("item-1"), options(true));
    flow.start();
    flow.on_cards(vec![delivery_card(0)]);
    let confirmed = ConfirmResult { success: true, already_delivered: true, skipped_only_send_card: false, message: String::new() };
    assert!(matches!(flow.on_confirmed(confirmed), DeliveryAction::MarkDeliverySent { .. }));
    assert!(matches!(flow.on_marked(), DeliveryAction::UpdateOrder { .. }));
    match flow.on_order_updated() {
        DeliveryAction::Finish(r) => {
            assert!(r.already_delivered);
            assert!(!r.success);
        }
        _ => panic!("expected the end"),
    }
}

#[test]
fn card_only_dock_skipped() {
    let mut opts = options(true);
    opts.closed_order_card_only = true;
    let mut flow = DeliveryFlow::new(request("item-1"), opts);
    flow.start();
    let mut card = delivery_card(0);
    card.source = CardSource::DockL1;
    match flow.on_cards(vec![card]) {
        DeliveryAction::Finish(r) => assert!(r.fail_reason.contains("card_only")),
        _ => panic!("expected the end"),
    }
}

#[test]
fn delayed_card_sleeps_then_generates() {
    let mut flow = DeliveryFlow::new(request("item-1"), options(false));
    flow.start();
    match flow.on_cards(vec![delivery_card(5)]) {
        DeliveryAction::Sleep { seconds } => assert_eq!(seconds, 5),
        _ => panic!("expected a sleep"),
    }
    assert!(matches!(flow.on_slept(), DeliveryAction::GenerateContent { .. }));
    match flow.on_content(None) {
        DeliveryAction::Finish(r) => assert_eq!(r.fail_reason, "商品 item-1 卡券内容生成失败"),
        _ => panic!("expected the end"),
    }
}

#[test]
fn failed_send_leaves_order_pending() {
    let mut flow = DeliveryFlow::new(request("item-1"), options(false));
    flow.start();
    flow.on_cards(vec![delivery_card(0)]);
    flow.on_content(Some(DeliveryContent { text: "卡密".to_string(), image_urls: vec![] }));
    match flow.on_sent(Err("网络错误".to_string())) {
        DeliveryAction::UpdateOrder { status, fail_reason, .. } => {
            assert_eq!(status, "pending");
            assert_eq!(fail_reason, "发送失败: 网络错误");
        }
        _ => panic!("expected an order update"),
    }
    match flow.on_order_updated() {
        DeliveryAction::Finish(r) => assert_eq!(r.fail_reason, "发送失败: 网络错误"),
        _ => panic!("expected the end"),
    }
}

struct Docs(Result<(), StoreError>);

impl KnowledgeStore for Docs {
    fn delete_document(&self, _document_id: &str) -> Result<(), StoreError> {
        self.0.clone()
    }
}

#[test]
fn delete_document_outcomes() {
    assert_eq!(DeleteDocument::execute(&Docs(Ok(())), "d-1"), Ok(true));
    assert_eq!(DeleteDocument::execute(&Docs(Err(StoreError::NotFound)), "d-1"), Ok(false));
    assert_eq!(DeleteDocument::execute(&Docs(Err(StoreError::Failed("磁盘满".to_string()))), "d-1"), Err("磁盘满".to_string()));
}

#[test]
fn import_flow_happy_path() {
    let (mut flow, first) = ImportFlow::<u32>::start("a.md", Some("markdown".to_string()));
    assert!(matches!(first, ImportAction::Parse));
    let id = match flow.on_parsed(Ok(vec!["一".to_string(), "二".to_string()]), "markdown".to_string()) {
        ImportAction::CreateDocument { id, name, source_type } => {
            assert_eq!(name, "a.md");
            assert_eq!(source_type, "markdown");
            assert_eq!(id.len(), 36);
            id
        }
        _ => panic!("expected a creation"),
    };
    assert!(matches!(flow.on_created(Ok(7)), ImportAction::Embed { .. }));
    match flow.on_embedded(Ok(2)) {
        ImportAction::InsertChunks { document_id, chunks } => {
            assert_eq!(document_id, id);
            assert_eq!(chunks.len(), 2);
        }
        _ => panic!("expected insertions"),
    }
    match flow.on_inserted(0) {
        ImportAction::FinishDocument { chunk_count, .. } => assert_eq!(chunk_count, 2),
        _ => panic!("expected the finish"),
    }
    match flow.on_finished(Ok(())) {
        ImportAction::Finish(Ok(o)) => assert_eq!(o.document, 7),
        _ => panic!("expected success"),
    }
}

#[test]
fn import_flow_failures() {
    let (_flow, first) = ImportFlow::<u32>::start("a.exe", None);
    match first {
        ImportAction::Finish(Err(m)) => assert_eq!(m, "不支持的文件类型: a.exe"),
        _ => panic!("expected a failure"),
    }
    let (mut flow, _) = ImportFlow::<u32>::start("a.md", Some("markdown".to_string()));
    match flow.on_parsed(Ok(vec![]), "markdown".to_string()) {
        ImportAction::Finish(Err(m)) => assert_eq!(m, "文档解析后没有可检索的内容"),
        _ => panic!("expected a failure"),
    }
    let (mut flow, _) = ImportFlow::<u32>::start("a.md", Some("markdown".to_string()));
    flow.on_parsed(Ok(vec!["一".to_string()]), "markdown".to_string());
    flow.on_created(Ok(1));
    assert!(matches!(flow.on_embedded(Ok(3)), ImportAction::DeleteDocument { .. }));
    match flow.on_deleted() {
        ImportAction::Finish(Err(m)) => assert_eq!(m, "嵌入结果与分块数量不一致，已中止导入"),
        _ => panic!("expected a failure"),
    }
    let (mut flow, _) = ImportFlow::<u32>::start("a.md", Some("markdown".to_string()));
    flow.on_parsed(Ok(vec!["一".to_string()]), "markdown".to_string());
    flow.on_created(Ok(1));
    flow.on_embedded(Ok(1));
    assert!(matches!(flow.on_inserted(2), ImportAction::DeleteDocument { .. }));
    match flow.on_deleted() {
        ImportAction::Finish(Err(m)) => assert_eq!(m, "2 个分块写入失败，已中止导入"),
        _ => panic!("expected a failure"),
    }
}

#[test]
fn ocr_first_success_wins() {
    let runs = vec![
        TesseractRun { success: false, stdout: String::new(), stderr: " no chi_sim ".to_string() },
        TesseractRun { success: true, stdout: "  识别文本 \n".to_string(), stderr: String::new() },
    ];
    assert_eq!(ocr_outcome(&runs).expect("text"), "识别文本");
    assert_eq!(ocr_languages(), vec!["chi_sim+eng", "eng"]);
}

#[test]
fn ocr_failures_report_last_error() {
    let runs = vec![
        TesseractRun { success: false, stdout: String::new(), stderr: "first".to_string() },
        TesseractRun { success: false, stdout: String::new(), stderr: " second ".to_string() },
    ];
    match ocr_outcome(&runs) {
        Err(OcrError::OcrFailed(m)) => assert_eq!(m, "second"),
        _ => panic!("expected a failure"),
    }
    match ocr_outcome(&[]) {
        Err(e) => assert_eq!(e.to_string(), "ocr failed: tesseract failed"),
        _ => panic!("expected a failure"),
    }
    assert_eq!(OcrError::ToolMissing("PDFium 未安装".to_string()).to_string(), "PDFium 未安装");
    assert_eq!(OcrError::Render("x".to_string()).to_string(), "render failed: x");
}

struct Catalog(Result<Vec<String>, String>);

impl DocumentCatalog<String> for Catalog {
    fn list_documents(&self) -> Result<Vec<String>, String> {
        self.0.clone()
    }
}

#[test]
fn list_documents_returns_the_catalog() {
    let ok = Catalog(Ok(vec!["b".to_string(), "a".to_string()]));
    assert_eq!(ListDocuments::execute(&ok).expect("ok"), vec!["b".to_string(), "a".to_string()]);
    let failing = Catalog(Err("db down".to_string()));
    assert_eq!(ListDocuments::execute(&failing).unwrap_err(), "db down");
}

#[test]
fn decide_uses_the_given_answers() {
    let pipe = pipeline(vec![], InMemoryDefaultReply::default());
    let input = ChatInput::new("a", "c", "u", None, "你好", false, false, false);
    match pipe.decide(&input, true, None, false) {
        PipelineStep::Done(o) => assert_eq!(o.decision, AutoReplyDecision::Skip { reason: "duplicate_message".to_string() }),
        _ => panic!("expected a decision"),
    }
    match pipe.decide(&input, false, Some(("默认".to_string(), true)), true) {
        PipelineStep::Done(o) => assert_eq!(o.decision, AutoReplyDecision::Skip { reason: "default_reply_once_used".to_string() }),
        _ => panic!("expected a decision"),
    }
    match pipe.decide(&input, false, Some(("默认".to_string(), true)), false) {
        PipelineStep::Done(o) => assert_eq!(o.decision, AutoReplyDecision::Default("默认".to_string())),
        _ => panic!("expected a decision"),
    }
}
