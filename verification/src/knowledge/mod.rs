//! Knowledge base: document use cases and scanned-page OCR outcomes.
pub mod documents;
pub mod ocr;
