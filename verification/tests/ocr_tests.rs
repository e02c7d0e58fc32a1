use smartpaste::ocr::recognized_text;
use smartpaste::ocr::{
    configured_engine, install_engine, ocr_text_from_result, parse_language, parse_provider,
    reset_ocr_engine, resolve_ocr_settings, EngineSlot, OcrLanguage, OcrProviderKind,
};

#[test]
fn languages_are_read_loosely() {
    assert_eq!(parse_language(" ENG "), Ok(OcrLanguage::English));
    assert_eq!(parse_language("zh-CN"), Ok(OcrLanguage::Chinese));
    assert_eq!(parse_language("chi_sim"), Ok(OcrLanguage::Chinese));
    assert_eq!(parse_language("Japanese"), Ok(OcrLanguage::Japanese));
    assert_eq!(parse_language(" Klingon "), Err("Unsupported language code: klingon".to_string()));
}

#[test]
fn providers_are_read_loosely() {
    assert_eq!(parse_provider("Auto"), Ok(OcrProviderKind::Auto));
    assert_eq!(parse_provider(" tesseract"), Ok(OcrProviderKind::Tesseract));
    assert_eq!(parse_provider("WINDOWS"), Ok(OcrProviderKind::Windows));
    assert_eq!(parse_provider("macos"), Ok(OcrProviderKind::MacOS));
    assert_eq!(parse_provider("Cloud"), Err("Unsupported OCR provider: cloud".to_string()));
}

#[test]
fn settings_defaults_and_errors() {
    let s = resolve_ocr_settings(None, None, None).unwrap();
    assert_eq!(s.provider, OcrProviderKind::Auto);
    assert_eq!(s.languages, vec![OcrLanguage::English, OcrLanguage::Chinese]);
    assert_eq!(s.timeout_secs, 30);

    let s = resolve_ocr_settings(
        Some("windows".to_string()),
        Some(vec!["eng".to_string(), "chi".to_string(), "jpn".to_string()]),
        Some(60),
    )
    .unwrap();
    assert_eq!(s.provider, OcrProviderKind::Windows);
    assert_eq!(s.languages, vec![OcrLanguage::English, OcrLanguage::Chinese, OcrLanguage::Japanese]);
    assert_eq!(s.timeout_secs, 60);

    assert_eq!(
        resolve_ocr_settings(Some("x".to_string()), None, None).unwrap_err(),
        "Failed to parse OCR provider: Unsupported OCR provider: x"
    );
    assert_eq!(
        resolve_ocr_settings(None, Some(vec!["eng".to_string(), "fr".to_string(), "de".to_string()]), None)
            .unwrap_err(),
        "Failed to parse languages: Unsupported language code: fr"
    );
}

#[test]
fn engine_slot() {
    let mut slot: EngineSlot<u32> = EngineSlot::new();
    assert_eq!(configured_engine(&slot), Err("OCR engine is not configured.".to_string()));
    install_engine(&mut slot, 7);
    assert_eq!(configured_engine(&slot), Ok(&7));
    install_engine(&mut slot, 8);
    assert_eq!(configured_engine(&slot), Ok(&8));
    assert_eq!(reset_ocr_engine(&mut slot), Ok(()));
    assert!(configured_engine(&slot).is_err());
}

#[test]
fn recognised_text_is_joined() {
    let parsed = Some(vec![Some("line one".to_string()), None, Some("line two".to_string())]);
    assert_eq!(ocr_text_from_result(parsed, "raw".to_string()), "line one\nline two");
    assert_eq!(ocr_text_from_result(Some(vec![]), "raw".to_string()), "");
    assert_eq!(ocr_text_from_result(Some(vec![Some("".to_string()), Some("a".to_string())]), "r".to_string()), "\na");
    assert_eq!(ocr_text_from_result(None, "raw".to_string()), "raw");
}

#[test]
fn recognition_results_from_the_engine() {
    assert_eq!(
        recognized_text(r#"[{"text":"a","confidence":0.9},{"confidence":0.1},{"text":"b"}]"#.to_string()),
        "a\nb"
    );
    assert_eq!(recognized_text("plain words".to_string()), "plain words");
    assert_eq!(recognized_text("[]".to_string()), "");
}
