use mb_mail_service::locale_from_optional_code;
use mb_mail_service::render::EngineError;
use mb_mail_service::serve::available_locales;
use mb_mail_service::Locales;

fn table() -> Locales {
    Locales::new(vec!["de".to_string(), "en".to_string(), "fr".to_string()], 1).unwrap()
}

#[test]
fn table_needs_a_default_that_is_in_it() {
    assert!(Locales::new(vec!["en".to_string()], 0).is_some());
    assert!(Locales::new(vec!["en".to_string()], 1).is_none());
    assert!(Locales::new(Vec::new(), 0).is_none());
}

#[test]
fn table_takes_no_empty_or_padded_code() {
    assert!(Locales::new(vec!["en".to_string(), "".to_string()], 0).is_none());
    assert!(Locales::new(vec![" en".to_string()], 0).is_none());
    assert!(Locales::new(vec!["en\n".to_string()], 0).is_none());
    assert!(Locales::new(vec!["pt BR".to_string()], 0).is_some());
}

#[test]
fn absent_code_gives_the_default_locale() {
    let locales = table();
    let locale = locale_from_optional_code(None, &locales).unwrap();
    assert_eq!(locale.as_str(), "en");
    assert_eq!(locales.default_locale().as_str(), "en");
}

#[test]
fn empty_code_gives_the_default_locale() {
    let locales = table();
    let locale = locale_from_optional_code(Some(String::new()), &locales).unwrap();
    assert_eq!(locale.as_str(), "en");
}

#[test]
fn absent_code_and_default_code_give_the_same_locale() {
    let locales = table();
    let absent = locale_from_optional_code(None, &locales).unwrap();
    let spelled = locale_from_optional_code(Some("en".to_string()), &locales).unwrap();
    assert_eq!(absent.as_str(), spelled.as_str());
}

#[test]
fn code_on_offer_gives_its_locale() {
    let locales = table();
    assert_eq!(locale_from_optional_code(Some("fr".to_string()), &locales).unwrap().as_str(), "fr");
    assert_eq!(locale_from_optional_code(Some("de".to_string()), &locales).unwrap().as_str(), "de");
}

#[test]
fn white_space_around_a_code_is_ignored() {
    let locales = table();
    let locale = locale_from_optional_code(Some("  fr\t\n".to_string()), &locales).unwrap();
    assert_eq!(locale.as_str(), "fr");
    let wide = locale_from_optional_code(Some("\u{3000}de\u{a0}".to_string()), &locales).unwrap();
    assert_eq!(wide.as_str(), "de");
}

#[test]
fn unknown_code_is_a_bad_language_code_that_carries_it() {
    let locales = table();
    match locale_from_optional_code(Some("xx".to_string()), &locales) {
        Err(EngineError::BadLanguageCode(code)) => assert_eq!(code, "xx"),
        other => panic!("unexpected outcome: {:?}", other),
    }
    match locale_from_optional_code(Some(" EN ".to_string()), &locales) {
        Err(EngineError::BadLanguageCode(code)) => assert_eq!(code, " EN "),
        other => panic!("unexpected outcome: {:?}", other),
    }
}

#[test]
fn blank_code_is_not_empty_and_names_no_locale() {
    let locales = table();
    match locale_from_optional_code(Some("  ".to_string()), &locales) {
        Err(EngineError::BadLanguageCode(code)) => assert_eq!(code, "  "),
        other => panic!("unexpected outcome: {:?}", other),
    }
}

#[test]
fn find_matches_letter_for_letter() {
    let locales = table();
    assert_eq!(locales.find("de").unwrap().as_str(), "de");
    assert!(locales.find("De").is_none());
    assert!(locales.find(" de").is_none());
}

#[test]
fn available_locales_are_listed_in_the_order_of_the_table() {
    let locales = table();
    assert_eq!(available_locales(&locales), &vec!["de".to_string(), "en".to_string(), "fr".to_string()]);
}
