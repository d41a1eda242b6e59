use mime_quoting::categories::category_of;
use mime_quoting::quoting::MimeObsQuoting;
use mime_quoting::quoting::MimeObsUtf8Quoting;
use mime_quoting::quoting::QuotingClass;
use mime_quoting::validator::MimeTokenValidator;
use mime_quoting::profiles::FwsState;
use mime_quoting::profiles::GrammarError;
use mime_quoting::profiles::MimeObsParsing;
use mime_quoting::profiles::MimeObsParsingUtf8;
use mime_quoting::profiles::MimeParsing;
use mime_quoting::profiles::MimeParsingUtf8;
use mime_quoting::profiles::ParserState;

#[test]
fn classify_is_total_over_all_values() {
    for v in 0..=255u8 {
        let r = MimeObsQuoting::classify_for_quoting(v);
        assert!(matches!(
            r,
            QuotingClass::QText | QuotingClass::NeedsQuoting | QuotingClass::Invalid
        ));
        let e = MimeObsUtf8Quoting::classify_for_quoting(v);
        assert!(matches!(e, QuotingClass::QText | QuotingClass::NeedsQuoting));
    }
}

#[test]
fn qtext_ws_values_classify_as_qtext() {
    for v in 0..=255u8 {
        if category_of(v).qtext_ws {
            assert_eq!(MimeObsQuoting::classify_for_quoting(v), QuotingClass::QText);
        }
    }
}

#[test]
fn extended_classifier_never_stricter() {
    fn rank(c: &QuotingClass) -> u8 {
        match c {
            QuotingClass::QText => 0,
            QuotingClass::NeedsQuoting => 1,
            QuotingClass::Invalid => 2,
        }
    }
    for v in 0..=255u8 {
        let r = MimeObsQuoting::classify_for_quoting(v);
        let e = MimeObsUtf8Quoting::classify_for_quoting(v);
        assert!(rank(&e) <= rank(&r));
    }
}

#[test]
fn profile_predicates_agree_with_categories() {
    for v in 0..=255u8 {
        let obs = v <= 0x7f;
        assert_eq!(MimeObsParsing::can_be_quoted(v), obs);
        assert_eq!(MimeObsParsingUtf8::can_be_quoted(v), obs);
        let cat = category_of(v);
        let modern = cat.ws || cat.qtext || cat.dquote_or_escape;
        assert_eq!(MimeParsing::can_be_quoted(v), modern);
        assert_eq!(MimeParsingUtf8::can_be_quoted(v), modern);
    }
}

#[test]
fn validator_runs_are_identical_on_same_input() {
    let input: Vec<u8> = b"text/x-dvi; q=.8".to_vec();
    let mut first = MimeTokenValidator::new();
    let mut second = MimeTokenValidator::new();
    let first_results: Vec<bool> = input.iter().map(|&v| first.next(v)).collect();
    let second_results: Vec<bool> = input.iter().map(|&v| second.next(v)).collect();
    assert_eq!(first_results, second_results);
    assert_eq!(first.end(), second.end());
    assert!(first.end());
}

#[test]
fn scenario_plain_letter() {
    let cat = category_of(0x41);
    assert!(cat.token);
    assert!(cat.qtext);
    assert!(!cat.ws);
    assert_eq!(MimeObsQuoting::classify_for_quoting(0x41), QuotingClass::QText);
    assert_eq!(MimeObsUtf8Quoting::classify_for_quoting(0x41), QuotingClass::QText);
    let mut val = MimeTokenValidator::new();
    assert!(val.next(0x41));
    assert!(val.end());
}

#[test]
fn scenario_quote_delimiter() {
    let cat = category_of(0x22);
    assert!(cat.dquote_or_escape);
    assert!(!cat.token);
    assert!(!cat.qtext);
    let mut val = MimeTokenValidator::new();
    assert!(!val.next(0x22));
    assert!(MimeParsing::can_be_quoted(0x22));
    assert!(MimeParsingUtf8::can_be_quoted(0x22));
    assert!(MimeObsParsing::can_be_quoted(0x22));
    assert!(MimeObsParsingUtf8::can_be_quoted(0x22));
}

#[test]
fn scenario_non_ascii_byte() {
    assert_eq!(MimeObsQuoting::classify_for_quoting(0xc3), QuotingClass::Invalid);
    assert_eq!(MimeObsUtf8Quoting::classify_for_quoting(0xc3), QuotingClass::QText);
    assert_eq!(
        MimeObsParsing::handle_normal_state(0xc3),
        Err(GrammarError::IllegalCodeUnit)
    );
    assert_eq!(
        MimeParsing::handle_normal_state(0xc3),
        Err(GrammarError::IllegalCodeUnit)
    );
    assert_eq!(
        MimeObsParsingUtf8::handle_normal_state(0xc3),
        Ok((ParserState::Normal, true))
    );
    assert_eq!(
        MimeParsingUtf8::handle_normal_state(0xc3),
        Ok((ParserState::Normal, true))
    );
}

#[test]
fn scenario_tab() {
    let cat = category_of(0x09);
    assert!(cat.ws);
    assert!(cat.qtext_ws);
    assert!(!cat.qtext);
    assert_eq!(MimeObsQuoting::classify_for_quoting(0x09), QuotingClass::QText);
    let folding = Ok((ParserState::Folding(FwsState::Ws), true));
    assert_eq!(MimeObsParsing::handle_normal_state(0x09), folding);
    assert_eq!(MimeObsParsingUtf8::handle_normal_state(0x09), folding);
    assert_eq!(MimeParsing::handle_normal_state(0x09), folding);
    assert_eq!(MimeParsingUtf8::handle_normal_state(0x09), folding);
}

#[test]
fn token_category_exact_membership() {
    let tspecials = b"()<>@,;:\\\"/[]?=";
    for v in 0..=255u8 {
        let expected = (0x21..=0x7e).contains(&v) && !tspecials.contains(&v);
        assert_eq!(category_of(v).token, expected);
    }
}

#[test]
fn qtext_category_exact_membership() {
    for v in 0..=255u8 {
        let expected = v == 0x21 || (0x23..=0x5b).contains(&v) || (0x5d..=0x7e).contains(&v);
        let cat = category_of(v);
        assert_eq!(cat.qtext, expected);
        assert_eq!(cat.ws, v == 0x20 || v == 0x09);
        assert_eq!(cat.qtext_ws, cat.qtext || cat.ws);
        assert_eq!(cat.dquote_or_escape, v == 0x22 || v == 0x5c);
    }
}

#[test]
fn line_fold_is_absorbed_and_whitespace_emitted() {
    let st0 = ParserState::Normal;
    let (st1, emit1) = MimeParsing::advance(&st0, b'a').unwrap();
    assert_eq!((st1, emit1), (ParserState::Normal, true));
    let (st2, emit2) = MimeParsing::advance(&st1, 0x0d).unwrap();
    assert_eq!((st2, emit2), (ParserState::Folding(FwsState::HitCr), false));
    let (st3, emit3) = MimeParsing::advance(&st2, 0x0a).unwrap();
    assert_eq!((st3, emit3), (ParserState::Folding(FwsState::HitNl), false));
    let (st4, emit4) = MimeParsing::advance(&st3, b' ').unwrap();
    assert_eq!((st4, emit4), (ParserState::Folding(FwsState::Ws), true));
    let (st5, emit5) = MimeParsing::advance(&st4, b'b').unwrap();
    assert_eq!((st5, emit5), (ParserState::Normal, true));
    assert_eq!(MimeParsing::finish(&st5), Ok(()));
}

#[test]
fn malformed_fold_is_reported() {
    let after_cr = ParserState::Folding(FwsState::HitCr);
    assert_eq!(
        MimeObsParsing::advance(&after_cr, b'a'),
        Err(GrammarError::MalformedFold)
    );
    let after_nl = ParserState::Folding(FwsState::HitNl);
    assert_eq!(
        MimeParsingUtf8::advance(&after_nl, b'a'),
        Err(GrammarError::MalformedFold)
    );
}

#[test]
fn premature_end_is_reported() {
    assert_eq!(
        MimeParsing::finish(&ParserState::Folding(FwsState::HitCr)),
        Err(GrammarError::PrematureEnd)
    );
    assert_eq!(
        MimeObsParsingUtf8::finish(&ParserState::Folding(FwsState::HitNl)),
        Err(GrammarError::PrematureEnd)
    );
    assert_eq!(MimeObsParsing::finish(&ParserState::Folding(FwsState::Ws)), Ok(()));
    assert_eq!(MimeObsParsing::finish(&ParserState::Normal), Ok(()));
}

#[test]
fn profile_flags_are_fixed() {
    assert!(!MimeObsParsing::allow_non_ascii());
    assert!(MimeObsParsing::obsolete_syntax());
    assert!(MimeObsParsingUtf8::allow_non_ascii());
    assert!(MimeObsParsingUtf8::obsolete_syntax());
    assert!(!MimeParsing::allow_non_ascii());
    assert!(!MimeParsing::obsolete_syntax());
    assert!(MimeParsingUtf8::allow_non_ascii());
    assert!(!MimeParsingUtf8::obsolete_syntax());
}

#[test]
fn whitespace_run_may_resume_or_fold() {
    let in_ws = ParserState::Folding(FwsState::Ws);
    assert_eq!(
        MimeParsing::advance(&in_ws, b' '),
        Ok((ParserState::Folding(FwsState::Ws), true))
    );
    assert_eq!(
        MimeParsing::advance(&in_ws, 0x0d),
        Ok((ParserState::Folding(FwsState::HitCr), false))
    );
    assert_eq!(MimeParsing::advance(&in_ws, b'x'), Ok((ParserState::Normal, true)));
    assert_eq!(
        MimeParsing::advance(&in_ws, 0xc3),
        Err(GrammarError::IllegalCodeUnit)
    );
    assert_eq!(
        MimeParsingUtf8::advance(&in_ws, 0xc3),
        Ok((ParserState::Normal, true))
    );
}
