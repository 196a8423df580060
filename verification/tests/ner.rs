use dbmcp::ner::{
    aggregate_words, decode_row, decode_spans, entity_for_core, has_supported_entity,
    labels_from_id2label, ner_entities, pack_batch, pad_token_id, parse_bio, span_to_result,
    takes_token_type_ids, Entity, NerError, Score, Span, TokenPrediction, TokenTag, WindowTokens,
    RECOGNIZER_NAME, route_windows, window_batches, TextWindows, WindowRoute, WindowSlot, NER_BATCH_SIZE,
};

fn score(p: f32) -> Score {
    Score::from_bits(p.to_bits()).expect("a probability")
}

fn tag(entity: Option<Entity>, is_begin: bool, p: f32, start: usize, end: usize) -> TokenTag {
    TokenTag { entity, is_begin, score: p.to_bits(), start, end }
}

fn as_f32(s: Score) -> f32 {
    f32::from_bits(s.to_bits())
}

#[test]
fn parse_bio_maps_person_and_location() {
    assert_eq!(parse_bio("B-PER"), (Some(Entity::Person), true));
    assert_eq!(parse_bio("I-PER"), (Some(Entity::Person), false));
    assert_eq!(parse_bio("B-LOC"), (Some(Entity::Location), true));
    assert_eq!(parse_bio("I-GPE"), (Some(Entity::Location), false));
}

#[test]
fn parse_bio_maps_organization_nrp_facility() {
    assert_eq!(parse_bio("B-ORG"), (Some(Entity::Organization), true));
    assert_eq!(parse_bio("I-ORGANIZATION"), (Some(Entity::Organization), false));
    assert_eq!(parse_bio("B-NORP"), (Some(Entity::Nrp), true));
    assert_eq!(parse_bio("B-NRP"), (Some(Entity::Nrp), true));
    assert_eq!(parse_bio("B-FAC"), (Some(Entity::Facility), true));
}

#[test]
fn parse_bio_ignores_outside_and_unmapped() {
    assert_eq!(parse_bio("O"), (None, false));
    assert_eq!(parse_bio("B-MISC"), (None, true));
    assert_eq!(parse_bio("B-DATE"), (None, true));
    assert_eq!(parse_bio("B-MONEY"), (None, true));
}

#[test]
fn decode_merges_consecutive_same_entity_with_max_score() {
    let tags = [
        tag(Some(Entity::Person), true, 0.9, 0, 5),
        tag(Some(Entity::Person), false, 0.3, 6, 11),
    ];
    let spans = decode_spans(&tags, score(0.5));
    assert_eq!(spans.len(), 1);
    assert_eq!(spans[0].entity, Entity::Person);
    assert_eq!((spans[0].start, spans[0].end), (0, 11));
    assert!((as_f32(spans[0].score) - 0.9).abs() < 1e-6, "expected max 0.9");
}

#[test]
fn decode_max_keeps_name_a_mean_would_drop() {
    let tags = [
        tag(Some(Entity::Person), true, 0.9, 0, 5),
        tag(Some(Entity::Person), false, 0.3, 6, 11),
    ];
    let spans = decode_spans(&tags, score(0.7));
    assert_eq!(spans.len(), 1, "max aggregation must keep this span");
}

#[test]
fn decode_splits_on_new_begin() {
    let tags = [
        tag(Some(Entity::Person), true, 0.9, 0, 3),
        tag(Some(Entity::Person), true, 0.9, 4, 7),
    ];
    let spans = decode_spans(&tags, score(0.5));
    assert_eq!(spans.len(), 2);
}

#[test]
fn decode_outside_token_closes_span() {
    let tags = [
        tag(Some(Entity::Location), true, 0.9, 0, 6),
        TokenTag::outside(),
        tag(Some(Entity::Location), true, 0.9, 10, 16),
    ];
    let spans = decode_spans(&tags, score(0.5));
    assert_eq!(spans.len(), 2);
    assert_eq!(spans[0].entity, Entity::Location);
}

#[test]
fn decode_drops_below_threshold() {
    let tags = [tag(Some(Entity::Person), true, 0.3, 0, 5)];
    let spans = decode_spans(&tags, score(0.5));
    assert!(spans.is_empty());
}

#[test]
fn decode_skips_zero_length_span() {
    let tags = [tag(Some(Entity::Person), true, 0.9, 4, 4)];
    let spans = decode_spans(&tags, score(0.5));
    assert!(spans.is_empty());
}

#[test]
fn parse_id2label_builds_indexed_list() {
    let entries = vec![(0, "O".to_owned()), (1, "B-PER".to_owned()), (2, "I-PER".to_owned())];
    let labels = labels_from_id2label(entries).expect("valid id2label");
    assert_eq!(labels, vec!["O", "B-PER", "I-PER"]);
}

#[test]
fn parse_id2label_rejects_out_of_range_index() {
    let entries = vec![(0, "O".to_owned()), (5, "B-PER".to_owned())];
    assert!(labels_from_id2label(entries).is_err());
}

#[test]
fn id2label_gap_error_names_the_index() {
    let entries = vec![(0, "O".to_owned()), (5, "B-PER".to_owned())];
    match labels_from_id2label(entries) {
        Err(NerError::Load(m)) => assert_eq!(m, "id2label index 5 out of range"),
        other => panic!("unexpected {other:?}"),
    }
}

#[test]
fn has_supported_entity_detects_targets() {
    assert!(has_supported_entity(&["O".to_owned(), "B-PER".to_owned(), "I-LOC".to_owned()]));
}

#[test]
fn has_supported_entity_accepts_org_only_model() {
    assert!(has_supported_entity(&["O".to_owned(), "B-ORG".to_owned()]));
}

#[test]
fn has_supported_entity_false_without_targets() {
    assert!(!has_supported_entity(&["O".to_owned(), "B-MISC".to_owned(), "B-DATE".to_owned()]));
}

#[test]
fn decode_emits_organization_nrp_facility() {
    for entity in [Entity::Organization, Entity::Nrp, Entity::Facility] {
        let tags = [tag(Some(entity), true, 0.9, 0, 5)];
        let spans = decode_spans(&tags, score(0.5));
        assert_eq!(spans.len(), 1, "{entity:?} span must decode");
        assert_eq!(spans[0].entity, entity);
    }
}

#[test]
fn ner_entities_match_decoder_mapping() {
    for entity in ner_entities() {
        let core = match entity {
            Entity::Person => "PER",
            Entity::Location => "LOC",
            Entity::Organization => "ORG",
            Entity::Nrp => "NORP",
            Entity::Facility => "FAC",
        };
        assert_eq!(entity_for_core(core), Some(entity));
    }
}

#[test]
fn aggregate_folds_subwords_keeping_first_label_and_full_span() {
    let tags = [tag(Some(Entity::Organization), true, 0.6, 0, 2), tag(None, false, 0.9, 2, 3)];
    let words = aggregate_words(&tags, &[Some(0), Some(0)]);
    assert_eq!(words.len(), 1);
    assert_eq!(words[0].entity, Some(Entity::Organization));
    assert_eq!((words[0].start, words[0].end), (0, 3), "span covers the whole word");
    assert!((f32::from_bits(words[0].score) - 0.9).abs() < 1e-6, "score lifts to the max subword");
}

#[test]
fn aggregate_first_label_suppresses_later_entity_subword() {
    let tags = [tag(None, false, 0.3, 0, 2), tag(Some(Entity::Organization), true, 0.95, 2, 4)];
    let words = aggregate_words(&tags, &[Some(0), Some(0)]);
    assert_eq!(words.len(), 1);
    assert_eq!(words[0].entity, None);
    assert_eq!((words[0].start, words[0].end), (0, 4));
}

#[test]
fn aggregate_passes_special_tokens_through_as_outside() {
    let tags = [TokenTag::outside(), tag(Some(Entity::Person), true, 0.9, 0, 4), TokenTag::outside()];
    let words = aggregate_words(&tags, &[None, Some(0), None]);
    assert_eq!(words.len(), 3);
    assert!(words[0].entity.is_none());
    assert_eq!(words[1].entity, Some(Entity::Person));
    assert!(words[2].entity.is_none());
}

#[test]
fn aggregate_keeps_distinct_words_separate_for_bio_merge() {
    let tags = [
        tag(Some(Entity::Location), true, 0.9, 0, 3),
        tag(Some(Entity::Location), false, 0.8, 4, 13),
    ];
    let words = aggregate_words(&tags, &[Some(0), Some(1)]);
    assert_eq!(words.len(), 2, "distinct word ids must not fold together");
    let spans = decode_spans(&words, score(0.5));
    assert_eq!(spans.len(), 1, "I- continuation merges the two words");
    assert_eq!((spans[0].start, spans[0].end), (0, 13));
}

#[test]
fn span_to_result_stamps_recognizer_name_and_no_pattern() {
    let result = span_to_result(Span { entity: Entity::Person, start: 0, end: 5, score: score(0.9) });
    assert_eq!(result.entity_type, Entity::Person);
    assert_eq!(result.explanation.recognizer_name, RECOGNIZER_NAME);
    assert!(result.explanation.pattern_name.is_none());
}

#[test]
fn decoded_spans_reach_the_threshold() {
    let tags = [
        tag(Some(Entity::Person), true, 0.95, 0, 4),
        tag(Some(Entity::Location), true, 0.4, 5, 9),
        tag(Some(Entity::Location), false, 0.45, 10, 12),
        tag(Some(Entity::Facility), true, 0.6, 13, 13),
        tag(Some(Entity::Nrp), true, 0.61, 14, 20),
    ];
    let threshold = score(0.6);
    let spans = decode_spans(&tags, threshold);
    assert_eq!(spans.len(), 2);
    for s in &spans {
        assert!(s.start < s.end);
        assert!(s.score.to_bits() >= threshold.to_bits());
    }
}

#[test]
fn score_above_one_is_rejected() {
    assert!(Score::from_bits(1.5f32.to_bits()).is_none());
    assert!(Score::from_bits(1.0f32.to_bits()).is_some());
    assert_eq!(score(0.25).to_bits(), 0.25f32.to_bits());
}

#[test]
fn decode_row_filters_disallowed_entities_and_special_tokens() {
    let labels: Vec<String> = ["O", "B-PER", "I-PER", "B-LOC"].iter().map(|s| s.to_string()).collect();
    let preds = [
        TokenPrediction { word_id: None, label_index: 1, score: 0.99f32.to_bits(), start: 0, end: 0 },
        TokenPrediction { word_id: Some(0), label_index: 1, score: 0.9f32.to_bits(), start: 0, end: 4 },
        TokenPrediction { word_id: Some(1), label_index: 2, score: 0.8f32.to_bits(), start: 5, end: 9 },
        TokenPrediction { word_id: Some(2), label_index: 3, score: 0.9f32.to_bits(), start: 10, end: 15 },
        TokenPrediction { word_id: Some(3), label_index: 7, score: 0.9f32.to_bits(), start: 16, end: 20 },
    ];
    let allowed = [Entity::Person];
    let results = decode_row(&preds, &labels, &allowed, score(0.5));
    assert_eq!(results.len(), 1);
    assert_eq!(results[0].entity_type, Entity::Person);
    assert_eq!((results[0].start, results[0].end), (0, 9));
    assert_eq!(results[0].explanation.recognizer_name, "BertNerRecognizer");
}

#[test]
fn pack_batch_pads_rows_to_longest_window() {
    let windows = vec![
        WindowTokens { ids: vec![101, 7, 102], attention_mask: vec![1, 1, 1], type_ids: vec![0, 0, 0] },
        WindowTokens { ids: vec![101, 102], attention_mask: vec![1, 1], type_ids: vec![0, 1] },
    ];
    let b = pack_batch(&windows, 0, true).expect("non-empty batch");
    assert_eq!(b.max_len, 3);
    assert_eq!(b.input_ids, vec![101, 7, 102, 101, 102, 0]);
    assert_eq!(b.attention_mask, vec![1, 1, 1, 1, 1, 0]);
    assert_eq!(b.type_ids, vec![0, 0, 0, 0, 1, 0]);
    let no_types = pack_batch(&windows, 9, false).expect("non-empty batch");
    assert_eq!(no_types.input_ids, vec![101, 7, 102, 101, 102, 9]);
    assert!(no_types.type_ids.is_empty());
}

#[test]
fn pack_batch_skips_empty_batches() {
    assert!(pack_batch(&[], 0, false).is_none());
    let empty = vec![WindowTokens { ids: vec![], attention_mask: vec![], type_ids: vec![] }];
    assert!(pack_batch(&empty, 0, false).is_none());
}

#[test]
fn pack_batch_cuts_rows_at_the_sequence_limit() {
    let long: Vec<u32> = (0..600).collect();
    let windows = vec![WindowTokens {
        ids: long.clone(),
        attention_mask: vec![1; 600],
        type_ids: vec![0; 600],
    }];
    let b = pack_batch(&windows, 0, false).unwrap();
    assert_eq!(b.max_len, 512);
    assert_eq!(b.input_ids.len(), 512);
    assert_eq!(b.input_ids[511], 511);
}

#[test]
fn pad_id_prefers_padding_config_then_pad_token() {
    assert_eq!(pad_token_id(Some(3), Some(0)), 3);
    assert_eq!(pad_token_id(None, Some(7)), 7);
    assert_eq!(pad_token_id(None, None), 0);
}

#[test]
fn token_type_input_is_detected_by_name() {
    let bert: Vec<String> = ["input_ids", "attention_mask", "token_type_ids"].iter().map(|s| s.to_string()).collect();
    let distil: Vec<String> = ["input_ids", "attention_mask"].iter().map(|s| s.to_string()).collect();
    assert!(takes_token_type_ids(&bert));
    assert!(!takes_token_type_ids(&distil));
}

#[test]
fn ner_error_messages() {
    assert_eq!(NerError::Load("x".into()).message(), "NER model load failed: x");
    assert_eq!(NerError::Inference("y".into()).message(), "NER inference failed: y");
}

#[test]
fn windows_are_routed_text_by_text_overflow_first() {
    let texts = vec![
        Some(TextWindows { overflow_lens: vec![5, 0, 7], main_len: 12 }),
        None,
        Some(TextWindows { overflow_lens: vec![], main_len: 0 }),
        Some(TextWindows { overflow_lens: vec![], main_len: 3 }),
    ];
    let routes = route_windows(&texts);
    assert_eq!(
        routes,
        vec![
            WindowRoute { text: 0, slot: WindowSlot::Overflow(0) },
            WindowRoute { text: 0, slot: WindowSlot::Overflow(2) },
            WindowRoute { text: 0, slot: WindowSlot::Main },
            WindowRoute { text: 3, slot: WindowSlot::Main },
        ]
    );
    assert!(route_windows(&vec![None, None]).is_empty());
}

#[test]
fn windows_run_in_batches_of_the_batch_size() {
    assert_eq!(window_batches(0, NER_BATCH_SIZE), vec![]);
    assert_eq!(window_batches(5, NER_BATCH_SIZE), vec![(0, 5)]);
    assert_eq!(window_batches(16, 16), vec![(0, 16)]);
    assert_eq!(window_batches(35, 16), vec![(0, 16), (16, 32), (32, 35)]);
    assert_eq!(window_batches(3, 1), vec![(0, 1), (1, 2), (2, 3)]);
}
