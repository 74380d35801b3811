use rgi::bounded::{FrequencyPenalty, FrequencyPenaltyError, MaxTokenError, MaxTokens,
    PresencePenalty, PresencePenaltyError, Stop, StopError, Temperature, TemperatureError,
    TopLogProbs, TopLogProbsError, TopP, TopPError};

#[test]
fn temperature_accepts_exactly_its_range() {
    assert_eq!(Temperature::new(0).unwrap().get(), 0);
    assert_eq!(Temperature::new(70).unwrap().get(), 70);
    assert_eq!(Temperature::new(200).unwrap().get(), 200);
    assert!(matches!(Temperature::new(-1), Err(TemperatureError::TooLow)));
    assert!(matches!(Temperature::new(-100), Err(TemperatureError::TooLow)));
    assert!(matches!(Temperature::new(201), Err(TemperatureError::TooHigh)));
    assert!(matches!(Temperature::new(300), Err(TemperatureError::TooHigh)));
}

#[test]
fn temperature_presets_and_default() {
    assert_eq!(Temperature::coding().get(), 0);
    assert_eq!(Temperature::data_cleaning().get(), 100);
    assert_eq!(Temperature::conversation().get(), 130);
    assert_eq!(Temperature::translation().get(), 130);
    assert_eq!(Temperature::poetry().get(), 200);
    assert_eq!(Temperature::default().get(), 100);
}

#[test]
fn top_p_accepts_exactly_its_range() {
    assert_eq!(TopP::new(0).unwrap().get(), 0);
    assert_eq!(TopP::new(95).unwrap().get(), 95);
    assert_eq!(TopP::new(100).unwrap().get(), 100);
    assert!(matches!(TopP::new(-1), Err(TopPError::TooLow)));
    assert!(matches!(TopP::new(101), Err(TopPError::TooHigh)));
    assert_eq!(TopP::default().get(), 100);
}

#[test]
fn frequency_penalty_accepts_exactly_its_range() {
    assert_eq!(FrequencyPenalty::new(-200).unwrap().get(), -200);
    assert_eq!(FrequencyPenalty::new(150).unwrap().get(), 150);
    assert_eq!(FrequencyPenalty::new(200).unwrap().get(), 200);
    assert!(matches!(FrequencyPenalty::new(-201), Err(FrequencyPenaltyError::TooLow)));
    assert!(matches!(FrequencyPenalty::new(201), Err(FrequencyPenaltyError::TooHigh)));
    assert_eq!(FrequencyPenalty::default().get(), 0);
}

#[test]
fn presence_penalty_accepts_exactly_its_range() {
    assert_eq!(PresencePenalty::new(-200).unwrap().get(), -200);
    assert_eq!(PresencePenalty::new(0).unwrap().get(), 0);
    assert_eq!(PresencePenalty::new(200).unwrap().get(), 200);
    assert!(matches!(PresencePenalty::new(-300), Err(PresencePenaltyError::TooLow)));
    assert!(matches!(PresencePenalty::new(300), Err(PresencePenaltyError::TooHigh)));
    assert_eq!(PresencePenalty::default().get(), 0);
}

#[test]
fn max_tokens_accepts_exactly_its_range() {
    assert_eq!(MaxTokens::new(1).unwrap().get(), 1);
    assert_eq!(MaxTokens::new(4000).unwrap().get(), 4000);
    assert_eq!(MaxTokens::new(8000).unwrap().get(), 8000);
    assert!(matches!(MaxTokens::new(0), Err(MaxTokenError::TooLow)));
    assert!(matches!(MaxTokens::new(8001), Err(MaxTokenError::TooHigh)));
    assert!(matches!(MaxTokens::new(9000), Err(MaxTokenError::TooHigh)));
    assert_eq!(MaxTokens::default().get(), 4000);
}

#[test]
fn top_log_probs_accepts_exactly_its_range() {
    assert_eq!(TopLogProbs::new(0).unwrap().get(), 0);
    assert_eq!(TopLogProbs::new(5).unwrap().get(), 5);
    assert_eq!(TopLogProbs::new(20).unwrap().get(), 20);
    assert!(matches!(TopLogProbs::new(-1), Err(TopLogProbsError::TooLow)));
    assert!(matches!(TopLogProbs::new(21), Err(TopLogProbsError::TooHigh)));
}

#[test]
fn stop_accepts_up_to_sixteen_sequences() {
    let empty = Stop::new(Vec::new()).unwrap();
    assert_eq!(empty.len(), 0);
    let one = Stop::new(vec![String::from("</think>")]).unwrap();
    assert_eq!(one.get(), &[String::from("</think>")]);
    let sixteen: Vec<String> = (0..16).map(|i| format!("s{}", i)).collect();
    assert_eq!(Stop::new(sixteen).unwrap().len(), 16);
    let seventeen: Vec<String> = (0..17).map(|i| format!("s{}", i)).collect();
    assert!(matches!(Stop::new(seventeen), Err(StopError::TooManyStops)));
}
