use bigfive::{calculate, Answer, Domain, Error, Facet, Ipip120, ScoreLevel};

fn create_uniform_answers(inventory: &Ipip120, value: u8) -> Vec<Answer> {
    inventory
        .questions()
        .iter()
        .map(|q| Answer {
            question_id: q.id.clone(),
            value,
        })
        .collect()
}

#[test]
fn test_all_ones_scoring() {
    let inventory = Ipip120::english();
    let answers = create_uniform_answers(&inventory, 1);
    let profile = calculate(&inventory, &answers).unwrap();

    // With all 1s, reversed questions score 5, normal questions score 1
    assert_eq!(profile.domains.len(), 5);

    for domain_score in &profile.domains {
        assert_eq!(domain_score.facets.len(), 6);
    }
}

#[test]
fn test_all_threes_scoring() {
    let inventory = Ipip120::english();
    let answers = create_uniform_answers(&inventory, 3);
    let profile = calculate(&inventory, &answers).unwrap();

    // With all 3s (neutral), reversed or not, score is always 3
    for domain_score in &profile.domains {
        assert_eq!(domain_score.raw, 72);
        assert_eq!(domain_score.level, ScoreLevel::Neutral);

        for facet_score in &domain_score.facets {
            assert_eq!(facet_score.raw, 12);
            assert_eq!(facet_score.level, ScoreLevel::Neutral);
        }
    }
}

#[test]
fn test_all_fives_scoring() {
    let inventory = Ipip120::english();
    let answers = create_uniform_answers(&inventory, 5);
    let profile = calculate(&inventory, &answers).unwrap();

    assert_eq!(profile.domains.len(), 5);
}

#[test]
fn test_reverse_scoring() {
    let inventory = Ipip120::english();

    // Find a reversed question
    let reversed_q = inventory
        .questions()
        .iter()
        .find(|q| q.reversed)
        .expect("Should have reversed questions");

    // Find a non-reversed question in the same facet
    let normal_q = inventory.questions().iter().find(|q| {
        !q.reversed && q.domain == reversed_q.domain && q.facet_index == reversed_q.facet_index
    });

    if let Some(normal_q) = normal_q {
        let mut answers: Vec<Answer> = inventory
            .questions()
            .iter()
            .map(|q| Answer {
                question_id: q.id.clone(),
                value: 3,
            })
            .collect();

        for answer in &mut answers {
            if answer.question_id == reversed_q.id {
                answer.value = 1; // Will become 5 after reverse
            }
            if answer.question_id == normal_q.id {
                answer.value = 5; // Stays 5
            }
        }

        let profile = calculate(&inventory, &answers).unwrap();

        let facet =
            Facet::from_domain_and_index(reversed_q.domain, reversed_q.facet_index).unwrap();
        let facet_score = profile.facet_score(facet).unwrap();

        // 2 questions with score 5 + 2 questions with score 3 = 16
        assert_eq!(facet_score.raw, 16);
    }
}

#[test]
fn test_invalid_answer_count() {
    let inventory = Ipip120::english();
    let answers = vec![Answer {
        question_id: "test".to_string(),
        value: 3,
    }];

    let result = calculate(&inventory, &answers);
    assert!(matches!(result, Err(Error::InvalidAnswerCount(1))));
}

#[test]
fn test_invalid_answer_value() {
    let inventory = Ipip120::english();
    let mut answers = create_uniform_answers(&inventory, 3);
    answers[0].value = 6; // Invalid

    let result = calculate(&inventory, &answers);
    assert!(matches!(result, Err(Error::InvalidAnswerValue(6))));
}

#[test]
fn first_invalid_value_is_reported() {
    let inventory = Ipip120::english();
    let mut answers = create_uniform_answers(&inventory, 3);
    answers[5].value = 0;
    answers[7].value = 9;
    assert!(matches!(calculate(&inventory, &answers), Err(Error::InvalidAnswerValue(0))));
}

#[test]
fn missing_answer_names_the_question() {
    let inventory = Ipip120::english();
    let mut answers = create_uniform_answers(&inventory, 3);
    let missing = answers[10].question_id.clone();
    answers[10].question_id = "unknown".to_string();
    match calculate(&inventory, &answers) {
        Err(Error::MissingAnswer(id)) => assert_eq!(id, missing),
        other => panic!("unexpected: {:?}", other.map(|p| p.domains.len())),
    }
}

#[test]
fn duplicate_answer_leaves_another_missing() {
    let inventory = Ipip120::english();
    let mut answers = create_uniform_answers(&inventory, 3);
    // Answer question 0 twice (3, then 5) and question 1 not at all.
    let id0 = answers[0].question_id.clone();
    answers[1] = Answer { question_id: id0, value: 5 };
    assert!(matches!(calculate(&inventory, &answers), Err(Error::MissingAnswer(_))));
}

#[test]
fn extreme_answers_give_extreme_levels() {
    let inventory = Ipip120::english();
    // Answer 5 to keyed items and 1 to reversed ones: every item scores 5.
    let answers: Vec<Answer> = inventory
        .questions()
        .iter()
        .map(|q| Answer { question_id: q.id.clone(), value: if q.reversed { 1 } else { 5 } })
        .collect();
    let profile = calculate(&inventory, &answers).unwrap();
    for (i, d) in profile.domains.iter().enumerate() {
        assert_eq!(d.domain, Domain::all()[i]);
        assert_eq!(d.raw, 120);
        assert_eq!(d.level, ScoreLevel::High);
        for (k, f) in d.facets.iter().enumerate() {
            assert_eq!(f.facet, d.domain.facets()[k]);
            assert_eq!(f.raw, 20);
            assert_eq!(f.level, ScoreLevel::High);
        }
    }
    // And the mirror image: every item scores 1.
    let answers: Vec<Answer> = inventory
        .questions()
        .iter()
        .map(|q| Answer { question_id: q.id.clone(), value: if q.reversed { 5 } else { 1 } })
        .collect();
    let profile = calculate(&inventory, &answers).unwrap();
    for d in &profile.domains {
        assert_eq!(d.raw, 24);
        assert_eq!(d.level, ScoreLevel::Low);
        for f in &d.facets {
            assert_eq!(f.raw, 4);
            assert_eq!(f.level, ScoreLevel::Low);
        }
    }
}

#[test]
fn domain_and_facet_lookups() {
    let inventory = Ipip120::english();
    let answers = create_uniform_answers(&inventory, 3);
    let profile = calculate(&inventory, &answers).unwrap();
    let d = profile.domain_score(Domain::Openness).unwrap();
    assert_eq!(d.domain, Domain::Openness);
    let f = profile.facet_score(Facet::Intellect).unwrap();
    assert_eq!(f.facet, Facet::Intellect);
    assert_eq!(f.raw, 12);
}
