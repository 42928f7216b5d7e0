use bigfive::{Domain, Error, Ipip120};

#[test]
fn test_load_english() {
    let inventory = Ipip120::english();
    assert_eq!(inventory.len(), 120);
    assert_eq!(inventory.lang(), "en");
}

#[test]
fn test_load_russian() {
    let inventory = Ipip120::russian();
    assert_eq!(inventory.len(), 120);
    assert_eq!(inventory.lang(), "ru");
}

#[test]
fn test_question_distribution() {
    let inventory = Ipip120::english();

    // Count questions per domain
    for domain in Domain::all().iter() {
        let count = inventory
            .questions()
            .iter()
            .filter(|q| q.domain == *domain)
            .count();
        assert_eq!(count, 24, "Domain {:?} should have 24 questions", domain);
    }

    // Count questions per facet (should be 4 each)
    for domain in Domain::all().iter() {
        for facet_idx in 1..=6 {
            let count = inventory
                .questions()
                .iter()
                .filter(|q| q.domain == *domain && q.facet_index == facet_idx)
                .count();
            assert_eq!(
                count, 4,
                "Domain {:?} facet {} should have 4 questions",
                domain, facet_idx
            );
        }
    }
}

#[test]
fn test_reversed_questions_exist() {
    let inventory = Ipip120::english();
    let reversed_count = inventory.questions().iter().filter(|q| q.reversed).count();
    assert!(
        reversed_count > 0,
        "There should be some reversed questions"
    );
    assert!(reversed_count < 120, "Not all questions should be reversed");
}

#[test]
fn russian_inventory_mirrors_english_structure() {
    let en = Ipip120::english();
    let ru = Ipip120::russian();
    for (a, b) in en.questions().iter().zip(ru.questions().iter()) {
        assert_eq!(a.id, b.id);
        assert_eq!(a.domain, b.domain);
        assert_eq!(a.facet_index, b.facet_index);
        assert_eq!(a.reversed, b.reversed);
        assert_ne!(a.text, b.text);
    }
}

#[test]
fn unsupported_language_is_rejected() {
    match Ipip120::new("de") {
        Err(Error::UnsupportedLanguage(l)) => assert_eq!(l, "de"),
        other => panic!("unexpected: {:?}", other.map(|i| i.len())),
    }
    assert!(Ipip120::new("en").is_ok());
    assert!(!Ipip120::english().is_empty());
}

#[test]
fn question_lookup_by_id() {
    let inventory = Ipip120::english();
    let first = &inventory.questions()[0];
    let found = inventory.question_by_id(&first.id).unwrap();
    assert_eq!(found, first);
    assert!(inventory.question_by_id("no-such-id").is_none());
}
