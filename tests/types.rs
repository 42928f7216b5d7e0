use bigfive::{Domain, Facet, Question};

#[test]
fn domain_codes_and_names() {
    let all = Domain::all();
    assert_eq!(all.len(), 5);
    let codes: Vec<&str> = all.iter().map(|d| d.code()).collect();
    assert_eq!(codes, vec!["N", "E", "O", "A", "C"]);
    assert_eq!(Domain::Openness.name(), "Openness to Experience");
    for d in all.iter() {
        assert_eq!(Domain::from_code(d.code()), Some(*d));
    }
    assert_eq!(Domain::from_code("X"), None);
    assert_eq!(Domain::from_code(""), None);
    assert_eq!(Domain::from_code("NE"), None);
}

#[test]
fn facets_belong_to_their_domain() {
    for d in Domain::all().iter() {
        let facets = d.facets();
        assert_eq!(facets.len(), 6);
        for (i, f) in facets.iter().enumerate() {
            assert_eq!(f.domain(), *d);
            assert_eq!(f.index() as usize, i + 1);
            assert_eq!(Facet::from_domain_and_index(*d, (i + 1) as u8), Some(*f));
        }
        assert_eq!(Facet::from_domain_and_index(*d, 0), None);
        assert_eq!(Facet::from_domain_and_index(*d, 7), None);
    }
    assert_eq!(Facet::SelfConsciousness.name(), "Self-Consciousness");
    assert_eq!(Facet::ActivityLevel.name(), "Activity Level");
    assert_eq!(Facet::Cautiousness.domain(), Domain::Conscientiousness);
    assert_eq!(Facet::Liberalism.index(), 6);
}

#[test]
fn question_facet() {
    let q = Question {
        id: "x".to_string(),
        text: "t".to_string(),
        domain: Domain::Agreeableness,
        facet_index: 3,
        reversed: false,
    };
    assert_eq!(q.facet(), Some(Facet::Altruism));
    let bad = Question { facet_index: 9, ..q };
    assert_eq!(bad.facet(), None);
}
