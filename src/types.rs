//! Core types of the Big Five model: domains, facets, questions, answers and
//! the scores computed from them.

use vstd::prelude::*;

use crate::text::str_eq;

verus! {

/// The five personality domains in the Big Five model.
#[derive(Debug, Clone, Copy, PartialEq, Eq, Hash, Structural)]
pub enum Domain {
    /// Neuroticism (N) - tendency to experience negative emotions
    Neuroticism,
    /// Extraversion (E) - tendency to seek stimulation and enjoy company
    Extraversion,
    /// Openness to Experience (O) - tendency to be creative and curious
    Openness,
    /// Agreeableness (A) - tendency to be compassionate and cooperative
    Agreeableness,
    /// Conscientiousness (C) - tendency to be organized and dependable
    Conscientiousness,
}

/// Position of a domain in the canonical order N, E, O, A, C.
pub open spec fn domain_ord(d: Domain) -> nat {
    match d {
        Domain::Neuroticism => 0,
        Domain::Extraversion => 1,
        Domain::Openness => 2,
        Domain::Agreeableness => 3,
        Domain::Conscientiousness => 4,
    }
}

/// Single-letter code of a domain.
pub open spec fn domain_code(d: Domain) -> Seq<char> {
    match d {
        Domain::Neuroticism => "N"@,
        Domain::Extraversion => "E"@,
        Domain::Openness => "O"@,
        Domain::Agreeableness => "A"@,
        Domain::Conscientiousness => "C"@,
    }
}

/// Full name of a domain.
pub open spec fn domain_name(d: Domain) -> Seq<char> {
    match d {
        Domain::Neuroticism => "Neuroticism"@,
        Domain::Extraversion => "Extraversion"@,
        Domain::Openness => "Openness to Experience"@,
        Domain::Agreeableness => "Agreeableness"@,
        Domain::Conscientiousness => "Conscientiousness"@,
    }
}

/// The 30 facets of the IPIP-NEO model, six per domain.
#[derive(Debug, Clone, Copy, PartialEq, Eq, Hash, Structural)]
pub enum Facet {
    // Neuroticism facets (1-6)
    Anxiety,
    Anger,
    Depression,
    SelfConsciousness,
    Immoderation,
    Vulnerability,
    // Extraversion facets (1-6)
    Friendliness,
    Gregariousness,
    Assertiveness,
    ActivityLevel,
    ExcitementSeeking,
    Cheerfulness,
    // Openness facets (1-6)
    Imagination,
    ArtisticInterests,
    Emotionality,
    Adventurousness,
    Intellect,
    Liberalism,
    // Agreeableness facets (1-6)
    Trust,
    Morality,
    Altruism,
    Cooperation,
    Modesty,
    Sympathy,
    // Conscientiousness facets (1-6)
    SelfEfficacy,
    Orderliness,
    Dutifulness,
    AchievementStriving,
    SelfDiscipline,
    Cautiousness,
}

/// Position of a facet in the canonical order: the six facets of each domain,
/// domains in the order of `domain_ord`.
pub open spec fn facet_ord(f: Facet) -> nat {
    match f {
        Facet::Anxiety => 0,
        Facet::Anger => 1,
        Facet::Depression => 2,
        Facet::SelfConsciousness => 3,
        Facet::Immoderation => 4,
        Facet::Vulnerability => 5,
        Facet::Friendliness => 6,
        Facet::Gregariousness => 7,
        Facet::Assertiveness => 8,
        Facet::ActivityLevel => 9,
        Facet::ExcitementSeeking => 10,
        Facet::Cheerfulness => 11,
        Facet::Imagination => 12,
        Facet::ArtisticInterests => 13,
        Facet::Emotionality => 14,
        Facet::Adventurousness => 15,
        Facet::Intellect => 16,
        Facet::Liberalism => 17,
        Facet::Trust => 18,
        Facet::Morality => 19,
        Facet::Altruism => 20,
        Facet::Cooperation => 21,
        Facet::Modesty => 22,
        Facet::Sympathy => 23,
        Facet::SelfEfficacy => 24,
        Facet::Orderliness => 25,
        Facet::Dutifulness => 26,
        Facet::AchievementStriving => 27,
        Facet::SelfDiscipline => 28,
        Facet::Cautiousness => 29,
    }
}

/// Display name of a facet.
pub open spec fn facet_name(f: Facet) -> Seq<char> {
    match f {
        Facet::Anxiety => "Anxiety"@,
        Facet::Anger => "Anger"@,
        Facet::Depression => "Depression"@,
        Facet::SelfConsciousness => "Self-Consciousness"@,
        Facet::Immoderation => "Immoderation"@,
        Facet::Vulnerability => "Vulnerability"@,
        Facet::Friendliness => "Friendliness"@,
        Facet::Gregariousness => "Gregariousness"@,
        Facet::Assertiveness => "Assertiveness"@,
        Facet::ActivityLevel => "Activity Level"@,
        Facet::ExcitementSeeking => "Excitement-Seeking"@,
        Facet::Cheerfulness => "Cheerfulness"@,
        Facet::Imagination => "Imagination"@,
        Facet::ArtisticInterests => "Artistic Interests"@,
        Facet::Emotionality => "Emotionality"@,
        Facet::Adventurousness => "Adventurousness"@,
        Facet::Intellect => "Intellect"@,
        Facet::Liberalism => "Liberalism"@,
        Facet::Trust => "Trust"@,
        Facet::Morality => "Morality"@,
        Facet::Altruism => "Altruism"@,
        Facet::Cooperation => "Cooperation"@,
        Facet::Modesty => "Modesty"@,
        Facet::Sympathy => "Sympathy"@,
        Facet::SelfEfficacy => "Self-Efficacy"@,
        Facet::Orderliness => "Orderliness"@,
        Facet::Dutifulness => "Dutifulness"@,
        Facet::AchievementStriving => "Achievement-Striving"@,
        Facet::SelfDiscipline => "Self-Discipline"@,
        Facet::Cautiousness => "Cautiousness"@,
    }
}

/// The domain a facet belongs to.
pub open spec fn facet_domain(f: Facet) -> Domain {
    domain_at(facet_ord(f) / 6)
}

/// The 1-based index of a facet within its domain.
pub open spec fn facet_index(f: Facet) -> nat {
    facet_ord(f) % 6 + 1
}

/// The domain at position `i` (taken modulo the last one).
pub open spec fn domain_at(i: nat) -> Domain {
    if i == 0 {
        Domain::Neuroticism
    } else if i == 1 {
        Domain::Extraversion
    } else if i == 2 {
        Domain::Openness
    } else if i == 3 {
        Domain::Agreeableness
    } else {
        Domain::Conscientiousness
    }
}

/// The facet whose ordinal is `domain_ord(d) * 6 + index - 1`, when `1 <= index <= 6`.
pub open spec fn facet_for(d: Domain, index: int) -> Option<Facet> {
    if 1 <= index <= 6 {
        Some(choose|f: Facet| facet_ord(f) == domain_ord(d) * 6 + index - 1)
    } else {
        None
    }
}

impl Domain {
    /// Position of the domain in canonical order.
    pub(crate) fn ord(d: Domain) -> (r: usize)
        ensures
            r == domain_ord(d),
    {
        match d {
            Domain::Neuroticism => 0,
            Domain::Extraversion => 1,
            Domain::Openness => 2,
            Domain::Agreeableness => 3,
            Domain::Conscientiousness => 4,
        }
    }

    /// Returns the single-letter code for the domain.
    pub fn code(&self) -> (r: &'static str)
        ensures
            r@ == domain_code(*self),
    {
        match self {
            Domain::Neuroticism => "N",
            Domain::Extraversion => "E",
            Domain::Openness => "O",
            Domain::Agreeableness => "A",
            Domain::Conscientiousness => "C",
        }
    }

    /// Returns the full name of the domain.
    pub fn name(&self) -> (r: &'static str)
        ensures
            r@ == domain_name(*self),
    {
        match self {
            Domain::Neuroticism => "Neuroticism",
            Domain::Extraversion => "Extraversion",
            Domain::Openness => "Openness to Experience",
            Domain::Agreeableness => "Agreeableness",
            Domain::Conscientiousness => "Conscientiousness",
        }
    }

    /// Returns the six facets of this domain, in index order.
    pub fn facets(&self) -> (r: Vec<Facet>)
        ensures
            r@.len() == 6,
            forall|i: int| 0 <= i < 6 ==> facet_ord(#[trigger] r@[i]) == domain_ord(*self) * 6 + i,
    {
        match self {
            Domain::Neuroticism => vec![Facet::Anxiety, Facet::Anger, Facet::Depression, Facet::SelfConsciousness, Facet::Immoderation, Facet::Vulnerability],
            Domain::Extraversion => vec![Facet::Friendliness, Facet::Gregariousness, Facet::Assertiveness, Facet::ActivityLevel, Facet::ExcitementSeeking, Facet::Cheerfulness],
            Domain::Openness => vec![Facet::Imagination, Facet::ArtisticInterests, Facet::Emotionality, Facet::Adventurousness, Facet::Intellect, Facet::Liberalism],
            Domain::Agreeableness => vec![Facet::Trust, Facet::Morality, Facet::Altruism, Facet::Cooperation, Facet::Modesty, Facet::Sympathy],
            Domain::Conscientiousness => vec![Facet::SelfEfficacy, Facet::Orderliness, Facet::Dutifulness, Facet::AchievementStriving, Facet::SelfDiscipline, Facet::Cautiousness],
        }
    }

    /// Returns all domains in canonical order.
    pub fn all() -> (r: Vec<Domain>)
        ensures
            r@.len() == 5,
            forall|i: int| 0 <= i < 5 ==> domain_ord(#[trigger] r@[i]) == i,
    {
        vec![Domain::Neuroticism, Domain::Extraversion, Domain::Openness, Domain::Agreeableness, Domain::Conscientiousness
        ]
    }

    /// Parses a domain from its single-letter code.
    pub fn from_code(code: &str) -> (r: Option<Domain>)
        ensures
            match r {
                Some(d) => domain_code(d) == code@,
                None => forall|d: Domain| domain_code(d) != code@,
            },
    {
        if str_eq(code, "N") {
            Some(Domain::Neuroticism)
        } else if str_eq(code, "E") {
            Some(Domain::Extraversion)
        } else if str_eq(code, "O") {
            Some(Domain::Openness)
        } else if str_eq(code, "A") {
            Some(Domain::Agreeableness)
        } else if str_eq(code, "C") {
            Some(Domain::Conscientiousness)
        } else {
            None
        }
    }
}

impl Facet {
    /// Returns the display name of the facet.
    pub fn name(&self) -> (r: &'static str)
        ensures
            r@ == facet_name(*self),
    {
        match self {
            Facet::Anxiety => "Anxiety",
            Facet::Anger => "Anger",
            Facet::Depression => "Depression",
            Facet::SelfConsciousness => "Self-Consciousness",
            Facet::Immoderation => "Immoderation",
            Facet::Vulnerability => "Vulnerability",
            Facet::Friendliness => "Friendliness",
            Facet::Gregariousness => "Gregariousness",
            Facet::Assertiveness => "Assertiveness",
            Facet::ActivityLevel => "Activity Level",
            Facet::ExcitementSeeking => "Excitement-Seeking",
            Facet::Cheerfulness => "Cheerfulness",
            Facet::Imagination => "Imagination",
            Facet::ArtisticInterests => "Artistic Interests",
            Facet::Emotionality => "Emotionality",
            Facet::Adventurousness => "Adventurousness",
            Facet::Intellect => "Intellect",
            Facet::Liberalism => "Liberalism",
            Facet::Trust => "Trust",
            Facet::Morality => "Morality",
            Facet::Altruism => "Altruism",
            Facet::Cooperation => "Cooperation",
            Facet::Modesty => "Modesty",
            Facet::Sympathy => "Sympathy",
            Facet::SelfEfficacy => "Self-Efficacy",
            Facet::Orderliness => "Orderliness",
            Facet::Dutifulness => "Dutifulness",
            Facet::AchievementStriving => "Achievement-Striving",
            Facet::SelfDiscipline => "Self-Discipline",
            Facet::Cautiousness => "Cautiousness",
        }
    }

    /// Returns the domain this facet belongs to.
    pub fn domain(&self) -> (r: Domain)
        ensures
            r == facet_domain(*self),
            domain_ord(r) == facet_ord(*self) / 6,
    {
        match self {
            Facet::Anxiety
            | Facet::Anger
            | Facet::Depression
            | Facet::SelfConsciousness
            | Facet::Immoderation
            | Facet::Vulnerability => Domain::Neuroticism,
            Facet::Friendliness
            | Facet::Gregariousness
            | Facet::Assertiveness
            | Facet::ActivityLevel
            | Facet::ExcitementSeeking
            | Facet::Cheerfulness => Domain::Extraversion,
            Facet::Imagination
            | Facet::ArtisticInterests
            | Facet::Emotionality
            | Facet::Adventurousness
            | Facet::Intellect
            | Facet::Liberalism => Domain::Openness,
            Facet::Trust
            | Facet::Morality
            | Facet::Altruism
            | Facet::Cooperation
            | Facet::Modesty
            | Facet::Sympathy => Domain::Agreeableness,
            Facet::SelfEfficacy
            | Facet::Orderliness
            | Facet::Dutifulness
            | Facet::AchievementStriving
            | Facet::SelfDiscipline
            | Facet::Cautiousness => Domain::Conscientiousness,
        }
    }

    /// Returns the facet index (1-6) within its domain.
    pub fn index(&self) -> (r: u8)
        ensures
            r == facet_index(*self),
            1 <= r <= 6,
    {
        match self {
            Facet::Anxiety => 1,
            Facet::Anger => 2,
            Facet::Depression => 3,
            Facet::SelfConsciousness => 4,
            Facet::Immoderation => 5,
            Facet::Vulnerability => 6,
            Facet::Friendliness => 1,
            Facet::Gregariousness => 2,
            Facet::Assertiveness => 3,
            Facet::ActivityLevel => 4,
            Facet::ExcitementSeeking => 5,
            Facet::Cheerfulness => 6,
            Facet::Imagination => 1,
            Facet::ArtisticInterests => 2,
            Facet::Emotionality => 3,
            Facet::Adventurousness => 4,
            Facet::Intellect => 5,
            Facet::Liberalism => 6,
            Facet::Trust => 1,
            Facet::Morality => 2,
            Facet::Altruism => 3,
            Facet::Cooperation => 4,
            Facet::Modesty => 5,
            Facet::Sympathy => 6,
            Facet::SelfEfficacy => 1,
            Facet::Orderliness => 2,
            Facet::Dutifulness => 3,
            Facet::AchievementStriving => 4,
            Facet::SelfDiscipline => 5,
            Facet::Cautiousness => 6,
        }
    }

    /// Returns the facet of `domain` with the given index (1-6).
    pub fn from_domain_and_index(domain: Domain, index: u8) -> (r: Option<Facet>)
        ensures
            match r {
                Some(f) => 1 <= index <= 6 && facet_ord(f) == domain_ord(domain) * 6 + index - 1,
                None => !(1 <= index <= 6),
            },
            r == facet_for(domain, index as int),
    {
        if index < 1 || index > 6 {
            return None;
        }
        let fs = domain.facets();
        let f = fs[(index - 1) as usize];
        proof {
            lemma_facet_ord_injective(f);
        }
        Some(f)
    }
}

/// Two facets with the same ordinal are the same facet.
pub proof fn lemma_facet_ord_injective(f: Facet)
    ensures
        forall|g: Facet| facet_ord(g) == facet_ord(f) ==> g == f,
{
}

/// Score level categorization.
#[derive(Debug, Clone, Copy, PartialEq, Eq, Structural)]
pub enum ScoreLevel {
    /// Low score (roughly bottom third)
    Low,
    /// Neutral/average score (roughly middle third)
    Neutral,
    /// High score (roughly top third)
    High,
}

/// A single question in the inventory.
#[derive(Debug, Clone, PartialEq)]
pub struct Question {
    /// Unique identifier for the question.
    pub id: String,
    /// The question text.
    pub text: String,
    /// The domain this question measures.
    pub domain: Domain,
    /// The facet index (1-6) within the domain.
    pub facet_index: u8,
    /// Whether this question uses reverse scoring.
    pub reversed: bool,
}

impl Question {
    /// Get the facet this question measures.
    pub fn facet(&self) -> (r: Option<Facet>)
        ensures
            r == facet_for(self.domain, self.facet_index as int),
    {
        Facet::from_domain_and_index(self.domain, self.facet_index)
    }
}

/// An answer to a question.
#[derive(Debug, Clone)]
pub struct Answer {
    /// The question ID this answer is for.
    pub question_id: String,
    /// The response value (1-5).
    /// 1 = Very Inaccurate, 2 = Moderately Inaccurate, 3 = Neither,
    /// 4 = Moderately Accurate, 5 = Very Accurate
    pub value: u8,
}

/// Score for a single facet.
#[derive(Debug, Clone, PartialEq)]
pub struct FacetScore {
    /// The facet being scored.
    pub facet: Facet,
    /// Raw score (4-20, four questions per facet).
    pub raw: u8,
    /// Categorized level.
    pub level: ScoreLevel,
}

/// Score for a domain.
#[derive(Debug, Clone, PartialEq)]
pub struct DomainScore {
    /// The domain being scored.
    pub domain: Domain,
    /// Raw score (24-120, sum of six facets).
    pub raw: u8,
    /// Categorized level.
    pub level: ScoreLevel,
    /// Individual facet scores.
    pub facets: Vec<FacetScore>,
}

/// Complete personality profile with all domain and facet scores.
#[derive(Debug, Clone, PartialEq)]
pub struct PersonalityProfile {
    /// Scores for all five domains.
    pub domains: Vec<DomainScore>,
}

/// `i` is the position of the first domain score for `d`.
pub open spec fn is_first_domain(ds: Seq<DomainScore>, d: Domain, i: int) -> bool {
    0 <= i < ds.len() && ds[i].domain == d && forall|j: int| 0 <= j < i ==> ds[j].domain != d
}

/// `k` is the position of the first facet score for `f`.
pub open spec fn is_first_facet(fs: Seq<FacetScore>, f: Facet, k: int) -> bool {
    0 <= k < fs.len() && fs[k].facet == f && forall|j: int| 0 <= j < k ==> fs[j].facet != f
}

impl PersonalityProfile {
    /// Get the score for a specific domain: the first entry for it.
    pub fn domain_score(&self, domain: Domain) -> (r: Option<&DomainScore>)
        ensures
            match r {
                Some(s) => exists|i: int|
                    is_first_domain(self.domains@, domain, i) && *s == #[trigger] self.domains@[i],
                None => forall|i: int|
                    0 <= i < self.domains@.len() ==> #[trigger] self.domains@[i].domain != domain,
            },
    {
        let mut i: usize = 0;
        while i < self.domains.len()
            invariant
                i <= self.domains@.len(),
                forall|j: int| 0 <= j < i ==> self.domains@[j].domain != domain,
            decreases self.domains@.len() - i,
        {
            if self.domains[i].domain == domain {
                assert(is_first_domain(self.domains@, domain, i as int));
                return Some(&self.domains[i]);
            }
            i = i + 1;
        }
        None
    }

    /// Get the score for a specific facet: the first entry for it within the
    /// first score of its domain.
    pub fn facet_score(&self, facet: Facet) -> (r: Option<&FacetScore>)
        ensures
            match r {
                Some(s) => exists|i: int, k: int|
                    is_first_domain(self.domains@, facet_domain(facet), i) && is_first_facet(
                        self.domains@[i].facets@,
                        facet,
                        k,
                    ) && *s == #[trigger] self.domains@[i].facets@[k],
                None => (forall|i: int|
                    0 <= i < self.domains@.len() ==> #[trigger] self.domains@[i].domain
                        != facet_domain(facet)) || exists|i: int|
                    is_first_domain(self.domains@, facet_domain(facet), i) && forall|k: int|
                        0 <= k < self.domains@[i].facets@.len() ==> #[trigger] self.domains@[i].facets@[k].facet
                            != facet,
            },
    {
        let domain = facet.domain();
        match self.domain_score(domain) {
            None => None,
            Some(d) => {
                let ghost di = choose|i: int|
                    is_first_domain(self.domains@, domain, i) && *d == self.domains@[i];
                let mut i: usize = 0;
                while i < d.facets.len()
                    invariant
                        i <= d.facets@.len(),
                        is_first_domain(self.domains@, domain, di),
                        *d == self.domains@[di],
                        domain == facet_domain(facet),
                        forall|j: int| 0 <= j < i ==> d.facets@[j].facet != facet,
                    decreases d.facets@.len() - i,
                {
                    if d.facets[i].facet == facet {
                        assert(is_first_facet(d.facets@, facet, i as int));
                        assert(d.facets@[i as int] == self.domains@[di].facets@[i as int]);
                        return Some(&d.facets[i]);
                    }
                    i = i + 1;
                }
                None
            }
        }
    }
}

} // verus!
