//! The IPIP-NEO-120 question inventory, in English and Russian.
//!
//! The items are those of the public-domain IPIP-NEO-120; a question's id
//! names its domain, facet and place (`n1-1` is the first Anxiety item), and
//! is the same in both languages.

use vstd::prelude::*;
use vstd::string::*;

use crate::error::Error;
use crate::scoring::{all_slots_full, facet_slot, slot_count, FACET_SLOTS};
use crate::text::str_eq;
use crate::types::{domain_ord, Domain, Question};

verus! {

/// Number of questions in the inventory.
pub const QUESTION_COUNT: usize = 120;

/// The IPIP-NEO-120 personality inventory: 120 questions measuring the Big
/// Five traits, 24 per domain and 4 per facet.
#[derive(Debug, PartialEq)]
pub struct Ipip120 {
    questions: Vec<Question>,
    lang: String,
}

impl Ipip120 {
    /// An inventory holds exactly `QUESTION_COUNT` questions, four for each
    /// facet of each domain.
    #[verifier::type_invariant]
    pub closed spec fn inv(self) -> bool {
        self.questions@.len() == QUESTION_COUNT && all_slots_full(self.questions@) && mixed_keying(
            self.questions@,
        )
    }

    /// The questions, in inventory order.
    pub closed spec fn spec_questions(&self) -> Seq<Question> {
        self.questions@
    }

    /// The language code the inventory was loaded for.
    pub closed spec fn spec_lang(&self) -> Seq<char> {
        self.lang@
    }

    /// Load the inventory for a language: "en" (English) or "ru" (Russian).
    pub fn new(lang: &str) -> (r: Result<Self, Error>)
        ensures
            match r {
                Ok(inv) => (lang@ == "en"@ || lang@ == "ru"@) && inv.spec_lang() == lang@
                    && inv.spec_questions().len() == QUESTION_COUNT && all_slots_full(
                    inv.spec_questions(),
                ) && mixed_keying(inv.spec_questions()),
                Err(e) => lang@ != "en"@ && lang@ != "ru"@ && (e matches Error::UnsupportedLanguage(
                    l,
                ) && l@ == lang@),
            },
    {
        let ru = if str_eq(lang, "en") {
            false
        } else if str_eq(lang, "ru") {
            true
        } else {
            return Err(Error::UnsupportedLanguage(String::from_str(lang)));
        };
        let mut questions: Vec<Question> = Vec::new();
        let ghost q0 = questions@;
        neuroticism_items(&mut questions, ru);
        let ghost first_block = questions@;
        extraversion_items(&mut questions, ru);
        openness_items(&mut questions, ru);
        agreeableness_items(&mut questions, ru);
        conscientiousness_items(&mut questions, ru);
        proof {
            assert forall|k: int| 0 <= k < FACET_SLOTS implies #[trigger] slot_count(
                questions@,
                k,
            ) == 4 by {
                assert(slot_count(q0, k) == 0);
            }
            reveal(mixed_keying);
            assert(!first_block[0].reversed && first_block[7].reversed);
            assert(questions@[0] == first_block[0] && questions@[7] == first_block[7]);
        }
        Ok(Ipip120 { questions, lang: String::from_str(lang) })
    }

    /// Load the English inventory.
    pub fn english() -> (r: Self)
        ensures
            r.spec_lang() == "en"@,
    {
        match Self::new("en") {
            Ok(inv) => inv,
            Err(_) => unreached(),
        }
    }

    /// Load the Russian inventory.
    pub fn russian() -> (r: Self)
        ensures
            r.spec_lang() == "ru"@,
    {
        match Self::new("ru") {
            Ok(inv) => inv,
            Err(_) => unreached(),
        }
    }

    /// Get all questions in the inventory.
    pub fn questions(&self) -> (r: &[Question])
        ensures
            r@ == self.spec_questions(),
            r@.len() == QUESTION_COUNT,
            all_slots_full(r@),
            mixed_keying(r@),
    {
        proof {
            use_type_invariant(self);
        }
        self.questions.as_slice()
    }

    /// Get the first question with the given id.
    pub fn question_by_id(&self, id: &str) -> (r: Option<&Question>)
        ensures
            match r {
                Some(q) => exists|i: int|
                    0 <= i < self.spec_questions().len() && *q == #[trigger] self.spec_questions()[i]
                        && q.id@ == id@ && forall|j: int|
                        0 <= j < i ==> self.spec_questions()[j].id@ != id@,
                None => forall|i: int|
                    0 <= i < self.spec_questions().len() ==> #[trigger] self.spec_questions()[i].id@
                        != id@,
            },
    {
        let mut i: usize = 0;
        while i < self.questions.len()
            invariant
                i <= self.questions@.len(),
                forall|j: int| 0 <= j < i ==> #[trigger] self.questions@[j].id@ != id@,
            decreases self.questions@.len() - i,
        {
            if str_eq(self.questions[i].id.as_str(), id) {
                return Some(&self.questions[i]);
            }
            i = i + 1;
        }
        None
    }

    /// Get the language of this inventory.
    pub fn lang(&self) -> (r: &str)
        ensures
            r@ == self.spec_lang(),
    {
        self.lang.as_str()
    }

    /// Get the number of questions.
    pub fn len(&self) -> (r: usize)
        ensures
            r == self.spec_questions().len(),
            r == QUESTION_COUNT,
    {
        proof {
            use_type_invariant(self);
        }
        self.questions.len()
    }

    /// Check if the inventory is empty.
    pub fn is_empty(&self) -> (r: bool)
        ensures
            r == (self.spec_questions().len() == 0),
            !r,
    {
        proof {
            use_type_invariant(self);
        }
        self.questions.len() == 0
    }
}

/// Some questions are reverse-keyed, and some are not.
#[verifier::opaque]
pub open spec fn mixed_keying(qs: Seq<Question>) -> bool {
    (exists|i: int| 0 <= i < qs.len() && #[trigger] qs[i].reversed) && (exists|i: int|
        0 <= i < qs.len() && !(#[trigger] qs[i].reversed))
}

/// Appends one question, its text in Russian when `ru` holds, else in English.
fn push_item(
    v: &mut Vec<Question>,
    ru: bool,
    id: &str,
    domain: Domain,
    facet_index: u8,
    reversed: bool,
    en_text: &str,
    ru_text: &str,
)
    ensures
        final(v)@.len() == old(v)@.len() + 1,
        forall|i: int| 0 <= i < old(v)@.len() ==> #[trigger] final(v)@[i] == old(v)@[i],
        final(v)@.last().id@ == id@,
        final(v)@.last().text@ == if ru {
            ru_text@
        } else {
            en_text@
        },
        final(v)@.last().domain == domain,
        final(v)@.last().facet_index == facet_index,
        final(v)@.last().reversed == reversed,
        forall|k: int|
            0 <= k ==> #[trigger] slot_count(final(v)@, k) == slot_count(old(v)@, k) + if 1 <= facet_index <= 6
                && domain_ord(domain) * 6 + facet_index - 1 == k {
                1int
            } else {
                0int
            },
{
    let text = if ru {
        String::from_str(ru_text)
    } else {
        String::from_str(en_text)
    };
    v.push(Question { id: String::from_str(id), text, domain, facet_index, reversed });
    proof {
        let s = v@;
        assert(s.drop_last() =~= old(v)@);
        assert forall|k: int| 0 <= k implies #[trigger] slot_count(s, k) == slot_count(old(v)@, k) + if 1
            <= facet_index <= 6 && domain_ord(domain) * 6 + facet_index - 1 == k {
            1int
        } else {
            0int
        } by {
            assert(slot_count(s, k) == slot_count(s.drop_last(), k) + if facet_slot(s.last()) == k {
                1nat
            } else {
                0nat
            });
        }
    }
}

/// The 24 questions of Neuroticism.
fn neuroticism_items(v: &mut Vec<Question>, ru: bool)
    ensures
        !final(v)@[old(v)@.len() as int].reversed,
        final(v)@[old(v)@.len() + 7int].reversed,
        final(v)@.len() == old(v)@.len() + 24,
        forall|i: int| 0 <= i < old(v)@.len() ==> #[trigger] final(v)@[i] == old(v)@[i],
        forall|k: int|
            0 <= k ==> #[trigger] slot_count(final(v)@, k) == slot_count(old(v)@, k) + if 0 <= k < 6 {
                4int
            } else {
                0int
            },
{
    push_item(v, ru, "n1-1", Domain::Neuroticism, 1, false, "Worry about things", "Беспокоюсь о разных вещах");
    push_item(v, ru, "n1-2", Domain::Neuroticism, 1, false, "Fear for the worst", "Опасаюсь худшего");
    push_item(v, ru, "n1-3", Domain::Neuroticism, 1, false, "Am afraid of many things", "Боюсь многого");
    push_item(v, ru, "n1-4", Domain::Neuroticism, 1, false, "Get stressed out easily", "Легко впадаю в стресс");
    push_item(v, ru, "n2-1", Domain::Neuroticism, 2, false, "Get angry easily", "Легко злюсь");
    push_item(v, ru, "n2-2", Domain::Neuroticism, 2, false, "Get irritated easily", "Легко раздражаюсь");
    push_item(v, ru, "n2-3", Domain::Neuroticism, 2, false, "Lose my temper", "Выхожу из себя");
    push_item(v, ru, "n2-4", Domain::Neuroticism, 2, true, "Am not easily annoyed", "Меня нелегко вывести из себя");
    push_item(v, ru, "n3-1", Domain::Neuroticism, 3, false, "Often feel blue", "Часто грущу");
    push_item(v, ru, "n3-2", Domain::Neuroticism, 3, false, "Dislike myself", "Не нравлюсь сам себе");
    push_item(v, ru, "n3-3", Domain::Neuroticism, 3, false, "Am often down in the dumps", "Часто пребываю в унынии");
    push_item(v, ru, "n3-4", Domain::Neuroticism, 3, true, "Feel comfortable with myself", "Чувствую себя в ладу с собой");
    push_item(v, ru, "n4-1", Domain::Neuroticism, 4, false, "Find it difficult to approach others", "Мне трудно первым заговорить с людьми");
    push_item(v, ru, "n4-2", Domain::Neuroticism, 4, false, "Am afraid to draw attention to myself", "Боюсь привлекать к себе внимание");
    push_item(v, ru, "n4-3", Domain::Neuroticism, 4, false, "Only feel comfortable with friends", "Комфортно чувствую себя только с друзьями");
    push_item(v, ru, "n4-4", Domain::Neuroticism, 4, true, "Am not bothered by difficult social situations", "Меня не смущают сложные ситуации в общении");
    push_item(v, ru, "n5-1", Domain::Neuroticism, 5, false, "Go on binges", "Бываю невоздержан");
    push_item(v, ru, "n5-2", Domain::Neuroticism, 5, true, "Rarely overindulge", "Редко позволяю себе лишнее");
    push_item(v, ru, "n5-3", Domain::Neuroticism, 5, true, "Easily resist temptations", "Легко сопротивляюсь соблазнам");
    push_item(v, ru, "n5-4", Domain::Neuroticism, 5, true, "Am able to control my cravings", "Умею контролировать свои желания");
    push_item(v, ru, "n6-1", Domain::Neuroticism, 6, false, "Panic easily", "Легко поддаюсь панике");
    push_item(v, ru, "n6-2", Domain::Neuroticism, 6, false, "Become overwhelmed by events", "События выбивают меня из колеи");
    push_item(v, ru, "n6-3", Domain::Neuroticism, 6, false, "Feel that I'm unable to deal with things", "Чувствую, что не справляюсь с делами");
    push_item(v, ru, "n6-4", Domain::Neuroticism, 6, true, "Remain calm under pressure", "Сохраняю спокойствие под давлением");
}

/// The 24 questions of Extraversion.
fn extraversion_items(v: &mut Vec<Question>, ru: bool)
    ensures
        final(v)@.len() == old(v)@.len() + 24,
        forall|i: int| 0 <= i < old(v)@.len() ==> #[trigger] final(v)@[i] == old(v)@[i],
        forall|k: int|
            0 <= k ==> #[trigger] slot_count(final(v)@, k) == slot_count(old(v)@, k) + if 6 <= k < 12 {
                4int
            } else {
                0int
            },
{
    push_item(v, ru, "e1-1", Domain::Extraversion, 1, false, "Make friends easily", "Легко завожу друзей");
    push_item(v, ru, "e1-2", Domain::Extraversion, 1, false, "Feel comfortable around people", "Чувствую себя комфортно среди людей");
    push_item(v, ru, "e1-3", Domain::Extraversion, 1, true, "Avoid contacts with others", "Избегаю контактов с другими");
    push_item(v, ru, "e1-4", Domain::Extraversion, 1, true, "Keep others at a distance", "Держу других на расстоянии");
    push_item(v, ru, "e2-1", Domain::Extraversion, 2, false, "Love large parties", "Люблю большие вечеринки");
    push_item(v, ru, "e2-2", Domain::Extraversion, 2, false, "Talk to a lot of different people at parties", "На вечеринках общаюсь с множеством разных людей");
    push_item(v, ru, "e2-3", Domain::Extraversion, 2, true, "Prefer to be alone", "Предпочитаю быть один");
    push_item(v, ru, "e2-4", Domain::Extraversion, 2, true, "Avoid crowds", "Избегаю толпы");
    push_item(v, ru, "e3-1", Domain::Extraversion, 3, false, "Take charge", "Беру руководство на себя");
    push_item(v, ru, "e3-2", Domain::Extraversion, 3, false, "Try to lead others", "Стараюсь вести за собой других");
    push_item(v, ru, "e3-3", Domain::Extraversion, 3, false, "Take control of things", "Беру ситуацию под контроль");
    push_item(v, ru, "e3-4", Domain::Extraversion, 3, true, "Wait for others to lead the way", "Жду, пока другие возьмут инициативу");
    push_item(v, ru, "e4-1", Domain::Extraversion, 4, false, "Am always busy", "Всегда занят");
    push_item(v, ru, "e4-2", Domain::Extraversion, 4, false, "Am always on the go", "Всегда в движении");
    push_item(v, ru, "e4-3", Domain::Extraversion, 4, false, "Do a lot in my spare time", "Много успеваю в свободное время");
    push_item(v, ru, "e4-4", Domain::Extraversion, 4, true, "Like to take it easy", "Люблю не торопиться");
    push_item(v, ru, "e5-1", Domain::Extraversion, 5, false, "Love excitement", "Люблю острые ощущения");
    push_item(v, ru, "e5-2", Domain::Extraversion, 5, false, "Seek adventure", "Ищу приключений");
    push_item(v, ru, "e5-3", Domain::Extraversion, 5, false, "Enjoy being reckless", "Мне нравится безрассудство");
    push_item(v, ru, "e5-4", Domain::Extraversion, 5, false, "Act wild and crazy", "Веду себя бурно и безумно");
    push_item(v, ru, "e6-1", Domain::Extraversion, 6, false, "Radiate joy", "Излучаю радость");
    push_item(v, ru, "e6-2", Domain::Extraversion, 6, false, "Have a lot of fun", "Много веселюсь");
    push_item(v, ru, "e6-3", Domain::Extraversion, 6, false, "Love life", "Люблю жизнь");
    push_item(v, ru, "e6-4", Domain::Extraversion, 6, false, "Look at the bright side of life", "Смотрю на светлую сторону жизни");
}

/// The 24 questions of Openness.
fn openness_items(v: &mut Vec<Question>, ru: bool)
    ensures
        final(v)@.len() == old(v)@.len() + 24,
        forall|i: int| 0 <= i < old(v)@.len() ==> #[trigger] final(v)@[i] == old(v)@[i],
        forall|k: int|
            0 <= k ==> #[trigger] slot_count(final(v)@, k) == slot_count(old(v)@, k) + if 12 <= k < 18 {
                4int
            } else {
                0int
            },
{
    push_item(v, ru, "o1-1", Domain::Openness, 1, false, "Have a vivid imagination", "У меня живое воображение");
    push_item(v, ru, "o1-2", Domain::Openness, 1, false, "Enjoy wild flights of fantasy", "Люблю полёты фантазии");
    push_item(v, ru, "o1-3", Domain::Openness, 1, false, "Love to daydream", "Люблю мечтать");
    push_item(v, ru, "o1-4", Domain::Openness, 1, false, "Like to get lost in thought", "Люблю погружаться в размышления");
    push_item(v, ru, "o2-1", Domain::Openness, 2, false, "Believe in the importance of art", "Верю в важность искусства");
    push_item(v, ru, "o2-2", Domain::Openness, 2, false, "See beauty in things that others might not notice", "Вижу красоту там, где другие её не замечают");
    push_item(v, ru, "o2-3", Domain::Openness, 2, true, "Do not like poetry", "Не люблю поэзию");
    push_item(v, ru, "o2-4", Domain::Openness, 2, true, "Do not enjoy going to art museums", "Не получаю удовольствия от походов в художественные музеи");
    push_item(v, ru, "o3-1", Domain::Openness, 3, false, "Experience my emotions intensely", "Переживаю свои эмоции интенсивно");
    push_item(v, ru, "o3-2", Domain::Openness, 3, false, "Feel others' emotions", "Чувствую эмоции других");
    push_item(v, ru, "o3-3", Domain::Openness, 3, true, "Rarely notice my emotional reactions", "Редко замечаю свои эмоциональные реакции");
    push_item(v, ru, "o3-4", Domain::Openness, 3, true, "Don't understand people who get emotional", "Не понимаю людей, которые поддаются эмоциям");
    push_item(v, ru, "o4-1", Domain::Openness, 4, false, "Prefer variety to routine", "Предпочитаю разнообразие рутине");
    push_item(v, ru, "o4-2", Domain::Openness, 4, true, "Prefer to stick with things that I know", "Предпочитаю придерживаться того, что знаю");
    push_item(v, ru, "o4-3", Domain::Openness, 4, true, "Dislike changes", "Не люблю перемен");
    push_item(v, ru, "o4-4", Domain::Openness, 4, true, "Am attached to conventional ways", "Привязан к привычным порядкам");
    push_item(v, ru, "o5-1", Domain::Openness, 5, false, "Love to read challenging material", "Люблю читать сложные тексты");
    push_item(v, ru, "o5-2", Domain::Openness, 5, true, "Avoid philosophical discussions", "Избегаю философских дискуссий");
    push_item(v, ru, "o5-3", Domain::Openness, 5, true, "Have difficulty understanding abstract ideas", "Мне трудно понимать абстрактные идеи");
    push_item(v, ru, "o5-4", Domain::Openness, 5, true, "Am not interested in theoretical discussions", "Меня не интересуют теоретические дискуссии");
    push_item(v, ru, "o6-1", Domain::Openness, 6, false, "Tend to vote for liberal political candidates", "Склонен голосовать за либеральных политиков");
    push_item(v, ru, "o6-2", Domain::Openness, 6, false, "Believe that there is no absolute right and wrong", "Считаю, что не бывает абсолютно правильного и неправильного");
    push_item(v, ru, "o6-3", Domain::Openness, 6, true, "Tend to vote for conservative political candidates", "Склонен голосовать за консервативных политиков");
    push_item(v, ru, "o6-4", Domain::Openness, 6, true, "Believe that we should be tough on crime", "Считаю, что с преступностью нужно бороться жёстко");
}

/// The 24 questions of Agreeableness.
fn agreeableness_items(v: &mut Vec<Question>, ru: bool)
    ensures
        final(v)@.len() == old(v)@.len() + 24,
        forall|i: int| 0 <= i < old(v)@.len() ==> #[trigger] final(v)@[i] == old(v)@[i],
        forall|k: int|
            0 <= k ==> #[trigger] slot_count(final(v)@, k) == slot_count(old(v)@, k) + if 18 <= k < 24 {
                4int
            } else {
                0int
            },
{
    push_item(v, ru, "a1-1", Domain::Agreeableness, 1, false, "Trust others", "Доверяю другим");
    push_item(v, ru, "a1-2", Domain::Agreeableness, 1, false, "Believe that others have good intentions", "Верю, что у других добрые намерения");
    push_item(v, ru, "a1-3", Domain::Agreeableness, 1, false, "Trust what people say", "Верю тому, что говорят люди");
    push_item(v, ru, "a1-4", Domain::Agreeableness, 1, true, "Distrust people", "Не доверяю людям");
    push_item(v, ru, "a2-1", Domain::Agreeableness, 2, true, "Use others for my own ends", "Использую других в своих целях");
    push_item(v, ru, "a2-2", Domain::Agreeableness, 2, true, "Cheat to get ahead", "Хитрю, чтобы продвинуться");
    push_item(v, ru, "a2-3", Domain::Agreeableness, 2, true, "Take advantage of others", "Пользуюсь другими");
    push_item(v, ru, "a2-4", Domain::Agreeableness, 2, true, "Obstruct others' plans", "Мешаю планам других");
    push_item(v, ru, "a3-1", Domain::Agreeableness, 3, false, "Love to help others", "Люблю помогать другим");
    push_item(v, ru, "a3-2", Domain::Agreeableness, 3, false, "Am concerned about others", "Забочусь о других");
    push_item(v, ru, "a3-3", Domain::Agreeableness, 3, true, "Am indifferent to the feelings of others", "Безразличен к чувствам других");
    push_item(v, ru, "a3-4", Domain::Agreeableness, 3, true, "Take no time for others", "Не уделяю времени другим");
    push_item(v, ru, "a4-1", Domain::Agreeableness, 4, true, "Love a good fight", "Люблю хорошую драку");
    push_item(v, ru, "a4-2", Domain::Agreeableness, 4, true, "Yell at people", "Кричу на людей");
    push_item(v, ru, "a4-3", Domain::Agreeableness, 4, true, "Insult people", "Оскорбляю людей");
    push_item(v, ru, "a4-4", Domain::Agreeableness, 4, true, "Get back at others", "Мщу другим");
    push_item(v, ru, "a5-1", Domain::Agreeableness, 5, true, "Believe that I am better than others", "Считаю, что я лучше других");
    push_item(v, ru, "a5-2", Domain::Agreeableness, 5, true, "Think highly of myself", "Высоко себя ценю");
    push_item(v, ru, "a5-3", Domain::Agreeableness, 5, true, "Have a high opinion of myself", "У меня высокое мнение о себе");
    push_item(v, ru, "a5-4", Domain::Agreeableness, 5, true, "Boast about my virtues", "Хвастаюсь своими достоинствами");
    push_item(v, ru, "a6-1", Domain::Agreeableness, 6, false, "Sympathize with the homeless", "Сочувствую бездомным");
    push_item(v, ru, "a6-2", Domain::Agreeableness, 6, false, "Feel sympathy for those who are worse off than myself", "Сочувствую тем, кому хуже, чем мне");
    push_item(v, ru, "a6-3", Domain::Agreeableness, 6, true, "Am not interested in other people's problems", "Меня не интересуют проблемы других людей");
    push_item(v, ru, "a6-4", Domain::Agreeableness, 6, true, "Try not to think about the needy", "Стараюсь не думать о нуждающихся");
}

/// The 24 questions of Conscientiousness.
fn conscientiousness_items(v: &mut Vec<Question>, ru: bool)
    ensures
        final(v)@.len() == old(v)@.len() + 24,
        forall|i: int| 0 <= i < old(v)@.len() ==> #[trigger] final(v)@[i] == old(v)@[i],
        forall|k: int|
            0 <= k ==> #[trigger] slot_count(final(v)@, k) == slot_count(old(v)@, k) + if 24 <= k < 30 {
                4int
            } else {
                0int
            },
{
    push_item(v, ru, "c1-1", Domain::Conscientiousness, 1, false, "Complete tasks successfully", "Успешно выполняю задачи");
    push_item(v, ru, "c1-2", Domain::Conscientiousness, 1, false, "Excel in what I do", "Преуспеваю в том, что делаю");
    push_item(v, ru, "c1-3", Domain::Conscientiousness, 1, false, "Handle tasks smoothly", "Легко справляюсь с задачами");
    push_item(v, ru, "c1-4", Domain::Conscientiousness, 1, false, "Know how to get things done", "Знаю, как довести дело до конца");
    push_item(v, ru, "c2-1", Domain::Conscientiousness, 2, false, "Like to tidy up", "Люблю наводить порядок");
    push_item(v, ru, "c2-2", Domain::Conscientiousness, 2, true, "Often forget to put things back in their proper place", "Часто забываю класть вещи на место");
    push_item(v, ru, "c2-3", Domain::Conscientiousness, 2, true, "Leave a mess in my room", "Оставляю беспорядок в комнате");
    push_item(v, ru, "c2-4", Domain::Conscientiousness, 2, true, "Leave my belongings around", "Разбрасываю свои вещи");
    push_item(v, ru, "c3-1", Domain::Conscientiousness, 3, false, "Keep my promises", "Держу обещания");
    push_item(v, ru, "c3-2", Domain::Conscientiousness, 3, false, "Tell the truth", "Говорю правду");
    push_item(v, ru, "c3-3", Domain::Conscientiousness, 3, true, "Break rules", "Нарушаю правила");
    push_item(v, ru, "c3-4", Domain::Conscientiousness, 3, true, "Break my promises", "Нарушаю обещания");
    push_item(v, ru, "c4-1", Domain::Conscientiousness, 4, false, "Do more than what's expected of me", "Делаю больше, чем от меня ожидают");
    push_item(v, ru, "c4-2", Domain::Conscientiousness, 4, false, "Work hard", "Усердно работаю");
    push_item(v, ru, "c4-3", Domain::Conscientiousness, 4, true, "Put little time and effort into my work", "Вкладываю в работу мало времени и сил");
    push_item(v, ru, "c4-4", Domain::Conscientiousness, 4, true, "Do just enough work to get by", "Работаю ровно столько, чтобы хватило");
    push_item(v, ru, "c5-1", Domain::Conscientiousness, 5, false, "Am always prepared", "Всегда подготовлен");
    push_item(v, ru, "c5-2", Domain::Conscientiousness, 5, false, "Carry out my plans", "Выполняю свои планы");
    push_item(v, ru, "c5-3", Domain::Conscientiousness, 5, true, "Waste my time", "Трачу время впустую");
    push_item(v, ru, "c5-4", Domain::Conscientiousness, 5, true, "Have difficulty starting tasks", "Мне трудно браться за дела");
    push_item(v, ru, "c6-1", Domain::Conscientiousness, 6, true, "Jump into things without thinking", "Берусь за дела не подумав");
    push_item(v, ru, "c6-2", Domain::Conscientiousness, 6, true, "Make rash decisions", "Принимаю опрометчивые решения");
    push_item(v, ru, "c6-3", Domain::Conscientiousness, 6, true, "Rush into things", "Бросаюсь в дела сломя голову");
    push_item(v, ru, "c6-4", Domain::Conscientiousness, 6, true, "Act without thinking", "Действую не думая");
}

} // verus!
